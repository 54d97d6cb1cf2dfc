//! What the render loop asks of the window surface and of the rendering backend.

use vstd::prelude::*;
use crate::geometry::{DeviceRect, Size};
use crate::ids::{DocumentId, Epoch, PipelineId};
use crate::scale::ScaleFactor;

verus! {

/// The frame of one scene submission: where the scene goes, under which tag, and the
/// sizes it is built and shown in. The scene itself comes from the application.
#[derive(Clone, Copy, Debug, PartialEq, Eq, Structural)]
pub struct Submission {
    pub document: DocumentId,
    pub pipeline: PipelineId,
    pub epoch: Epoch,
    /// The logical size that the application lays the scene out in.
    pub layout: Size,
    /// The size of the viewport that the backend shows the scene through.
    pub viewport: Size,
}

/// One request to the surface or the backend. The loop hands them out in the order in
/// which they are to be carried out.
#[derive(Clone, Copy, Debug, PartialEq, Eq, Structural)]
pub enum Command {
    /// Give the surface's buffers this size in device pixels.
    ResizeSurface { size: Size },
    /// Tell the backend the window's size, area and scale factor.
    SetWindowParameters { document: DocumentId, size: Size, rect: DeviceRect, scale: ScaleFactor },
    /// Switch the backend's instrumentation on or off.
    ToggleDebugFlags,
    /// Build a scene and hand it to the backend.
    SubmitScene(Submission),
    /// Make this pipeline the root of the document.
    SetRootPipeline { document: DocumentId, pipeline: PipelineId },
    /// Ask the backend for a new frame of the document.
    GenerateFrame { document: DocumentId },
    /// Let the backend take in the work that it has finished.
    UpdateBackend,
    /// Render a frame of this size in device pixels.
    Render { size: Size },
    /// Present the rendered buffer.
    SwapBuffers,
    /// Make the window visible.
    ShowWindow,
    /// Release the backend's resources.
    Deinit,
}

} // verus!
