//! Identifiers and version tags that bind a stream of scenes to its render target.

use vstd::prelude::*;

verus! {

/// Logical version tag attached to every scene handed to the backend, by which the
/// backend tells a stale frame from a current one.
#[derive(Clone, Copy, Debug, PartialEq, Eq, Structural)]
pub struct Epoch(pub u32);

impl Epoch {
    /// The tag of the first scene of a document.
    pub fn initial() -> (e: Epoch)
        ensures
            e == Epoch(0),
    {
        Epoch(0)
    }
}

/// Names a document inside the backend: the namespace of the connection that made it
/// and its number there. The backend mints it; the loop only carries it.
#[derive(Clone, Copy, Debug, PartialEq, Eq, Structural)]
pub struct DocumentId {
    pub namespace: u32,
    pub id: u32,
}

/// Names a pipeline, the stream of scenes that fills a document.
#[derive(Clone, Copy, Debug, PartialEq, Eq, Structural)]
pub struct PipelineId(pub u32, pub u32);

impl PipelineId {
    /// The one pipeline of the viewer, which is the root of its document.
    pub fn root() -> (p: PipelineId)
        ensures
            p == PipelineId(0, 0),
    {
        PipelineId(0, 0)
    }
}

} // verus!
