//! Window geometry: the logical size that layout works in, the device scale factor,
//! and the physical size that follows from the two.

use vstd::prelude::*;
use crate::scale::{Dyadic, ScaleFactor};

verus! {

/// A width and a height, in logical or in device pixels.
#[derive(Clone, Copy, Debug, PartialEq, Eq, Structural)]
pub struct Size {
    pub width: u32,
    pub height: u32,
}

/// A rectangle in device pixels.
#[derive(Clone, Copy, Debug, PartialEq, Eq, Structural)]
pub struct DeviceRect {
    pub x: u32,
    pub y: u32,
    pub size: Size,
}

/// A resize notification: the new logical size of the window together with the scale
/// factor that the surface reports at that moment.
#[derive(Clone, Copy, Debug, PartialEq, Eq, Structural)]
pub struct Resize {
    pub width: u32,
    pub height: u32,
    pub scale: ScaleFactor,
}

/// A length for a backend that counts in signed numbers and takes none beyond
/// `limit`: the length itself where it is within the limit, the limit otherwise.
pub open spec fn bounded(len: u32, limit: i32) -> int {
    if len <= limit {
        len as int
    } else {
        limit as int
    }
}

/// Cuts a length off at a backend's limit.
pub fn bounded_length(len: u32, limit: i32) -> (r: i32)
    ensures
        r == bounded(len, limit),
{
    if limit >= 0 && len <= limit as u32 {
        len as i32
    } else {
        limit
    }
}

/// Both dimensions of a logical size in device pixels.
pub open spec fn scaled_size(logical: Size, scale: Dyadic) -> Size {
    Size {
        width: scale.scaled(logical.width as nat) as u32,
        height: scale.scaled(logical.height as nat) as u32,
    }
}

/// The mathematical content of a window geometry.
pub struct GeometryModel {
    pub logical: Size,
    pub physical: Size,
    pub scale: Dyadic,
}

impl GeometryModel {
    /// The physical size is the logical size times the scale factor.
    pub open spec fn wf(self) -> bool {
        &&& self.scale.wf()
        &&& self.physical == scaled_size(self.logical, self.scale)
    }

    /// The geometry of a window of the given logical size under the given factor.
    pub open spec fn of(logical: Size, scale: Dyadic) -> GeometryModel {
        GeometryModel { logical, physical: scaled_size(logical, scale), scale }
    }

    /// The geometry after one resize notification. Nothing of the old geometry stays.
    pub open spec fn resized(self, event: Resize) -> GeometryModel {
        GeometryModel::of(Size { width: event.width, height: event.height }, event.scale@)
    }

    /// The geometry after a run of resize notifications, the earliest first.
    pub open spec fn after_resizes(self, events: Seq<Resize>) -> GeometryModel
        decreases events.len(),
    {
        if events.len() == 0 {
            self
        } else {
            self.after_resizes(events.drop_last()).resized(events.last())
        }
    }

    /// The window's area in device pixels, anchored at the origin.
    pub open spec fn window_rect(self) -> DeviceRect {
        DeviceRect { x: 0, y: 0, size: self.physical }
    }
}

/// The size and scale of the window as the render loop last saw them.
#[derive(Clone, Copy, Debug, PartialEq, Eq, Structural)]
pub struct WindowGeometry {
    logical: Size,
    physical: Size,
    scale: ScaleFactor,
}

impl View for WindowGeometry {
    type V = GeometryModel;

    closed spec fn view(&self) -> GeometryModel {
        GeometryModel { logical: self.logical, physical: self.physical, scale: self.scale@ }
    }
}

impl WindowGeometry {
    /// Holds of every value that executable code can get hold of.
    #[verifier::type_invariant]
    pub open spec fn wf(self) -> bool {
        self@.wf()
    }

    /// The geometry of a window of the given logical size under the given factor.
    pub fn new(logical: Size, scale: ScaleFactor) -> (g: WindowGeometry)
        ensures
            g@ == GeometryModel::of(logical, scale@),
            g@.wf(),
    {
        proof {
            use_type_invariant(&scale);
        }
        let physical = Size { width: scale.scale(logical.width), height: scale.scale(logical.height) };
        WindowGeometry { logical, physical, scale }
    }

    /// Takes over the size and the scale factor of a resize notification; the physical
    /// size is computed afresh from the two.
    pub fn resize(&mut self, event: Resize)
        ensures
            final(self)@ == old(self)@.resized(event),
            final(self)@.wf(),
    {
        *self = WindowGeometry::new(Size { width: event.width, height: event.height }, event.scale);
    }

    /// The size in logical pixels, in which layout is done.
    pub fn logical_size(&self) -> (s: Size)
        ensures
            s == self@.logical,
    {
        self.logical
    }

    /// The size in device pixels, in which frames are rendered.
    pub fn physical_size(&self) -> (s: Size)
        ensures
            s == self@.physical,
            s == scaled_size(self@.logical, self@.scale),
    {
        proof {
            use_type_invariant(self);
        }
        self.physical
    }

    /// The scale factor that was in effect when the geometry last changed.
    pub fn scale_factor(&self) -> (s: ScaleFactor)
        ensures
            s@ == self@.scale,
    {
        self.scale
    }

    /// The window's area in device pixels, anchored at the origin.
    pub fn window_rect(&self) -> (r: DeviceRect)
        ensures
            r == self@.window_rect(),
    {
        DeviceRect { x: 0, y: 0, size: self.physical }
    }
}

/// Resize notifications never leave a geometry whose physical size disagrees with its
/// logical size and scale factor.
pub proof fn lemma_resizes_keep_geometry_consistent(g: GeometryModel, events: Seq<Resize>)
    requires
        g.wf(),
        forall|i: int| 0 <= i < events.len() ==> (#[trigger] events[i]).scale@.wf(),
    ensures
        g.after_resizes(events).wf(),
    decreases events.len(),
{
    if events.len() > 0 {
        lemma_resizes_keep_geometry_consistent(g, events.drop_last());
    }
}

/// After any non-empty run of resize notifications the geometry is that of the last
/// one: its logical size is the notified size, its scale factor the one in effect at
/// that notification, and its physical size their product, whatever came before.
pub proof fn lemma_resizes_track_last_event(g: GeometryModel, events: Seq<Resize>)
    requires
        events.len() > 0,
    ensures
        g.after_resizes(events).logical == (Size {
            width: events.last().width,
            height: events.last().height,
        }),
        g.after_resizes(events).scale == events.last().scale@,
        g.after_resizes(events).physical.width == events.last().scale@.scaled(
            events.last().width as nat,
        ),
        g.after_resizes(events).physical.height == events.last().scale@.scaled(
            events.last().height as nat,
        ),
{
    let s = events.last().scale@;
    assert(s.scaled(events.last().width as nat) <= u32::MAX);
    assert(s.scaled(events.last().height as nat) <= u32::MAX);
}

} // verus!
