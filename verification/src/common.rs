//! Values shared by every backend: window identity, cursors, the requests
//! that cross threads, and the handle given to a rendering library.

use vstd::prelude::*;

verus! {

/// The identity of a native window: the address of the native object.
///
/// The operating system owns the object; two ids are equal exactly when they
/// name the same address.
#[derive(Clone, Copy, Debug, PartialEq, Eq, Structural, Hash)]
pub struct WindowId {
    raw: usize,
}

impl WindowId {
    /// The address that this id names.
    pub closed spec fn address(self) -> usize {
        self.raw
    }

    pub fn new(raw: usize) -> (id: Self)
        ensures
            id.address() == raw,
    {
        WindowId { raw }
    }

    pub fn raw(&self) -> (raw: usize)
        ensures
            raw == self.address(),
    {
        self.raw
    }

    /// Equality of window ids is identity of the native object.
    pub proof fn equality_is_identity(a: WindowId, b: WindowId)
        ensures
            (a == b) <==> (a.address() == b.address()),
    {
    }
}

/// The pointer shapes that every backend can show.
#[derive(Clone, Copy, Debug, PartialEq, Eq, Structural, Hash)]
pub enum Cursor {
    Arrow,
    IBeam,
    PointingHand,
    OpenHand,
    ClosedHand,
}

/// A request that any thread may send to the main loop.
#[derive(Clone, Copy, Debug, PartialEq, Eq, Structural, Hash)]
pub enum ApplicationMessage {
    RequestFrame,
    Quit,
    SetMousePosition { x: u32, y: u32 },
}

/// What a rendering library needs to draw into a window, tagged by platform.
#[derive(Clone, Copy, Debug, PartialEq, Eq, Structural, Hash)]
pub enum RawWindowHandle {
    /// The addresses of the native window and of its content view.
    MacOS { ns_window: usize, ns_view: usize },
    /// The number of the canvas in the document.
    Web { id: u32 },
}

/// The operation has no counterpart on this platform.
#[derive(Clone, Copy, Debug, PartialEq, Eq, Structural, Hash)]
pub struct Unsupported;

} // verus!
