//! The cooperative backend: the host owns the loop and calls in once per
//! frame. The application keeps the cursor that was set last and answers
//! with the value that the document's cursor style is to take.

use crate::common::{Cursor, RawWindowHandle, Unsupported, WindowId};
use crate::messaging::{PlatformChannel, PlatformWaker};
use crate::platform_traits::PlatformApplicationTrait;
use vstd::prelude::*;

verus! {

/// The style value that shows `cursor`.
pub open spec fn cursor_style(cursor: Cursor) -> Seq<char> {
    match cursor {
        Cursor::Arrow => "default"@,
        Cursor::IBeam => "text"@,
        Cursor::PointingHand => "pointer"@,
        Cursor::OpenHand => "grab"@,
        Cursor::ClosedHand => "grabbing"@,
    }
}

/// The style value that shows the cursor set last: the host's own choice
/// where none was ever set.
pub open spec fn shown_style(current: Option<Cursor>) -> Seq<char> {
    match current {
        Some(cursor) => cursor_style(cursor),
        None => "auto"@,
    }
}

/// The style value that shows `cursor`.
pub fn cursor_name(cursor: Cursor) -> (name: &'static str)
    ensures
        name@ == cursor_style(cursor),
{
    match cursor {
        Cursor::Arrow => "default",
        Cursor::IBeam => "text",
        Cursor::PointingHand => "pointer",
        Cursor::OpenHand => "grab",
        Cursor::ClosedHand => "grabbing",
    }
}

/// The loop of the host: nothing is kept for it.
#[derive(Clone, Copy, Debug, PartialEq, Eq, Structural)]
pub struct PlatformEventLoop {}

/// The application inside a host document.
#[derive(Clone, Copy, Debug, PartialEq, Eq, Structural)]
pub struct PlatformApplication {
    current_cursor: Option<Cursor>,
}

impl PlatformApplicationTrait for PlatformApplication {
    open spec fn is_new(&self) -> bool {
        self.current_cursor() == None::<Cursor>
    }

    fn new() -> (made: (PlatformChannel, Self)) {
        (PlatformChannel::new(), PlatformApplication { current_cursor: None })
    }

    fn get_waker(&self) -> (waker: PlatformWaker) {
        PlatformWaker::new()
    }
}

impl PlatformApplication {
    /// The cursor set last, if one was ever set.
    pub closed spec fn current_cursor(&self) -> Option<Cursor> {
        self.current_cursor
    }

    pub fn event_loop(&mut self) -> (event_loop: PlatformEventLoop)
        ensures
            *final(self) == *old(self),
    {
        PlatformEventLoop {  }
    }

    /// Remembers `cursor` and returns the style value that shows it. A
    /// hidden cursor becomes visible by this.
    pub fn set_cursor(&mut self, cursor: Cursor) -> (style: &'static str)
        ensures
            final(self).current_cursor() == Some(cursor),
            style@ == cursor_style(cursor),
    {
        self.current_cursor = Some(cursor);
        cursor_name(cursor)
    }

    /// Returns the style value that hides the cursor. The cursor set last is
    /// kept, however often this is called.
    pub fn hide_cursor(&mut self) -> (style: &'static str)
        ensures
            *final(self) == *old(self),
            style@ == "none"@,
    {
        "none"
    }

    /// Returns the style value that shows the cursor set last, or the host's
    /// own choice if none was ever set.
    pub fn show_cursor(&mut self) -> (style: &'static str)
        ensures
            *final(self) == *old(self),
            style@ == shown_style(old(self).current_cursor()),
    {
        match self.current_cursor {
            Some(cursor) => cursor_name(cursor),
            None => "auto",
        }
    }

    /// The one window of a document: the host made it, so nothing is built
    /// and its identity is the null address.
    pub fn new_window(&mut self) -> (window_id: WindowId)
        ensures
            *final(self) == *old(self),
            window_id.address() == 0,
    {
        WindowId::new(0)
    }

    /// The handle of the document's canvas, which carries no number.
    pub fn raw_window_handle(&self, window_id: WindowId) -> (handle: RawWindowHandle)
        ensures
            handle == (RawWindowHandle::Web { id: 0 }),
    {
        RawWindowHandle::Web { id: 0 }
    }

    /// Does nothing: the host places the document's window.
    pub fn set_window_position(&mut self, window_id: WindowId, x: u32, y: u32)
        ensures
            *final(self) == *old(self),
    {
    }

    /// Does nothing: the host sizes the document's window.
    pub fn set_window_size(&mut self, window_id: WindowId, width: u32, height: u32)
        ensures
            *final(self) == *old(self),
    {
    }

    /// Does nothing: the document keeps its own title.
    pub fn set_window_title(&mut self, window_id: WindowId, title: &str)
        ensures
            *final(self) == *old(self),
    {
    }

    /// Does nothing: a document has no minimized state.
    pub fn minimize_window(&mut self, window_id: WindowId)
        ensures
            *final(self) == *old(self),
    {
    }

    /// Does nothing: a document has no maximized state.
    pub fn maximize_window(&mut self, window_id: WindowId)
        ensures
            *final(self) == *old(self),
    {
    }

    /// Does nothing: only the host closes the document.
    pub fn close_window(&mut self, window_id: WindowId)
        ensures
            *final(self) == *old(self),
    {
    }

    /// Always refused: a document cannot restore its window.
    pub fn restore_window(&mut self, window_id: WindowId) -> (outcome: Result<(), Unsupported>)
        ensures
            outcome is Err,
            *final(self) == *old(self),
    {
        Err(Unsupported)
    }
}

} // verus!
