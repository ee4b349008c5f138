//! The desktop backend: the record that the main thread keeps beside the
//! native run loop, and the decisions taken before each native call.
//!
//! Nothing here touches a native object. Each operation takes what the native
//! layer reported, updates the record, and answers with the native call that
//! is owed.

use crate::common::{Cursor, RawWindowHandle, Unsupported, WindowId};
use crate::messaging::{PlatformChannel, PlatformWaker};
use crate::platform_traits::PlatformApplicationTrait;
use vstd::prelude::*;

verus! {

/// What the user sees of the pointer.
#[derive(Clone, Copy, Debug, PartialEq, Eq, Structural)]
pub enum CursorAppearance {
    Hidden,
    PlatformDefault,
    Shape(Cursor),
}

/// One request to repaint a window: the window, and whether the window was
/// in an interactive resize when the request was made.
pub ghost struct RedrawRequest {
    pub window_id: WindowId,
    pub in_live_resize: bool,
}

/// The mathematical content of the main thread's record.
pub ghost struct ApplicationState {
    /// The address of the native application object, 0 before it exists.
    pub ns_application: usize,
    /// The key modifiers that are held down, as the native layer flags them.
    pub modifier_flags: u64,
    /// The cursor set last, if one was ever set.
    pub cursor: Option<Cursor>,
    pub cursor_hidden: bool,
    /// The windows that await a repaint, in the order of their first request.
    pub requested_redraw: Seq<WindowId>,
    /// Set by `quit`: the program is meant to end.
    pub actually_terminate: bool,
}

impl ApplicationState {
    pub open spec fn initial() -> ApplicationState {
        ApplicationState {
            ns_application: 0,
            modifier_flags: 0,
            cursor: None,
            cursor_hidden: false,
            requested_redraw: Seq::empty(),
            actually_terminate: false,
        }
    }

    /// No window awaits more than one repaint.
    pub open spec fn well_formed(self) -> bool {
        self.requested_redraw.no_duplicates()
    }

    pub open spec fn redraw(self, window_id: WindowId, in_live_resize: bool) -> ApplicationState {
        if in_live_resize || self.requested_redraw.contains(window_id) {
            self
        } else {
            ApplicationState { requested_redraw: self.requested_redraw.push(window_id), ..self }
        }
    }

    /// The record after all of `requests`, the first of them first.
    pub open spec fn redraw_all(self, requests: Seq<RedrawRequest>) -> ApplicationState
        decreases requests.len(),
    {
        if requests.len() == 0 {
            self
        } else {
            self.redraw_all(requests.drop_last()).redraw(
                requests.last().window_id,
                requests.last().in_live_resize,
            )
        }
    }

    /// How many repaints of `window_id` the next drain asks of the native
    /// layer.
    pub open spec fn repaints_owed(self, window_id: WindowId) -> nat {
        self.requested_redraw.to_multiset().count(window_id)
    }

    pub open spec fn drained(self) -> ApplicationState {
        ApplicationState { requested_redraw: Seq::empty(), ..self }
    }

    pub open spec fn with_cursor(self, cursor: Cursor) -> ApplicationState {
        ApplicationState { cursor: Some(cursor), ..self }
    }

    pub open spec fn after_hide(self) -> ApplicationState {
        ApplicationState { cursor_hidden: true, ..self }
    }

    pub open spec fn after_show(self) -> ApplicationState {
        ApplicationState { cursor_hidden: false, ..self }
    }

    /// The record after `count` calls of `hide_cursor`.
    pub open spec fn hide_times(self, count: nat) -> ApplicationState
        decreases count,
    {
        if count == 0 {
            self
        } else {
            self.hide_times((count - 1) as nat).after_hide()
        }
    }

    /// How many of `count` calls of `hide_cursor` reach the native layer.
    pub open spec fn native_hides(self, count: nat) -> nat
        decreases count,
    {
        if count == 0 {
            0
        } else {
            let earlier = self.native_hides((count - 1) as nat);
            if self.hide_times((count - 1) as nat).cursor_hidden {
                earlier
            } else {
                earlier + 1
            }
        }
    }

    pub open spec fn appearance(self) -> CursorAppearance {
        if self.cursor_hidden {
            CursorAppearance::Hidden
        } else {
            match self.cursor {
                Some(cursor) => CursorAppearance::Shape(cursor),
                None => CursorAppearance::PlatformDefault,
            }
        }
    }

    /// The record once the end of the program was asked for.
    pub open spec fn terminating(self) -> ApplicationState {
        ApplicationState { actually_terminate: true, ..self }
    }

    /// Presence, not count: a window that awaits a repaint is owed exactly
    /// one, and any other window none.
    pub proof fn repaints_owed_is_presence(self, window_id: WindowId)
        requires
            self.well_formed(),
        ensures
            self.repaints_owed(window_id) == (if self.requested_redraw.contains(window_id) {
                1nat
            } else {
                0nat
            }),
    {
        self.requested_redraw.to_multiset_ensures();
        self.requested_redraw.lemma_multiset_has_no_duplicates();
    }

    /// One request outside an interactive resize makes the window await
    /// exactly one repaint; one inside changes nothing.
    pub proof fn redraw_keeps_one_entry(self, window_id: WindowId, in_live_resize: bool)
        requires
            self.well_formed(),
        ensures
            self.redraw(window_id, in_live_resize).well_formed(),
            in_live_resize ==> self.redraw(window_id, in_live_resize) == self,
            !in_live_resize ==> self.redraw(window_id, in_live_resize).requested_redraw.contains(
                window_id,
            ),
            forall|other: WindowId|
                other != window_id ==> (#[trigger] self.redraw(
                    window_id,
                    in_live_resize,
                ).requested_redraw.contains(other) <==> self.requested_redraw.contains(other)),
    {
        let after = self.redraw(window_id, in_live_resize);
        if !in_live_resize && !self.requested_redraw.contains(window_id) {
            let old_len = self.requested_redraw.len() as int;
            assert(after.requested_redraw[old_len] == window_id);
            assert forall|other: WindowId| other != window_id implies (
            #[trigger] after.requested_redraw.contains(other) <==> self.requested_redraw.contains(
                other,
            )) by {
                if self.requested_redraw.contains(other) {
                    let i = choose|i: int|
                        0 <= i < self.requested_redraw.len() && self.requested_redraw[i] == other;
                    assert(after.requested_redraw[i] == other);
                }
            }
        }
    }

    /// Redraw coalescing: however many requests arrive between two drains, in
    /// whatever order and for whatever windows, each window awaits at most
    /// one repaint, and a window awaits one exactly if it did before or some
    /// request for it was made outside an interactive resize.
    pub proof fn redraw_requests_coalesce(self, requests: Seq<RedrawRequest>)
        requires
            self.well_formed(),
        ensures
            self.redraw_all(requests).well_formed(),
            forall|window_id: WindowId| #[trigger]
                self.redraw_all(requests).requested_redraw.contains(window_id) <==> (
                self.requested_redraw.contains(window_id) || requests.contains(
                    RedrawRequest { window_id, in_live_resize: false },
                )),
        decreases requests.len(),
    {
        if requests.len() > 0 {
            let earlier = requests.drop_last();
            let last = requests.last();
            let before = self.redraw_all(earlier);
            let after = self.redraw_all(requests);
            self.redraw_requests_coalesce(earlier);
            before.redraw_keeps_one_entry(last.window_id, last.in_live_resize);
            assert forall|window_id: WindowId| #[trigger]
                after.requested_redraw.contains(window_id) <==> (self.requested_redraw.contains(
                window_id,
            ) || requests.contains(RedrawRequest { window_id, in_live_resize: false })) by {
                let wanted = RedrawRequest { window_id, in_live_resize: false };
                if earlier.contains(wanted) {
                    let i = choose|i: int| 0 <= i < earlier.len() && earlier[i] == wanted;
                    assert(requests[i] == wanted);
                }
                if requests.contains(wanted) && !earlier.contains(wanted) {
                    let i = choose|i: int| 0 <= i < requests.len() && requests[i] == wanted;
                    if i < earlier.len() {
                        assert(earlier[i] == wanted);
                    }
                    assert(last == wanted);
                }
                if last == wanted {
                    assert(requests[requests.len() - 1] == wanted);
                }
                if after.requested_redraw.contains(window_id) && window_id != last.window_id {
                    assert(before.requested_redraw.contains(window_id));
                }
            }
        }
    }

    /// Any number of requests for one window outside an interactive resize
    /// leave it with exactly one pending repaint, which the next drain hands
    /// out once; requests made during an interactive resize add none.
    pub proof fn repeated_redraw_is_one_repaint(
        self,
        window_id: WindowId,
        count: nat,
        in_live_resize: bool,
    )
        requires
            self.well_formed(),
            count >= 1,
        ensures
            ({
                let requests = Seq::new(count, |i: int| RedrawRequest { window_id, in_live_resize });
                let after = self.redraw_all(requests);
                &&& after.well_formed()
                &&& after == self.redraw(window_id, in_live_resize)
                &&& in_live_resize ==> after == self
                &&& !in_live_resize ==> after.requested_redraw.contains(window_id)
                &&& !in_live_resize ==> after.repaints_owed(window_id) == 1
                &&& after.drained().repaints_owed(window_id) == 0
            }),
        decreases count,
    {
        self.redraw(window_id, in_live_resize).repaints_owed_is_presence(window_id);
        self.drained().repaints_owed_is_presence(window_id);
        let requests = Seq::new(count, |i: int| RedrawRequest { window_id, in_live_resize });
        let earlier = Seq::new((count - 1) as nat, |i: int| RedrawRequest { window_id, in_live_resize });
        assert(requests.drop_last() =~= earlier);
        assert(requests.last() == RedrawRequest { window_id, in_live_resize });
        self.redraw_keeps_one_entry(window_id, in_live_resize);
        if count == 1 {
            assert(self.redraw_all(earlier) == self);
        } else {
            self.repeated_redraw_is_one_repaint(window_id, (count - 1) as nat, in_live_resize);
        }
    }

    /// Hiding is guarded by a flag, not counted: of any number of calls of
    /// `hide_cursor` at most one reaches the native layer, and exactly one
    /// does if the cursor was visible and at least one call was made. One
    /// `show_cursor` afterwards brings back the cursor that was set last, or
    /// the platform's default if none was.
    pub proof fn hide_and_show_are_balanced(self, count: nat)
        ensures
            self.hide_times(count).cursor == self.cursor,
            self.hide_times(count).cursor_hidden == (self.cursor_hidden || count > 0),
            self.native_hides(count) == (if self.cursor_hidden || count == 0 {
                0nat
            } else {
                1nat
            }),
            self.hide_times(count).after_show().appearance() == (match self.cursor {
                Some(cursor) => CursorAppearance::Shape(cursor),
                None => CursorAppearance::PlatformDefault,
            }),
            self.hide_times(count).after_show() == self.after_show(),
        decreases count,
    {
        if count > 0 {
            self.hide_and_show_are_balanced((count - 1) as nat);
        }
    }

    /// A cursor that was set is the one that shows again: after `set_cursor`,
    /// any number of calls of `hide_cursor` and one `show_cursor`, the user
    /// sees that cursor.
    pub proof fn show_restores_the_cursor_set(self, cursor: Cursor, count: nat)
        ensures
            self.with_cursor(cursor).hide_times(count).after_show().appearance()
                == CursorAppearance::Shape(cursor),
    {
        self.with_cursor(cursor).hide_and_show_are_balanced(count);
    }
}

/// The record shared by the application and all of its windows. Only the
/// main thread holds it.
pub struct ApplicationData {
    ns_application: usize,
    modifier_flags: u64,
    cursor: Option<Cursor>,
    cursor_hidden: bool,
    requested_redraw: Vec<WindowId>,
    actually_terminate: bool,
}

impl View for ApplicationData {
    type V = ApplicationState;

    closed spec fn view(&self) -> ApplicationState {
        ApplicationState {
            ns_application: self.ns_application,
            modifier_flags: self.modifier_flags,
            cursor: self.cursor,
            cursor_hidden: self.cursor_hidden,
            requested_redraw: self.requested_redraw@,
            actually_terminate: self.actually_terminate,
        }
    }
}

impl ApplicationData {
    #[verifier::type_invariant]
    spec fn no_window_waits_twice(self) -> bool {
        self.requested_redraw@.no_duplicates()
    }

    pub fn new() -> (data: Self)
        ensures
            data@ == ApplicationState::initial(),
            data@.well_formed(),
    {
        ApplicationData {
            ns_application: 0,
            modifier_flags: 0,
            cursor: None,
            cursor_hidden: false,
            requested_redraw: Vec::new(),
            actually_terminate: false,
        }
    }

    pub fn modifier_flags(&self) -> (flags: u64)
        ensures
            flags == self@.modifier_flags,
    {
        self.modifier_flags
    }

    pub fn set_modifier_flags(&mut self, flags: u64)
        ensures
            final(self)@ == (ApplicationState { modifier_flags: flags, ..old(self)@ }),
            final(self)@.well_formed(),
    {
        proof {
            use_type_invariant(&*self);
        }
        self.modifier_flags = flags;
    }

    pub fn actually_terminate(&self) -> (terminate: bool)
        ensures
            terminate == self@.actually_terminate,
    {
        self.actually_terminate
    }

    /// The cursor set last, if one was ever set.
    pub fn cursor(&self) -> (cursor: Option<Cursor>)
        ensures
            cursor == self@.cursor,
    {
        self.cursor
    }

    pub fn cursor_hidden(&self) -> (hidden: bool)
        ensures
            hidden == self@.cursor_hidden,
    {
        self.cursor_hidden
    }

    /// Whether `window_id` awaits a repaint.
    pub fn is_redraw_requested(&self, window_id: WindowId) -> (found: bool)
        ensures
            found == self@.requested_redraw.contains(window_id),
    {
        let mut i: usize = 0;
        while i < self.requested_redraw.len()
            invariant
                i <= self.requested_redraw.len(),
                forall|j: int| 0 <= j < i ==> self.requested_redraw@[j] != window_id,
            decreases self.requested_redraw.len() - i,
        {
            if self.requested_redraw[i] == window_id {
                return true;
            }
            i += 1;
        }
        false
    }
}

/// Runs when the run loop is about to wait for the next event: hands out the
/// windows that await a repaint, each once, in the order of their first
/// request, and leaves none waiting.
pub fn control_flow_end_handler(application_data: &mut ApplicationData) -> (repaint: Vec<WindowId>)
    ensures
        repaint@ == old(application_data)@.requested_redraw,
        repaint@.no_duplicates(),
        final(application_data)@ == old(application_data)@.drained(),
        final(application_data)@.well_formed(),
{
    proof {
        use_type_invariant(&*application_data);
    }
    let mut repaint: Vec<WindowId> = Vec::new();
    core::mem::swap(&mut repaint, &mut application_data.requested_redraw);
    repaint
}

/// The handle on the native application that runs the loop.
#[derive(Clone, Copy, Debug, PartialEq, Eq, Structural)]
pub struct PlatformEventLoop {
    ns_application: usize,
}

impl PlatformEventLoop {
    /// The address of the native application object whose loop is to run.
    pub closed spec fn spec_ns_application(self) -> usize {
        self.ns_application
    }

    #[verifier::when_used_as_spec(spec_ns_application)]
    pub fn ns_application(self) -> (address: usize)
        ensures
            address == self.spec_ns_application(),
    {
        self.ns_application
    }
}

/// The desktop application: the addresses of the native objects that it
/// was given. The record of the main thread is kept apart from it and handed
/// to each operation, because the record may be gone while the application
/// is still held.
#[derive(Clone, Copy, Debug, PartialEq, Eq, Structural)]
pub struct PlatformApplication {
    window_class: usize,
    view_class: usize,
    ns_application: usize,
}

impl PlatformApplicationTrait for PlatformApplication {
    open spec fn is_new(&self) -> bool {
        &&& self.spec_ns_application() == 0
        &&& self.window_class() == 0
        &&& self.view_class() == 0
    }

    /// An application to which no native object is attached yet.
    fn new() -> (made: (PlatformChannel, Self)) {
        (
            PlatformChannel::new(),
            PlatformApplication { window_class: 0, view_class: 0, ns_application: 0 },
        )
    }

    fn get_waker(&self) -> (waker: PlatformWaker) {
        PlatformWaker::new()
    }
}

impl PlatformApplication {
    /// The address of the native application object, 0 before it is attached.
    pub closed spec fn spec_ns_application(&self) -> usize {
        self.ns_application
    }

    /// The address of the class of native windows, 0 before it is attached.
    pub closed spec fn window_class(&self) -> usize {
        self.window_class
    }

    /// The address of the class of native views, 0 before it is attached.
    pub closed spec fn view_class(&self) -> usize {
        self.view_class
    }

    /// Records the native objects once the native layer has made them, here
    /// and in the main thread's record.
    pub fn attach_native_objects(
        &mut self,
        application_data: &mut ApplicationData,
        ns_application: usize,
        window_class: usize,
        view_class: usize,
    )
        ensures
            final(self).spec_ns_application() == ns_application,
            final(self).window_class() == window_class,
            final(self).view_class() == view_class,
            final(application_data)@ == (ApplicationState {
                ns_application,
                ..old(application_data)@
            }),
            final(application_data)@.well_formed(),
    {
        proof {
            use_type_invariant(&*application_data);
        }
        self.ns_application = ns_application;
        self.window_class = window_class;
        self.view_class = view_class;
        application_data.ns_application = ns_application;
    }

    /// The classes from which the native layer builds a window and its view.
    pub fn native_classes(&self) -> (classes: (usize, usize))
        ensures
            classes.0 == self.window_class(),
            classes.1 == self.view_class(),
    {
        (self.window_class, self.view_class)
    }

    pub fn event_loop(&mut self) -> (event_loop: PlatformEventLoop)
        ensures
            event_loop.spec_ns_application() == old(self).spec_ns_application(),
            *final(self) == *old(self),
    {
        PlatformEventLoop { ns_application: self.ns_application }
    }

    /// Notes that `window_id` wants a repaint. `in_live_resize` is what the
    /// native window answered when asked whether the user is resizing it: the
    /// system repaints such a window anyway, so nothing is noted for it. A
    /// window that already awaits a repaint is not noted again.
    pub fn redraw_window(
        &mut self,
        application_data: &mut ApplicationData,
        window_id: WindowId,
        in_live_resize: bool,
    )
        ensures
            final(application_data)@ == old(application_data)@.redraw(window_id, in_live_resize),
            final(application_data)@.well_formed(),
            *final(self) == *old(self),
    {
        proof {
            use_type_invariant(&*application_data);
        }
        if !in_live_resize {
            let found = application_data.is_redraw_requested(window_id);
            if !found {
                proof {
                    application_data@.redraw_keeps_one_entry(window_id, in_live_resize);
                }
                let mut waiting: Vec<WindowId> = Vec::new();
                core::mem::swap(&mut waiting, &mut application_data.requested_redraw);
                waiting.push(window_id);
                application_data.requested_redraw = waiting;
            }
        }
    }

    /// Notes the cursor that the native layer is about to set.
    pub fn set_cursor(&mut self, application_data: &mut ApplicationData, cursor: Cursor)
        ensures
            final(application_data)@ == old(application_data)@.with_cursor(cursor),
            final(application_data)@.well_formed(),
            *final(self) == *old(self),
    {
        proof {
            use_type_invariant(&*application_data);
        }
        application_data.cursor = Some(cursor);
    }

    /// Hides the cursor. Returns whether the native hide is owed: it is only
    /// if the cursor was not hidden already, because the native hide and
    /// unhide must be balanced.
    pub fn hide_cursor(&mut self, application_data: &mut ApplicationData) -> (native_hide: bool)
        ensures
            native_hide == !old(application_data)@.cursor_hidden,
            final(application_data)@ == old(application_data)@.after_hide(),
            final(application_data)@.well_formed(),
            *final(self) == *old(self),
    {
        proof {
            use_type_invariant(&*application_data);
        }
        if !application_data.cursor_hidden {
            application_data.cursor_hidden = true;
            true
        } else {
            false
        }
    }

    /// Shows the cursor again. Returns whether the native unhide is owed: it
    /// is only if the cursor was hidden.
    pub fn show_cursor(&mut self, application_data: &mut ApplicationData) -> (native_unhide: bool)
        ensures
            native_unhide == old(application_data)@.cursor_hidden,
            final(application_data)@ == old(application_data)@.after_show(),
            final(application_data)@.well_formed(),
            *final(self) == *old(self),
    {
        proof {
            use_type_invariant(&*application_data);
        }
        if application_data.cursor_hidden {
            application_data.cursor_hidden = false;
            true
        } else {
            false
        }
    }

    /// Asks for the end of the program. `application_data` is the main
    /// thread's record if it can still be reached: while the process exits it
    /// cannot, and then nothing is done. Otherwise the record is marked and
    /// the address of the native application to terminate is returned.
    pub fn quit(&self, application_data: Option<&mut ApplicationData>) -> (terminate: Option<usize>)
        ensures
            match application_data {
                Some(record) => {
                    &&& terminate == Some(record@.ns_application)
                    &&& final(record)@ == record@.terminating()
                    &&& final(record)@.well_formed()
                },
                None => terminate is None,
            },
    {
        match application_data {
            Some(record) => {
                proof {
                    use_type_invariant(&*record);
                }
                record.actually_terminate = true;
                Some(record.ns_application)
            },
            None => None,
        }
    }

    /// The handle of `window_id` for a rendering library. `ns_view` is the
    /// address that the native window gave for its content view.
    pub fn raw_window_handle(&self, window_id: WindowId, ns_view: usize) -> (handle:
        RawWindowHandle)
        ensures
            handle == (RawWindowHandle::MacOS { ns_window: window_id.address(), ns_view }),
    {
        RawWindowHandle::MacOS { ns_window: window_id.raw(), ns_view }
    }

    /// The identity of the window that the native layer built, if it built
    /// one: a null address is a failure to build.
    pub fn new_window(&mut self, ns_window: usize) -> (window: Result<WindowId, ()>)
        ensures
            *final(self) == *old(self),
            ns_window == 0 <==> window is Err,
            window matches Ok(id) ==> id.address() == ns_window,
    {
        if ns_window == 0 {
            Err(())
        } else {
            Ok(WindowId::new(ns_window))
        }
    }

    /// Does nothing: this platform has no notion of a maximized window.
    pub fn maximize_window(&mut self, window_id: WindowId)
        ensures
            *final(self) == *old(self),
    {
    }

    /// Always refused: this backend cannot restore a window.
    pub fn restore_window(&mut self, window_id: WindowId) -> (outcome: Result<(), Unsupported>)
        ensures
            outcome is Err,
            *final(self) == *old(self),
    {
        Err(Unsupported)
    }

    /// Always refused: this backend cannot move the pointer.
    pub fn set_mouse_position(&mut self, x: u32, y: u32) -> (outcome: Result<(), Unsupported>)
        ensures
            outcome is Err,
            *final(self) == *old(self),
    {
        Err(Unsupported)
    }
}

} // verus!
