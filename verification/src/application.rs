//! The handle that any thread may hold, and the handle on the loop that only
//! the main thread holds.

use crate::common::ApplicationMessage;
use crate::messaging::{
    PlatformChannel, PlatformChannelTrait, PlatformWaker, PlatformWakerTrait,
};
use crate::platform_traits::PlatformApplicationTrait;
use crate::window_builder::{WindowBuilder, WindowParametersView};
use vstd::prelude::*;

verus! {

/// A handle on the application. Its calls are collected by the channel and
/// the waker that it holds; the transport carries them to the main loop.
#[derive(Debug)]
pub struct Application {
    pub platform_channel: PlatformChannel,
    pub application_waker: PlatformWaker,
}

impl Clone for Application {
    /// Another handle on the same application, for another thread. It
    /// starts with nothing collected and nothing owed.
    fn clone(&self) -> (handle: Self)
        ensures
            handle.platform_channel.outgoing() == Seq::<ApplicationMessage>::empty(),
            !handle.application_waker.wake_requested(),
            !handle.application_waker.flush_requested(),
    {
        Application {
            platform_channel: self.platform_channel.clone(),
            application_waker: self.application_waker.clone(),
        }
    }
}

/// An application handle only accessible from the main thread. Running the
/// loop consumes it, so a loop runs at most once.
pub struct EventLoop<P: PlatformApplicationTrait> {
    pub platform_application: P,
}

/// Makes the backend's application once and splits it into the handle for
/// every thread and the handle on the loop.
pub fn initialize<P: PlatformApplicationTrait>() -> (made: (Application, EventLoop<P>))
    ensures
        made.0.platform_channel.outgoing() == Seq::<ApplicationMessage>::empty(),
        !made.0.application_waker.wake_requested(),
        !made.0.application_waker.flush_requested(),
        made.1.platform_application.is_new(),
{
    let (platform_channel, platform_application) = P::new();
    let application_waker = platform_application.get_waker();
    (Application { platform_channel, application_waker }, EventLoop { platform_application })
}

impl Application {
    /// Asks for one more frame and wakes the main loop for it.
    pub fn request_frame(&mut self)
        ensures
            final(self).platform_channel.outgoing() == old(self).platform_channel.outgoing().push(
                ApplicationMessage::RequestFrame,
            ),
            final(self).application_waker.wake_requested(),
            final(self).application_waker.flush_requested() == old(
                self,
            ).application_waker.flush_requested(),
    {
        self.platform_channel.send(ApplicationMessage::RequestFrame);
        self.application_waker.wake();
    }

    /// Asks for the end of the program. The main loop is not woken for it.
    pub fn quit(&mut self)
        ensures
            final(self).platform_channel.outgoing() == old(self).platform_channel.outgoing().push(
                ApplicationMessage::Quit,
            ),
            final(self).application_waker == old(self).application_waker,
    {
        self.platform_channel.send(ApplicationMessage::Quit);
    }

    /// Asks for the pointer to be moved. The main loop is not woken for it.
    pub fn set_mouse_position(&mut self, x: u32, y: u32)
        ensures
            final(self).platform_channel.outgoing() == old(self).platform_channel.outgoing().push(
                ApplicationMessage::SetMousePosition { x, y },
            ),
            final(self).application_waker == old(self).application_waker,
    {
        self.platform_channel.send(ApplicationMessage::SetMousePosition { x, y });
    }

    /// Asks to wait until the application has processed all that was sent to
    /// it before. Nothing is sent by this.
    pub fn flush_application_events(&mut self)
        ensures
            final(self).application_waker.flush_requested(),
            final(self).application_waker.wake_requested() == old(
                self,
            ).application_waker.wake_requested(),
            final(self).platform_channel == old(self).platform_channel,
    {
        self.application_waker.flush();
    }

    /// Starts a window with the parameters that every window starts from.
    pub fn new_window(&mut self) -> (builder: WindowBuilder)
        ensures
            builder@ == WindowParametersView::initial(),
            *final(self) == *old(self),
    {
        WindowBuilder::new()
    }
}

} // verus!
