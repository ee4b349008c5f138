//! What every backend offers to the platform-neutral layer.

use crate::common::ApplicationMessage;
use crate::messaging::{PlatformChannel, PlatformChannelTrait, PlatformWaker, PlatformWakerTrait};
use vstd::prelude::*;

verus! {

/// A backend's application: made once, together with the channel that
/// reaches it, and the source of wakers for its loop.
pub trait PlatformApplicationTrait: Sized {
    /// The application is as the backend makes it: nothing was asked of it.
    spec fn is_new(&self) -> bool;

    fn new() -> (made: (PlatformChannel, Self))
        ensures
            made.0.outgoing() == Seq::<ApplicationMessage>::empty(),
            made.1.is_new(),
    ;

    fn get_waker(&self) -> (waker: PlatformWaker)
        ensures
            !waker.wake_requested(),
            !waker.flush_requested(),
    ;
}

} // verus!
