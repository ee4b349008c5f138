//! A platform-neutral model of an application, its windows and its event
//! loop: the handles that any thread may hold, the mailbox through which they
//! reach the main loop, and the state that each backend keeps on the main
//! thread.
//!
//! The library takes every decision and makes no native call. A backend's
//! glue asks the native layer, hands the answer in, and performs what comes
//! back.

pub mod application;
pub mod common;
pub mod macos;
pub mod messaging;
pub mod platform_traits;
pub mod web;
pub mod window_builder;

pub use application::{initialize, Application, EventLoop};
pub use common::{ApplicationMessage, Cursor, RawWindowHandle, Unsupported, WindowId};
pub use messaging::{PlatformChannel, PlatformChannelTrait, PlatformWaker, PlatformWakerTrait};
pub use platform_traits::PlatformApplicationTrait;
pub use window_builder::{WindowBuilder, WindowParameters};
