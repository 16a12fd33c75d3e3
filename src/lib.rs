//! The logic of a small X11 client that opens one override-redirect window,
//! grabs keyboard and pointer, and reports input events until the primary
//! button is pressed.
//!
//! The library plans the protocol requests of the window's lifecycle and
//! decides, for each received event, what is reported and whether the event
//! loop ends. Talking to the display server is left to the caller.

pub mod event;
pub mod text;
pub mod window;

pub use event::{dispatch, dispatch_with_modifiers, Event, Step};
pub use text::{push_decimal, push_signed};
pub use window::{
    EventInterest, GrabMode, GrabState, Request, ResourceIds, Screen, Window, WindowConfig,
};
