//! Control shell of an interactive graphical application.
//!
//! The crate models the event-driven render loop of a windowed program as an
//! explicit state machine over plain values: platform events come in, the
//! loop decides which calls the renderer receives (`input`, `update`,
//! `render`, `resize`), maintains the continue/exit control flow, and
//! recovers from transient surface failures. The platform window, the event
//! pump and the GPU renderer themselves are collaborators that a host binary
//! drives; everything the loop decides is verified here.

pub mod dispatch;
pub mod events;
pub mod registry;
