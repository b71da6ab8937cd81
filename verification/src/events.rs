//! Plain-value model of the platform events and renderer interface that the
//! application loop works with.

use vstd::prelude::*;

verus! {

/// Width and height of a window's drawable area, in physical pixels.
/// A zero width or height is a legal value (a minimized window).
#[derive(Clone, Copy, Debug, PartialEq, Eq, Structural)]
pub struct Size {
    pub width: u32,
    pub height: u32,
}

/// Whether a key went down or came back up.
#[derive(Clone, Copy, Debug, PartialEq, Eq, Structural)]
pub enum KeyState {
    Pressed,
    Released,
}

/// The key a keyboard event reports. Only Escape is meaningful to the loop;
/// every other identified key carries its platform scancode.
#[derive(Clone, Copy, Debug, PartialEq, Eq, Structural)]
pub enum Key {
    Escape,
    Other(u32),
    Unidentified,
}

/// The payload of a window-scoped event, as far as the loop reads it.
#[derive(Clone, Copy, Debug, PartialEq, Eq, Structural)]
pub enum WindowPayload {
    CloseRequested,
    KeyboardInput { state: KeyState, key: Key },
    Resized(Size),
    ScaleFactorChanged(Size),
    Other,
}

/// One event pulled from the platform's event source.
#[derive(Clone, Copy, Debug, PartialEq, Eq, Structural)]
pub enum Event {
    /// A window-scoped event, tagged with the identity of the window it is for.
    Window { id: u64, payload: WindowPayload },
    /// The platform asks for a frame to be drawn.
    RedrawRequested,
    /// The pump has drained all pending events and is about to go idle.
    MainEventsCleared,
    /// Any event kind the loop does not react to.
    Other,
}

/// What the renderer's `render` call reported for one frame.
#[derive(Clone, Copy, Debug, PartialEq, Eq, Structural)]
pub enum RenderOutcome {
    /// The frame was produced.
    Presented,
    /// The presentation surface was lost; reconfiguring it recovers.
    SurfaceLost,
    /// The device is out of memory; no recovery is possible.
    OutOfMemory,
    /// Any other failure; the frame is dropped and the loop goes on.
    OtherError,
}

/// What the renderer reported back while one event was handled: whether it
/// claimed the input event, what `render` returned, and the size it currently
/// has configured. The renderer is opaque, so the loop treats these as free
/// inputs and its behaviour is fixed for every possible combination.
#[derive(Clone, Copy, Debug, PartialEq, Eq, Structural)]
pub struct RendererReplies {
    pub claimed: bool,
    pub render: RenderOutcome,
    pub current_size: Size,
}

/// One call the loop makes into the renderer, in the order made.
#[derive(Clone, Copy, Debug, PartialEq, Eq, Structural)]
pub enum RendererCall {
    /// `input(payload)`: the event is offered to the renderer first.
    Input(WindowPayload),
    /// `resize(size)`: the presentation surface is reconfigured.
    Resize(Size),
    /// `update()`: the simulation advances one tick.
    Update,
    /// `render()`: a frame is produced.
    Render,
}

} // verus!
