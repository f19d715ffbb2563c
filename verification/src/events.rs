//! The event vocabulary the loop reacts to, and the actions it decides on.
//! The embedder translates its window library's events into [`AppEvent`]s,
//! feeds them to the dispatcher, and performs the returned [`Action`].

use vstd::prelude::*;

verus! {

/// The key of a key-press event, as far as this renderer distinguishes keys.
#[derive(Clone, Copy, Debug, PartialEq, Eq, Structural)]
pub enum KeyCode {
    /// The designated exit key.
    Escape,
    /// Any other key, or a press with no recognised key code.
    Other,
}

/// One event from the window/event source, reduced to the narrow vocabulary
/// the loop depends on.
#[derive(Clone, Copy, Debug, PartialEq, Eq, Structural)]
pub enum AppEvent {
    /// The window asks to be redrawn.
    RedrawRequested,
    /// All pending events of this cycle have been processed.
    MainEventsCleared,
    /// The window was resized to the given pixel size.
    WindowResized { width: u32, height: u32 },
    /// The scale factor changed; the new pixel size is given.
    ScaleFactorChanged { width: u32, height: u32 },
    /// The user asked to close the window.
    CloseRequested,
    /// A keyboard event: whether the key went down, which key, and whether
    /// any modifier was active.
    KeyboardInput { pressed: bool, key: KeyCode, modifiers_active: bool },
    /// Any other window event; forwarded to the input hook only.
    Other,
}

/// What the embedder must do after dispatching one event or one render
/// outcome. Exactly one action comes back per call.
#[derive(Clone, Copy, Debug, PartialEq, Eq, Structural)]
pub enum Action {
    /// Run one frame: acquire a texture, execute the frame plan, present,
    /// and report the outcome back to the dispatcher.
    RenderFrame,
    /// Ask the window for another redraw, keeping the loop rendering.
    RequestRedraw,
    /// Reapply the current configuration to the presentation surface.
    Reconfigure,
    /// Terminate the loop and the process.
    Exit,
    /// Nothing to do for this event.
    Continue,
}

} // verus!
