//! The portable event type that the pump hands to the consuming
//! application, after classifying and translating the server's raw
//! event stream.

use vstd::prelude::*;

verus! {

/// One high-level application event.
///
/// `Closed`, `Awakened`, `Resized` and `Refresh` are produced by the
/// pump's own classification; the input variants are produced by the
/// input translator from raw key and pointer records.
#[derive(Clone, Copy, Debug, PartialEq, Eq, Structural)]
pub enum Event {
    /// The server delivered the registered delete-window request.
    Closed,
    /// A client message that is not a delete-window request, such as a
    /// proxy-triggered wake-up.
    Awakened,
    /// The window's size changed to the given width and height.
    Resized(u32, u32),
    /// The window was exposed and needs to be redrawn.
    Refresh,
    /// A semantic key event: pressed flag and scancode.
    KeyboardInput(bool, u32),
    /// The pointer moved to the given window coordinates.
    MouseMoved(i32, i32),
    /// A pointer button event: pressed flag and button number.
    MouseInput(bool, u8),
}

} // verus!
