//! A verified model of an X11-style window engine: window lifecycle,
//! fullscreen mode selection, the cursor state machine, cross-thread
//! wake-up proxies, and the event pump that turns the display server's
//! raw event stream into an ordered sequence of application events.
//!
//! The display server itself is an external collaborator.  Everything the
//! engine reads from it (screen numbers, mode lines, atoms, raw events,
//! grab verdicts) enters through plain data types, so every decision the
//! engine makes is stated in a contract and proved.  A deployment wires
//! these decisions to the native protocol calls.

pub mod cursor;
pub mod events;
pub mod modes;
pub mod proxy;
pub mod pump;
pub mod window;
