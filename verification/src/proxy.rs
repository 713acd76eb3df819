//! The cross-thread wake-up proxy and the shared slot it reads.
//!
//! A proxy can ask the event loop to wake up from any thread, even
//! after the window is gone.  The window records the resources a
//! wake-up needs in a slot that teardown clears exactly once; a proxy
//! that finds the slot empty does nothing.  In a deployment the slot
//! lives behind a shared reference-counted mutex so that every clone of
//! the proxy observes the one clearing; the model here is the slot's
//! value and the decision taken on it.

use vstd::prelude::*;

verus! {

/// What a wake-up needs: the connection's display handle and the native
/// window handle, recorded when the window is created.
#[derive(Clone, Copy, Debug, PartialEq, Eq, Structural)]
pub struct WindowProxyData {
    pub display: u64,
    pub window: u64,
}

/// The shared slot.  It is populated exactly once, at window creation,
/// and cleared exactly once, at teardown; no operation ever repopulates
/// it.
#[derive(Clone, Copy, Debug, PartialEq, Eq, Structural)]
pub struct ProxySlot {
    pub data: Option<WindowProxyData>,
}

/// The client message a wake-up sends: a zero-payload message to the
/// recorded window on the recorded display, followed by a flush.  Its
/// classification in the pump is `Awakened`.
#[derive(Clone, Copy, Debug, PartialEq, Eq, Structural)]
pub struct WakeRequest {
    pub display: u64,
    pub window: u64,
}

/// The wake-up decision: a send to the recorded window while the slot
/// is populated, a no-op once it has been cleared.
pub open spec fn wakeup_spec(slot: ProxySlot) -> Option<WakeRequest> {
    match slot.data {
        Option::Some(d) => Some(WakeRequest { display: d.display, window: d.window }),
        Option::None => None,
    }
}

/// A cloneable handle that can wake the event loop up from another
/// thread, decoupled from the window's own lifetime.
#[derive(Clone, Copy, Debug)]
pub struct WindowProxy {
}

impl WindowProxy {
    /// Ask the event loop to wake up: read the shared slot, and if it
    /// is still populated, produce the client message to send; once
    /// teardown has cleared the slot, do nothing.
    pub fn wakeup_event_loop(&self, slot: &ProxySlot) -> (r: Option<WakeRequest>)
        ensures
            r == wakeup_spec(*slot),
            slot.data is None ==> r is None,
            slot.data is Some ==> (r is Some && r->0.window == slot.data->0.window
                && r->0.display == slot.data->0.display),
    {
        match slot.data {
            Option::Some(d) => Some(WakeRequest { display: d.display, window: d.window }),
            Option::None => None,
        }
    }
}

/// A proxy cloned before teardown is a permanent no-op afterwards:
/// teardown leaves the slot empty, nothing repopulates it, and on an
/// empty slot the wake-up decision is to do nothing.
pub proof fn lemma_wakeup_noop_after_teardown(slot: ProxySlot)
    requires
        slot.data is None,
    ensures
        wakeup_spec(slot) is None,
{
}

} // verus!
