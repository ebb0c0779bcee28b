//! The handle through which Bukkit events are called on the JVM side.
use vstd::prelude::*;

verus! {

/// Calls Bukkit events through the server's plugin manager. It holds no state
/// of its own; the JVM holds the listeners.
pub struct EventManager {}

impl EventManager {
    pub fn new() -> (r: Self) {
        EventManager {}
    }
}

} // verus!
