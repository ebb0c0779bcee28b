//! The event manager that fires Bukkit events on the JVM.
use vstd::prelude::*;

verus! {

/// Fires events on the JVM through the server's PatchBukkit event manager.
/// It holds no state of its own.
pub struct EventManager {}

impl Default for EventManager {
    fn default() -> (r: Self) {
        EventManager::new()
    }
}

impl EventManager {
    pub fn new() -> (r: Self) {
        EventManager {}
    }

    /// Whether the player of an event is registered with the Java server
    /// before the event is fired: for a join event that carries its player.
    pub fn registers_player_first(&self, is_player_join: bool, has_player: bool) -> (r: bool)
        ensures
            r == (is_player_join && has_player),
    {
        is_player_join && has_player
    }

    /// Whether a player registered with the Java server is made an operator:
    /// its permission level reaches the server's operator level.
    pub fn grants_operator(&self, permission_level: u8, op_permission_level: u8) -> (r: bool)
        ensures
            r == (permission_level >= op_permission_level),
    {
        permission_level >= op_permission_level
    }
}

} // verus!
