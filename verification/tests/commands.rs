use patchbukkit::java::commands::{
    command_permission, java_callback_from_name, tab_complete_query, JavaCallback,
};
use patchbukkit::java::event_manager::EventManager;

#[test]
fn command_permission_is_namespaced() {
    assert_eq!(command_permission("home"), "patchbukkit:home");
    assert_eq!(command_permission(""), "patchbukkit:");
}

#[test]
fn tab_complete_query_ends_with_a_space() {
    assert_eq!(tab_complete_query("warp"), "warp ");
}

#[test]
fn known_and_unknown_callbacks() {
    assert_eq!(
        java_callback_from_name("REGISTER_EVENT_CALLBACK"),
        Some(JavaCallback::RegisterEvent)
    );
    assert_eq!(java_callback_from_name("register_event_callback"), None);
    assert_eq!(java_callback_from_name(""), None);
}

#[test]
fn operators_are_granted_at_the_op_level() {
    let events = EventManager::new();
    assert!(events.grants_operator(4, 4));
    assert!(events.grants_operator(4, 2));
    assert!(!events.grants_operator(1, 2));
}

#[test]
fn a_joining_player_is_registered_first() {
    let events = EventManager::new();
    assert!(events.registers_player_first(true, true));
    assert!(!events.registers_player_first(true, false));
    assert!(!events.registers_player_first(false, true));
}
