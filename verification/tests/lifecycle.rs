use patchbukkit::java::commands::{java_callback_from_name, JavaCallback, SimpleCommandSender};
use patchbukkit::java::event_manager::EventManager;
use patchbukkit::java::lifecycle::{
    failure_message, CommandFailure, LifecycleAction, LifecycleCommand, LifecycleDriver,
};
use patchbukkit::plugin::event_manager::EventManager as PluginEventManager;

#[test]
fn load_sends_three_commands_in_order() {
    let mut d = LifecycleDriver::for_load(0);
    assert_eq!(d.start(), LifecycleAction::Send(LifecycleCommand::Initialize));
    assert_eq!(d.step(Ok(())), LifecycleAction::Send(LifecycleCommand::InstantiateAllPlugins));
    assert_eq!(d.step(Ok(())), LifecycleAction::Send(LifecycleCommand::EnableAllPlugins));
    assert_eq!(d.step(Ok(())), LifecycleAction::Done);
}

#[test]
fn load_reads_every_jar_first_and_goes_on_after_a_failed_one() {
    let mut d = LifecycleDriver::for_load(2);
    assert_eq!(d.start(), LifecycleAction::LoadPlugin(0));
    assert_eq!(
        d.step(Err(CommandFailure::Send("closed".to_string()))),
        LifecycleAction::LoadPlugin(1)
    );
    assert_eq!(d.step(Ok(())), LifecycleAction::Send(LifecycleCommand::Initialize));
    assert_eq!(
        d.step(Err(CommandFailure::Failed("no jvm".to_string()))),
        LifecycleAction::Abort("Failed to initialize all plugins: no jvm".to_string())
    );
    assert_eq!(d.start(), LifecycleAction::Done);
}

#[test]
fn unload_stops_at_the_first_failure() {
    let mut d = LifecycleDriver::for_unload();
    assert_eq!(d.start(), LifecycleAction::Send(LifecycleCommand::DisableAllPlugins));
    assert_eq!(
        d.step(Err(CommandFailure::Failed("boom".to_string()))),
        LifecycleAction::Abort("Failed to disable all plugins: boom".to_string())
    );
    assert_eq!(d.start(), LifecycleAction::Done);
}

#[test]
fn failure_messages() {
    assert_eq!(
        failure_message(LifecycleCommand::Initialize, &CommandFailure::Send("closed".to_string())),
        "Failed to send command to initialize J4RS: closed"
    );
    assert_eq!(
        failure_message(
            LifecycleCommand::Initialize,
            &CommandFailure::Receive("dropped".to_string())
        ),
        "Unable to receive response from J4RS initialization: dropped"
    );
    assert_eq!(
        failure_message(LifecycleCommand::Initialize, &CommandFailure::Failed("x".to_string())),
        "Failed to initialize all plugins: x"
    );
    assert_eq!(
        failure_message(
            LifecycleCommand::InstantiateAllPlugins,
            &CommandFailure::Failed("x".to_string())
        ),
        "Failed to instantiate all plugins: x"
    );
    assert_eq!(
        failure_message(LifecycleCommand::EnableAllPlugins, &CommandFailure::Send("y".to_string())),
        "Failed to send command to enable all plugins: y"
    );
    assert_eq!(
        failure_message(LifecycleCommand::Shutdown, &CommandFailure::Receive("z".to_string())),
        "Unable to receive response from shutdown: z"
    );
    assert_eq!(
        failure_message(LifecycleCommand::Shutdown, &CommandFailure::Failed("z".to_string())),
        "Failed to shutdown: z"
    );
}

#[test]
fn java_callbacks_and_event_manager() {
    assert_eq!(java_callback_from_name("REGISTER_EVENT_CALLBACK"), Some(JavaCallback::RegisterEvent));
    assert_eq!(java_callback_from_name("register_event_callback"), None);
    let em = EventManager::new();
    assert!(em.registers_player_first(true, true));
    assert!(!em.registers_player_first(true, false));
    assert!(!em.registers_player_first(false, true));
    assert!(em.grants_operator(4, 4));
    assert!(em.grants_operator(4, 2));
    assert!(!em.grants_operator(1, 4));
    let _ = EventManager::default();
    let _ = PluginEventManager::new();
    let sender = SimpleCommandSender::Player("0f7c6a0e-0000-0000-0000-000000000001".to_string());
    assert_eq!(sender.clone(), sender);
    assert_ne!(SimpleCommandSender::Console, sender);
}
