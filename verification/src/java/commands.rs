//! What the JVM worker is asked to do, and the answers it gives.
use vstd::prelude::*;
use vstd::string::*;

use crate::text::str_eq;

verus! {

/// Who sent a command: the console, or a player given by the text of its UUID.
#[derive(Debug, Clone, PartialEq, Eq)]
pub enum SimpleCommandSender {
    Console,
    Player(String),
}

/// A callback that Java code makes into the worker.
#[derive(Debug, Clone, Copy, PartialEq, Eq, Structural)]
pub enum JavaCallback {
    /// A plugin registered an event listener.
    RegisterEvent,
}

/// The callback that Java names `name`; `None` for a name the worker does not know.
pub open spec fn java_callback_spec(name: Seq<char>) -> Option<JavaCallback> {
    if name == "REGISTER_EVENT_CALLBACK"@ {
        Some(JavaCallback::RegisterEvent)
    } else {
        None
    }
}

/// The callback that Java names `name`, or `None` when the worker does not know it.
pub fn java_callback_from_name(name: &str) -> (r: Option<JavaCallback>)
    ensures
        r == java_callback_spec(name@),
{
    if str_eq(name, "REGISTER_EVENT_CALLBACK") {
        Some(JavaCallback::RegisterEvent)
    } else {
        None
    }
}

/// The permission node that guards a plugin command: `patchbukkit:<command>`.
pub fn command_permission(cmd_name: &str) -> (r: String)
    ensures
        r@ == "patchbukkit:"@ + cmd_name@,
{
    let mut r = String::from_str("patchbukkit:");
    r.append(cmd_name);
    r
}

/// The text whose tab completions are the first arguments of a command: the
/// command followed by a space.
pub fn tab_complete_query(cmd_name: &str) -> (r: String)
    ensures
        r@ == cmd_name@ + " "@,
{
    let mut r = String::from_str(cmd_name);
    r.append(" ");
    r
}

} // verus!
