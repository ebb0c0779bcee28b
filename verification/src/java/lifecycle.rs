//! Starting and stopping the bridge: the commands sent to the JVM worker one
//! after the other, and the error reported when one of them fails.
use vstd::prelude::*;
use vstd::string::*;

verus! {

/// A command that the bridge sends to the JVM worker while it starts or stops.
#[derive(Debug, Clone, Copy, PartialEq, Eq, Structural)]
pub enum LifecycleCommand {
    Initialize,
    InstantiateAllPlugins,
    EnableAllPlugins,
    DisableAllPlugins,
    Shutdown,
}

/// How a lifecycle command failed.
#[derive(Debug, Clone, PartialEq, Eq)]
pub enum CommandFailure {
    /// The command could not be sent to the worker.
    Send(String),
    /// The worker's answer never arrived.
    Receive(String),
    /// The worker carried the command out and reported an error.
    Failed(String),
}

/// The text that a failure of `command` is reported with, before the error itself.
pub open spec fn failure_prefix(command: LifecycleCommand, failure: CommandFailure) -> Seq<char> {
    match (command, failure) {
        (LifecycleCommand::Initialize, CommandFailure::Send(_)) => "Failed to send command to initialize J4RS: "@,
        (LifecycleCommand::Initialize, CommandFailure::Receive(_)) => "Unable to receive response from J4RS initialization: "@,
        (LifecycleCommand::Initialize, CommandFailure::Failed(_)) => "Failed to initialize all plugins: "@,
        (LifecycleCommand::InstantiateAllPlugins, CommandFailure::Send(_)) => "Failed to send command to instantiate plugins: "@,
        (LifecycleCommand::InstantiateAllPlugins, CommandFailure::Receive(_)) => "Unable to receive response from instantiate plugins: "@,
        (LifecycleCommand::InstantiateAllPlugins, CommandFailure::Failed(_)) => "Failed to instantiate all plugins: "@,
        (LifecycleCommand::EnableAllPlugins, CommandFailure::Send(_)) => "Failed to send command to enable all plugins: "@,
        (LifecycleCommand::EnableAllPlugins, CommandFailure::Receive(_)) => "Unable to receive response from enable all plugins: "@,
        (LifecycleCommand::EnableAllPlugins, CommandFailure::Failed(_)) => "Failed to enable all plugins: "@,
        (LifecycleCommand::DisableAllPlugins, CommandFailure::Send(_)) => "Failed to send command to disable all plugins: "@,
        (LifecycleCommand::DisableAllPlugins, CommandFailure::Receive(_)) => "Unable to receive response from disable all plugins: "@,
        (LifecycleCommand::DisableAllPlugins, CommandFailure::Failed(_)) => "Failed to disable all plugins: "@,
        (LifecycleCommand::Shutdown, CommandFailure::Send(_)) => "Failed to send command to shutdown: "@,
        (LifecycleCommand::Shutdown, CommandFailure::Receive(_)) => "Unable to receive response from shutdown: "@,
        (LifecycleCommand::Shutdown, CommandFailure::Failed(_)) => "Failed to shutdown: "@,
    }
}

/// The error text that a failure carries.
pub open spec fn failure_error(failure: CommandFailure) -> Seq<char> {
    match failure {
        CommandFailure::Send(e) => e@,
        CommandFailure::Receive(e) => e@,
        CommandFailure::Failed(e) => e@,
    }
}

/// The message a failure of `command` is reported with.
pub open spec fn failure_message_spec(command: LifecycleCommand, failure: CommandFailure) -> Seq<char> {
    failure_prefix(command, failure) + failure_error(failure)
}

/// The message a failure of `command` is reported with.
pub fn failure_message(command: LifecycleCommand, failure: &CommandFailure) -> (r: String)
    ensures
        r@ == failure_message_spec(command, *failure),
{
    let mut r = match (command, failure) {
        (LifecycleCommand::Initialize, CommandFailure::Send(_)) => String::from_str("Failed to send command to initialize J4RS: "),
        (LifecycleCommand::Initialize, CommandFailure::Receive(_)) => String::from_str("Unable to receive response from J4RS initialization: "),
        (LifecycleCommand::Initialize, CommandFailure::Failed(_)) => String::from_str("Failed to initialize all plugins: "),
        (LifecycleCommand::InstantiateAllPlugins, CommandFailure::Send(_)) => String::from_str("Failed to send command to instantiate plugins: "),
        (LifecycleCommand::InstantiateAllPlugins, CommandFailure::Receive(_)) => String::from_str("Unable to receive response from instantiate plugins: "),
        (LifecycleCommand::InstantiateAllPlugins, CommandFailure::Failed(_)) => String::from_str("Failed to instantiate all plugins: "),
        (LifecycleCommand::EnableAllPlugins, CommandFailure::Send(_)) => String::from_str("Failed to send command to enable all plugins: "),
        (LifecycleCommand::EnableAllPlugins, CommandFailure::Receive(_)) => String::from_str("Unable to receive response from enable all plugins: "),
        (LifecycleCommand::EnableAllPlugins, CommandFailure::Failed(_)) => String::from_str("Failed to enable all plugins: "),
        (LifecycleCommand::DisableAllPlugins, CommandFailure::Send(_)) => String::from_str("Failed to send command to disable all plugins: "),
        (LifecycleCommand::DisableAllPlugins, CommandFailure::Receive(_)) => String::from_str("Unable to receive response from disable all plugins: "),
        (LifecycleCommand::DisableAllPlugins, CommandFailure::Failed(_)) => String::from_str("Failed to disable all plugins: "),
        (LifecycleCommand::Shutdown, CommandFailure::Send(_)) => String::from_str("Failed to send command to shutdown: "),
        (LifecycleCommand::Shutdown, CommandFailure::Receive(_)) => String::from_str("Unable to receive response from shutdown: "),
        (LifecycleCommand::Shutdown, CommandFailure::Failed(_)) => String::from_str("Failed to shutdown: "),
    };
    match failure {
        CommandFailure::Send(e) => r.append(e.as_str()),
        CommandFailure::Receive(e) => r.append(e.as_str()),
        CommandFailure::Failed(e) => r.append(e.as_str()),
    }
    r
}

/// One step of starting or stopping the bridge.
#[derive(Debug, Clone, Copy, PartialEq, Eq, Structural)]
pub enum LifecycleStep {
    /// Ask the worker to read and register the plugin JAR with this index; a
    /// failure is reported and the sequence goes on.
    LoadPlugin(usize),
    /// Send this command; a failure stops the sequence.
    Command(LifecycleCommand),
}

/// The steps of loading the bridge with `jar_count` plugin JARs: one
/// `LoadPlugin` per JAR, in order, then starting the JVM, creating the
/// plugins and enabling them.
pub open spec fn load_sequence(jar_count: nat) -> Seq<LifecycleStep> {
    Seq::new(jar_count, |i: int| LifecycleStep::LoadPlugin(i as usize)) + seq![
        LifecycleStep::Command(LifecycleCommand::Initialize),
        LifecycleStep::Command(LifecycleCommand::InstantiateAllPlugins),
        LifecycleStep::Command(LifecycleCommand::EnableAllPlugins),
    ]
}

/// The steps of unloading the bridge.
pub open spec fn unload_sequence() -> Seq<LifecycleStep> {
    seq![
        LifecycleStep::Command(LifecycleCommand::DisableAllPlugins),
        LifecycleStep::Command(LifecycleCommand::Shutdown),
    ]
}

/// What the bridge does next while it starts or stops.
#[derive(Debug, Clone, PartialEq, Eq)]
pub enum LifecycleAction {
    /// Ask the worker to load the plugin JAR with this index and report how
    /// the request went.
    LoadPlugin(usize),
    /// Send this command to the worker and report how it went.
    Send(LifecycleCommand),
    /// Every step is done.
    Done,
    /// A command failed; the sequence stops with this message.
    Abort(String),
}

/// The action that carries out a step.
pub open spec fn action_for(step: LifecycleStep) -> LifecycleAction {
    match step {
        LifecycleStep::LoadPlugin(i) => LifecycleAction::LoadPlugin(i),
        LifecycleStep::Command(c) => LifecycleAction::Send(c),
    }
}

/// Carries out a sequence of lifecycle steps one after the other: a failed
/// `LoadPlugin` is passed over, a failed command stops the sequence.
pub struct LifecycleDriver {
    steps: Vec<LifecycleStep>,
    next: usize,
    failed: bool,
}

impl LifecycleDriver {
    /// The steps still to carry out.
    pub closed spec fn remaining(&self) -> Seq<LifecycleStep> {
        self.steps@.skip(self.next as int)
    }

    /// Whether the sequence stopped on a failed command.
    pub closed spec fn is_failed(&self) -> bool {
        self.failed
    }

    #[verifier::type_invariant]
    spec fn wf(self) -> bool {
        self.next <= self.steps@.len()
    }

    fn starting(steps: Vec<LifecycleStep>) -> (d: Self)
        ensures
            d.remaining() == steps@,
            !d.is_failed(),
    {
        let d = LifecycleDriver { steps, next: 0, failed: false };
        assert(d.steps@.skip(0) =~= d.steps@);
        d
    }

    fn action(step: LifecycleStep) -> (a: LifecycleAction)
        ensures
            a == action_for(step),
    {
        match step {
            LifecycleStep::LoadPlugin(i) => LifecycleAction::LoadPlugin(i),
            LifecycleStep::Command(c) => LifecycleAction::Send(c),
        }
    }

    /// The driver of loading the bridge with `jar_count` plugin JARs.
    pub fn for_load(jar_count: usize) -> (d: Self)
        ensures
            d.remaining() == load_sequence(jar_count as nat),
            !d.is_failed(),
    {
        let mut steps: Vec<LifecycleStep> = Vec::new();
        let mut i: usize = 0;
        while i < jar_count
            invariant
                i <= jar_count,
                steps@ =~= Seq::new(i as nat, |k: int| LifecycleStep::LoadPlugin(k as usize)),
            decreases jar_count - i,
        {
            steps.push(LifecycleStep::LoadPlugin(i));
            i += 1;
        }
        steps.push(LifecycleStep::Command(LifecycleCommand::Initialize));
        steps.push(LifecycleStep::Command(LifecycleCommand::InstantiateAllPlugins));
        steps.push(LifecycleStep::Command(LifecycleCommand::EnableAllPlugins));
        assert(steps@ =~= load_sequence(jar_count as nat));
        Self::starting(steps)
    }

    /// The driver of unloading the bridge.
    pub fn for_unload() -> (d: Self)
        ensures
            d.remaining() == unload_sequence(),
            !d.is_failed(),
    {
        let mut steps: Vec<LifecycleStep> = Vec::new();
        steps.push(LifecycleStep::Command(LifecycleCommand::DisableAllPlugins));
        steps.push(LifecycleStep::Command(LifecycleCommand::Shutdown));
        assert(steps@ =~= unload_sequence());
        Self::starting(steps)
    }

    /// The first action: carry out the first step, or finish at once when
    /// there is none.
    pub fn start(&self) -> (a: LifecycleAction)
        ensures
            self.is_failed() ==> a == LifecycleAction::Done,
            !self.is_failed() && self.remaining().len() > 0 ==> a == action_for(self.remaining()[0]),
            !self.is_failed() && self.remaining().len() == 0 ==> a == LifecycleAction::Done,
    {
        proof {
            use_type_invariant(self);
        }
        if self.failed || self.next >= self.steps.len() {
            LifecycleAction::Done
        } else {
            Self::action(self.steps[self.next])
        }
    }

    /// The next action once the step last carried out has succeeded (`Ok`)
    /// or failed (`Err`): the next step or the end of the sequence, or, when
    /// a command failed, the failure's message.
    pub fn step(&mut self, outcome: Result<(), CommandFailure>) -> (a: LifecycleAction)
        requires
            !old(self).is_failed(),
            old(self).remaining().len() > 0,
        ensures
            match (old(self).remaining()[0], outcome) {
                (LifecycleStep::Command(c), Err(f)) => {
                    &&& final(self).is_failed()
                    &&& a matches LifecycleAction::Abort(m) && m@ == failure_message_spec(c, f)
                },
                _ => {
                    &&& final(self).remaining() == old(self).remaining().drop_first()
                    &&& !final(self).is_failed()
                    &&& final(self).remaining().len() > 0 ==> a == action_for(
                        final(self).remaining()[0],
                    )
                    &&& final(self).remaining().len() == 0 ==> a == LifecycleAction::Done
                },
            },
    {
        proof {
            use_type_invariant(&*self);
        }
        let n = self.steps.len();
        assert(self.steps@.skip(self.next as int).len() == self.steps@.len() - self.next);
        assert(self.next < n);
        let current = self.steps[self.next];
        match (current, outcome) {
            (LifecycleStep::Command(c), Err(f)) => {
                self.failed = true;
                LifecycleAction::Abort(failure_message(c, &f))
            },
            _ => {
                self.next = self.next + 1;
                assert(self.steps@.skip(self.next as int) =~= old(self).remaining().drop_first());
                if self.next < self.steps.len() {
                    Self::action(self.steps[self.next])
                } else {
                    LifecycleAction::Done
                }
            },
        }
    }
}

} // verus!
