//! The order of the launcher's work as a state machine: the caller does the
//! outside work that an action names and hands back what came of it.

use crate::launcher::{
    config_fault, exit_code, exit_code_of, ConfigError, Invocation, LaunchOutcome, FAILURE_CODE,
};
use crate::sandbox::{EnforcementStatus, PolicyError};
use vstd::prelude::*;

verus! {

/// How far the launcher has come.
#[derive(Clone, Copy, Debug, PartialEq, Eq, Structural)]
pub enum Phase {
    /// Nothing is known yet.
    AwaitConfig,
    /// The configuration is complete; whether its root exists is not known.
    AwaitRootProbe,
    /// The root exists; the process is not restricted yet.
    AwaitEnforcement,
    /// Enforcement went through, fully, partly or not at all; the command
    /// has not ended yet.
    AwaitChild,
    /// The exit code is settled.
    Finished,
}

/// What came of the outside work.
#[derive(Clone, Copy, Debug, PartialEq, Eq, Structural)]
pub enum Event {
    /// The configuration was read, with what it lacks, if anything.
    ConfigRead(Option<ConfigError>),
    /// The sandbox root was looked for.
    RootProbed(bool),
    /// Enforcement ended: with a status, or with none where it failed.
    Enforced(Option<EnforcementStatus>),
    /// The launch ended.
    Launched(LaunchOutcome),
}

/// The outside work to do next.
#[derive(Clone, Copy, Debug, PartialEq, Eq, Structural)]
pub enum Action {
    /// Look whether the sandbox root exists.
    ProbeRoot,
    /// Restrict the process to the allowlist.
    Enforce,
    /// Launch the command and wait for it.
    Launch,
    /// Exit with this code.
    Exit(i32),
}

/// The next phase and the next action. An event that the phase does not
/// wait for ends the run with the failure code.
pub open spec fn transition(phase: Phase, event: Event) -> (Phase, Action) {
    match (phase, event) {
        (Phase::AwaitConfig, Event::ConfigRead(None)) => (Phase::AwaitRootProbe, Action::ProbeRoot),
        (Phase::AwaitRootProbe, Event::RootProbed(true)) => (
            Phase::AwaitEnforcement,
            Action::Enforce,
        ),
        (Phase::AwaitEnforcement, Event::Enforced(Some(_))) => (Phase::AwaitChild, Action::Launch),
        (Phase::AwaitChild, Event::Launched(outcome)) => (
            Phase::Finished,
            Action::Exit(exit_code_of(outcome)),
        ),
        _ => (Phase::Finished, Action::Exit(FAILURE_CODE)),
    }
}

/// The actions that a run from `phase` takes on `events`, one for each.
pub open spec fn actions(phase: Phase, events: Seq<Event>) -> Seq<Action>
    decreases events.len(),
{
    if events.len() == 0 {
        Seq::empty()
    } else {
        let (next, action) = transition(phase, events[0]);
        seq![action] + actions(next, events.drop_first())
    }
}

impl Event {
    /// The event for a configuration that was read: complete, or lacking
    /// what the error names.
    pub fn of_config(outcome: &Result<Invocation, ConfigError>) -> (event: Event)
        ensures
            event == match *outcome {
                Ok(_) => Event::ConfigRead(None),
                Err(fault) => Event::ConfigRead(Some(fault)),
            },
    {
        match outcome {
            Ok(_) => Event::ConfigRead(None),
            Err(fault) => Event::ConfigRead(Some(*fault)),
        }
    }

    /// The event for an enforcement that ended: with its status, or with
    /// none where it failed.
    pub fn of_enforcement(outcome: &Result<EnforcementStatus, PolicyError>) -> (event: Event)
        ensures
            event == match *outcome {
                Ok(status) => Event::Enforced(Some(status)),
                Err(_) => Event::Enforced(None),
            },
    {
        match outcome {
            Ok(status) => Event::Enforced(Some(*status)),
            Err(_) => Event::Enforced(None),
        }
    }
}

/// The next phase and the next action for what came of the last one.
pub fn step(phase: Phase, event: Event) -> (next: (Phase, Action))
    ensures
        next == transition(phase, event),
{
    match (phase, event) {
        (Phase::AwaitConfig, Event::ConfigRead(None)) => (Phase::AwaitRootProbe, Action::ProbeRoot),
        (Phase::AwaitRootProbe, Event::RootProbed(true)) => (
            Phase::AwaitEnforcement,
            Action::Enforce,
        ),
        (Phase::AwaitEnforcement, Event::Enforced(Some(_))) => (Phase::AwaitChild, Action::Launch),
        (Phase::AwaitChild, Event::Launched(outcome)) => (
            Phase::Finished,
            Action::Exit(exit_code(outcome)),
        ),
        _ => (Phase::Finished, Action::Exit(FAILURE_CODE)),
    }
}

/// Once the exit code is settled, whatever comes, the launcher only exits
/// with the failure code: it restricts nothing and launches nothing.
pub proof fn lemma_finished_stays(events: Seq<Event>, k: int)
    requires
        0 <= k < events.len(),
    ensures
        actions(Phase::Finished, events).len() == events.len(),
        actions(Phase::Finished, events)[k] == Action::Exit(FAILURE_CODE),
    decreases events.len(),
{
    lemma_one_action_per_event(Phase::Finished, events);
    if k > 0 {
        lemma_finished_stays(events.drop_first(), k - 1);
    }
}

/// A run takes one action for each event.
pub proof fn lemma_one_action_per_event(phase: Phase, events: Seq<Event>)
    ensures
        actions(phase, events).len() == events.len(),
    decreases events.len(),
{
    if events.len() > 0 {
        lemma_one_action_per_event(transition(phase, events[0]).0, events.drop_first());
    }
}

/// Where a command line of `words` words, or one of the three paths, is
/// missing, the launcher exits with the failure code at once, and in all
/// that follows it neither restricts the process nor launches the command.
pub proof fn lemma_incomplete_config_only_exits(
    words: nat,
    root: bool,
    runtime_dir: bool,
    home: bool,
    later: Seq<Event>,
    k: int,
)
    requires
        words < 2 || !root || !runtime_dir || !home,
        0 <= k <= later.len(),
    ensures
        config_fault(words, root, runtime_dir, home) is Some,
        actions(
            Phase::AwaitConfig,
            seq![Event::ConfigRead(config_fault(words, root, runtime_dir, home))] + later,
        )[k] == Action::Exit(FAILURE_CODE),
{
    let events = seq![Event::ConfigRead(config_fault(words, root, runtime_dir, home))] + later;
    assert(events.drop_first() =~= later);
    if k > 0 {
        lemma_finished_stays(later, k - 1);
    }
}

/// Where nothing exists at the sandbox root, the launcher exits with the
/// failure code before any enforcement, and in all that follows it neither
/// restricts the process nor launches the command.
pub proof fn lemma_missing_root_only_exits(later: Seq<Event>, k: int)
    requires
        0 <= k <= later.len(),
    ensures
        actions(Phase::AwaitRootProbe, seq![Event::RootProbed(false)] + later)[k] == Action::Exit(
            FAILURE_CODE,
        ),
{
    let events = seq![Event::RootProbed(false)] + later;
    assert(events.drop_first() =~= later);
    if k > 0 {
        lemma_finished_stays(later, k - 1);
    }
}

/// The command is launched only as the answer to an enforcement that went
/// through, and the process is restricted only as the answer to a root
/// that was found.
pub proof fn lemma_launch_follows_enforcement(phase: Phase, event: Event)
    ensures
        transition(phase, event).1 == Action::Launch <==> phase == Phase::AwaitEnforcement && (
        event matches Event::Enforced(Some(_))),
        transition(phase, event).1 == Action::Enforce <==> phase == Phase::AwaitRootProbe && event
            == Event::RootProbed(true),
{
}

/// Whatever the status of an enforcement that went through, also where the
/// kernel lacks the mechanism and nothing is enforced, the command is
/// launched; where enforcement failed, the launcher exits with the failure
/// code.
pub proof fn lemma_degraded_enforcement_still_launches(status: EnforcementStatus)
    ensures
        transition(Phase::AwaitEnforcement, Event::Enforced(Some(status))) == (
            Phase::AwaitChild,
            Action::Launch,
        ),
        transition(Phase::AwaitEnforcement, Event::Enforced(None)) == (
            Phase::Finished,
            Action::Exit(FAILURE_CODE),
        ),
{
}

/// The launcher's exit code is the command's own where it left one, and the
/// failure code where a signal ended it or it could not be started.
pub proof fn lemma_exit_code_is_the_childs(code: i32)
    ensures
        transition(Phase::AwaitChild, Event::Launched(LaunchOutcome::Exited(code))).1
            == Action::Exit(code),
        transition(Phase::AwaitChild, Event::Launched(LaunchOutcome::Signaled)).1 == Action::Exit(
            FAILURE_CODE,
        ),
        transition(Phase::AwaitChild, Event::Launched(LaunchOutcome::SpawnFailed)).1
            == Action::Exit(FAILURE_CODE),
{
}

} // verus!
