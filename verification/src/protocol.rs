//! The command/status protocol and the mathematical model of the lifecycle.
//!
//! `step_state` and `step_output` say exactly how one command, together with
//! the outcome of its side effect, moves the service state and what the
//! caller gets back. `run_state` and `run_outputs` extend that to a whole
//! batch of commands processed strictly in order, which is what the actor's
//! mailbox guarantees.

use vstd::prelude::*;

verus! {

/// The lifecycle state of the network service.
#[derive(Clone, Copy, Debug, PartialEq, Eq, Structural)]
pub enum ServiceState {
    Stopped,
    Active,
}

/// A command submitted by an external caller.
#[derive(Clone, Copy, Debug, PartialEq, Eq, Structural)]
pub enum Command {
    Start,
    Stop,
}

/// The side effect a command requires from the network-listener
/// collaborator: acquire or release the listening port.
#[derive(Clone, Copy, Debug, PartialEq, Eq, Structural)]
pub enum Effect {
    Bind(u16),
    Release(u16),
}

/// The notification pushed to the external observer after every processed
/// command, no-ops included.
#[derive(Clone, Copy, Debug, PartialEq, Eq, Structural)]
pub struct StatusReport {
    pub state: ServiceState,
    pub port: u16,
}

/// Why a command failed. `BindFailure` and `ReleaseFailure` carry the
/// collaborator's reason and leave the state unchanged; `ChannelClosed` is
/// returned by the surrounding program when the command ingress died while a
/// caller waited.
#[derive(Debug, PartialEq, Eq)]
pub enum LifecycleError {
    BindFailure(String),
    ReleaseFailure(String),
    ChannelClosed,
}

/// Whether `cmd` asks for an actual transition out of `state`, and therefore
/// a side effect. A command that matches the current state is a no-op.
pub open spec fn needs_effect(state: ServiceState, cmd: Command) -> bool {
    match cmd {
        Command::Start => state == ServiceState::Stopped,
        Command::Stop => state == ServiceState::Active,
    }
}

/// The state a command aims at.
pub open spec fn target_state(cmd: Command) -> ServiceState {
    match cmd {
        Command::Start => ServiceState::Active,
        Command::Stop => ServiceState::Stopped,
    }
}

/// The side effect a transition out of `state` requires on `port`.
pub open spec fn effect_for(cmd: Command, port: u16) -> Effect {
    match cmd {
        Command::Start => Effect::Bind(port),
        Command::Stop => Effect::Release(port),
    }
}

/// The error surfaced when the side effect of `cmd` fails for `reason`.
pub open spec fn failure_of(cmd: Command, reason: String) -> LifecycleError {
    match cmd {
        Command::Start => LifecycleError::BindFailure(reason),
        Command::Stop => LifecycleError::ReleaseFailure(reason),
    }
}

/// The state after processing `cmd`: unchanged on a no-op or on a failed
/// side effect, the command's target state otherwise. Transitions are
/// all-or-nothing.
pub open spec fn step_state(state: ServiceState, cmd: Command, effect_ok: bool) -> ServiceState {
    if needs_effect(state, cmd) && !effect_ok {
        state
    } else {
        target_state(cmd)
    }
}

/// What the submitter of `cmd` gets back: the status report on success
/// (no-ops included), the collaborator's failure otherwise. `outcome` is the
/// collaborator's result and is irrelevant when no side effect was required.
pub open spec fn step_output(
    state: ServiceState,
    port: u16,
    cmd: Command,
    outcome: Result<(), String>,
) -> Result<StatusReport, LifecycleError> {
    if needs_effect(state, cmd) && outcome is Err {
        Err(failure_of(cmd, outcome->Err_0))
    } else {
        Ok(StatusReport { state: step_state(state, cmd, outcome is Ok), port })
    }
}

/// The state after processing a batch of commands in order, each paired with
/// its collaborator outcome.
pub open spec fn run_state(
    state: ServiceState,
    steps: Seq<(Command, Result<(), String>)>,
) -> ServiceState
    decreases steps.len(),
{
    if steps.len() == 0 {
        state
    } else {
        run_state(step_state(state, steps[0].0, steps[0].1 is Ok), steps.skip(1))
    }
}

/// The per-command results of processing a batch of commands in order: one
/// entry per command, in submission order.
pub open spec fn run_outputs(
    state: ServiceState,
    port: u16,
    steps: Seq<(Command, Result<(), String>)>,
) -> Seq<Result<StatusReport, LifecycleError>>
    decreases steps.len(),
{
    if steps.len() == 0 {
        Seq::empty()
    } else {
        seq![step_output(state, port, steps[0].0, steps[0].1)] + run_outputs(
            step_state(state, steps[0].0, steps[0].1 is Ok),
            port,
            steps.skip(1),
        )
    }
}

} // verus!
