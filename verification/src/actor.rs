//! The service actor: the single owner of the lifecycle state.
//!
//! The actor holds the authoritative `ServiceState` and the configured port.
//! For each command the surrounding program first asks `required_effect`
//! which side effect, if any, the command needs, performs it through the
//! network-listener collaborator, and then hands the command and the
//! collaborator's outcome to `handle` (or to `handle_start` / `handle_stop`
//! directly). The mailbox loop that serializes concurrent submissions is
//! modeled by `run_commands`, which processes a whole batch strictly in
//! submission order.

use vstd::prelude::*;

use crate::protocol::{Command, Effect, LifecycleError, ServiceState, StatusReport};
use crate::protocol::{effect_for, needs_effect, run_outputs, run_state, step_output, step_state};

verus! {

/// The port the service listens on when no other configuration exists.
pub const DEFAULT_PORT: u16 = 1212;

/// The background actor in charge of starting and stopping the network
/// service. Its state is mutated only by its command handlers; external
/// callers observe it only through the reports those handlers return.
pub struct TorrentServer {
    state: ServiceState,
    port: u16,
}

impl TorrentServer {
    /// The current lifecycle state, for contracts.
    pub closed spec fn state_spec(&self) -> ServiceState {
        self.state
    }

    /// The configured listening port, for contracts.
    pub closed spec fn port_spec(&self) -> u16 {
        self.port
    }

    /// A fresh actor: stopped, configured with the default port.
    pub fn new() -> (actor: Self)
        ensures
            actor.state_spec() == ServiceState::Stopped,
            actor.port_spec() == DEFAULT_PORT,
    {
        TorrentServer { state: ServiceState::Stopped, port: DEFAULT_PORT }
    }

    /// The current lifecycle state.
    pub fn current_state(&self) -> (state: ServiceState)
        ensures
            state == self.state_spec(),
    {
        self.state
    }

    /// The configured listening port.
    pub fn port(&self) -> (port: u16)
        ensures
            port == self.port_spec(),
    {
        self.port
    }

    /// The side effect `cmd` requires before the actor may transition:
    /// binding the port on a `Start` out of `Stopped`, releasing it on a
    /// `Stop` out of `Active`, and nothing when the command is a no-op.
    pub fn required_effect(&self, cmd: Command) -> (effect: Option<Effect>)
        ensures
            effect == if needs_effect(self.state_spec(), cmd) {
                Some(effect_for(cmd, self.port_spec()))
            } else {
                None::<Effect>
            },
    {
        match cmd {
            Command::Start => match self.state {
                ServiceState::Stopped => Some(Effect::Bind(self.port)),
                ServiceState::Active => None,
            },
            Command::Stop => match self.state {
                ServiceState::Active => Some(Effect::Release(self.port)),
                ServiceState::Stopped => None,
            },
        }
    }

    /// Process a `Start` command, given the collaborator's outcome for the
    /// bind effect (ignored when the actor is already active). On success
    /// the actor is active and the report carries the new state; on failure
    /// the actor stays stopped and the submitter gets a `BindFailure`.
    pub fn handle_start(&mut self, bind_outcome: Result<(), String>) -> (r: Result<
        StatusReport,
        LifecycleError,
    >)
        ensures
            final(self).port_spec() == old(self).port_spec(),
            final(self).state_spec() == step_state(
                old(self).state_spec(),
                Command::Start,
                bind_outcome is Ok,
            ),
            r == step_output(
                old(self).state_spec(),
                old(self).port_spec(),
                Command::Start,
                bind_outcome,
            ),
    {
        match self.state {
            ServiceState::Active => Ok(
                StatusReport { state: ServiceState::Active, port: self.port },
            ),
            ServiceState::Stopped => match bind_outcome {
                Ok(()) => {
                    self.state = ServiceState::Active;
                    Ok(StatusReport { state: ServiceState::Active, port: self.port })
                },
                Err(reason) => Err(LifecycleError::BindFailure(reason)),
            },
        }
    }

    /// Process a `Stop` command, given the collaborator's outcome for the
    /// release effect (ignored when the actor is already stopped). On
    /// success the actor is stopped and the report carries the new state; on
    /// failure the actor stays active and the submitter gets a
    /// `ReleaseFailure`.
    pub fn handle_stop(&mut self, release_outcome: Result<(), String>) -> (r: Result<
        StatusReport,
        LifecycleError,
    >)
        ensures
            final(self).port_spec() == old(self).port_spec(),
            final(self).state_spec() == step_state(
                old(self).state_spec(),
                Command::Stop,
                release_outcome is Ok,
            ),
            r == step_output(
                old(self).state_spec(),
                old(self).port_spec(),
                Command::Stop,
                release_outcome,
            ),
    {
        match self.state {
            ServiceState::Stopped => Ok(
                StatusReport { state: ServiceState::Stopped, port: self.port },
            ),
            ServiceState::Active => match release_outcome {
                Ok(()) => {
                    self.state = ServiceState::Stopped;
                    Ok(StatusReport { state: ServiceState::Stopped, port: self.port })
                },
                Err(reason) => Err(LifecycleError::ReleaseFailure(reason)),
            },
        }
    }

    /// Process one command of either kind: the single dispatch point the
    /// mailbox loop routes every submission through. `outcome` is the
    /// collaborator's result for the effect `required_effect` named, and is
    /// irrelevant when no effect was required.
    pub fn handle(&mut self, cmd: Command, outcome: Result<(), String>) -> (r: Result<
        StatusReport,
        LifecycleError,
    >)
        ensures
            final(self).port_spec() == old(self).port_spec(),
            final(self).state_spec() == step_state(old(self).state_spec(), cmd, outcome is Ok),
            r == step_output(old(self).state_spec(), old(self).port_spec(), cmd, outcome),
    {
        match cmd {
            Command::Start => self.handle_start(outcome),
            Command::Stop => self.handle_stop(outcome),
        }
    }

    /// Process a batch of commands strictly in submission order, each paired
    /// with its collaborator outcome: the sequential model of the mailbox
    /// loop. No command is dropped or reordered — exactly one result per
    /// command comes back, in order — and a failed transition never stops
    /// the commands after it from being processed.
    pub fn run_commands(&mut self, commands: Vec<(Command, Result<(), String>)>) -> (results: Vec<
        Result<StatusReport, LifecycleError>,
    >)
        ensures
            final(self).port_spec() == old(self).port_spec(),
            final(self).state_spec() == run_state(old(self).state_spec(), commands@),
            results@ == run_outputs(old(self).state_spec(), old(self).port_spec(), commands@),
    {
        let ghost all = commands@;
        let ghost start_state = self.state_spec();
        let mut pending = commands;
        let mut results: Vec<Result<StatusReport, LifecycleError>> = Vec::new();
        while pending.len() > 0
            invariant
                self.port_spec() == old(self).port_spec(),
                run_state(start_state, all) == run_state(self.state_spec(), pending@),
                run_outputs(start_state, old(self).port_spec(), all) == results@ + run_outputs(
                    self.state_spec(),
                    old(self).port_spec(),
                    pending@,
                ),
                start_state == old(self).state_spec(),
            decreases pending.len(),
        {
            let ghost before = pending@;
            let ghost state_before = self.state_spec();
            let (cmd, outcome) = pending.remove(0);
            let r = self.handle(cmd, outcome);
            let ghost done = results@;
            results.push(r);
            proof {
                let port0 = old(self).port_spec();
                let tail = run_outputs(self.state_spec(), port0, pending@);
                assert(before.remove(0) =~= before.skip(1));
                assert(run_outputs(state_before, port0, before) == seq![r] + tail);
                assert(done + (seq![r] + tail) =~= done.push(r) + tail);
            }
        }
        proof {
            assert(results@ + run_outputs(self.state_spec(), old(self).port_spec(), pending@)
                =~= results@);
        }
        results
    }
}

} // verus!
