//! The laws the lifecycle model obeys, proved once and for all.
//!
//! Each law is stated over the spec functions of `protocol`, which the
//! contracts of `TorrentServer`'s handlers speak of, so it carries over to
//! every execution of the actor.

use vstd::prelude::*;

use crate::protocol::{Command, LifecycleError, ServiceState, StatusReport};
use crate::protocol::{needs_effect, run_outputs, run_state, step_output, step_state};

verus! {

/// A processed command that actually turned the service on: a `Start` whose
/// side effect succeeded (or that found the service already active).
pub open spec fn successful_start(step: (Command, Result<(), String>)) -> bool {
    step.0 == Command::Start && step.1 is Ok
}

/// A processed command that actually turned the service off: a `Stop` whose
/// side effect succeeded (or that found the service already stopped).
pub open spec fn successful_stop(step: (Command, Result<(), String>)) -> bool {
    step.0 == Command::Stop && step.1 is Ok
}

/// When a batch leaves the service active: some successful `Start` is
/// followed by no successful `Stop`, or the service was already active and
/// no successful `Stop` occurs at all.
pub open spec fn ends_active(
    state: ServiceState,
    steps: Seq<(Command, Result<(), String>)>,
) -> bool {
    ||| exists|i: int|
        0 <= i < steps.len() && successful_start(steps[i]) && (forall|j: int|
            i < j < steps.len() ==> !successful_stop(steps[j]))
    ||| state == ServiceState::Active && (forall|j: int|
        0 <= j < steps.len() ==> !successful_stop(steps[j]))
}

/// After any sequence of commands the service is active if and only if the
/// last command that could change the state successfully was a `Start`:
/// concretely, iff some successful `Start` has no successful `Stop` after
/// it, or the service started active and no `Stop` ever succeeded.
pub proof fn lemma_state_tracks_last_successful_command(
    state: ServiceState,
    steps: Seq<(Command, Result<(), String>)>,
)
    ensures
        run_state(state, steps) == ServiceState::Active <==> ends_active(state, steps),
    decreases steps.len(),
{
    if steps.len() == 0 {
    } else {
        let first = steps[0];
        let rest = steps.skip(1);
        let next = step_state(state, first.0, first.1 is Ok);
        lemma_state_tracks_last_successful_command(next, rest);
        assert forall|k: int| 0 <= k < rest.len() implies rest[k] == steps[k + 1] by {}
        if ends_active(next, rest) {
            if exists|i: int|
                0 <= i < rest.len() && successful_start(rest[i]) && (forall|j: int|
                    i < j < rest.len() ==> !successful_stop(rest[j])) {
                let i = choose|i: int|
                    0 <= i < rest.len() && successful_start(rest[i]) && (forall|j: int|
                        i < j < rest.len() ==> !successful_stop(rest[j]));
                assert(successful_start(steps[i + 1]));
                assert forall|j: int| i + 1 < j < steps.len() implies !successful_stop(
                    steps[j],
                ) by {
                    assert(steps[j] == rest[j - 1]);
                }
                assert(ends_active(state, steps));
            } else {
                // The tail keeps an already-active service active; the first
                // command is what made (or found) it active.
                if successful_start(first) {
                    assert forall|j: int| 0 < j < steps.len() implies !successful_stop(
                        steps[j],
                    ) by {
                        assert(steps[j] == rest[j - 1]);
                    }
                    assert(ends_active(state, steps));
                } else {
                    assert(state == ServiceState::Active && !successful_stop(first));
                    assert forall|j: int| 0 <= j < steps.len() implies !successful_stop(
                        steps[j],
                    ) by {
                        if j > 0 {
                            assert(steps[j] == rest[j - 1]);
                        }
                    }
                    assert(ends_active(state, steps));
                }
            }
        }
        if ends_active(state, steps) {
            if exists|i: int|
                0 <= i < steps.len() && successful_start(steps[i]) && (forall|j: int|
                    i < j < steps.len() ==> !successful_stop(steps[j])) {
                let i = choose|i: int|
                    0 <= i < steps.len() && successful_start(steps[i]) && (forall|j: int|
                        i < j < steps.len() ==> !successful_stop(steps[j]));
                if i == 0 {
                    // The very first command succeeds as a `Start`, so the
                    // tail starts active and no later `Stop` succeeds.
                    assert(next == ServiceState::Active);
                    assert forall|j: int| 0 <= j < rest.len() implies !successful_stop(
                        rest[j],
                    ) by {
                        assert(rest[j] == steps[j + 1]);
                    }
                    assert(ends_active(next, rest));
                } else {
                    assert(successful_start(rest[i - 1]));
                    assert forall|j: int| i - 1 < j < rest.len() implies !successful_stop(
                        rest[j],
                    ) by {
                        assert(rest[j] == steps[j + 1]);
                    }
                    assert(ends_active(next, rest));
                }
            } else {
                // The service started active and no `Stop` ever succeeds, so
                // the first command leaves it active and the tail keeps it so.
                assert(state == ServiceState::Active);
                assert(!successful_stop(first));
                assert(next == ServiceState::Active);
                assert forall|j: int| 0 <= j < rest.len() implies !successful_stop(rest[j]) by {
                    assert(rest[j] == steps[j + 1]);
                }
                assert(ends_active(next, rest));
            }
        }
    }
}

/// A command never disappears and never reorders: processing a batch yields
/// exactly one result per command, and the result at each position is the
/// step output of that very command against the state the earlier commands
/// produced.
pub proof fn lemma_no_command_dropped_or_reordered(
    state: ServiceState,
    port: u16,
    steps: Seq<(Command, Result<(), String>)>,
)
    ensures
        run_outputs(state, port, steps).len() == steps.len(),
        forall|i: int|
            0 <= i < steps.len() ==> run_outputs(state, port, steps)[i] == step_output(
                run_state(state, steps.take(i)),
                port,
                steps[i].0,
                steps[i].1,
            ),
    decreases steps.len(),
{
    if steps.len() == 0 {
    } else {
        let first = steps[0];
        let rest = steps.skip(1);
        let next = step_state(state, first.0, first.1 is Ok);
        lemma_no_command_dropped_or_reordered(next, port, rest);
        assert(steps.take(0) =~= Seq::empty());
        assert forall|i: int|
            0 <= i < steps.len() implies run_outputs(state, port, steps)[i] == step_output(
            run_state(state, steps.take(i)),
            port,
            steps[i].0,
            steps[i].1,
        ) by {
            if i > 0 {
                assert(rest[i - 1] == steps[i]);
                assert(rest.take(i - 1) =~= steps.take(i).skip(1));
                assert(steps.take(i)[0] == steps[0]);
                assert(run_state(state, steps.take(i)) == run_state(next, rest.take(i - 1)));
            }
        }
    }
}

/// Exactly one notification per command: when every collaborator outcome in
/// a batch succeeds — in particular for any number of callers whose
/// concurrent submissions the mailbox has serialized — every command
/// produces a status report, in processing order, none duplicated and none
/// lost.
pub proof fn lemma_one_notification_per_command(
    state: ServiceState,
    port: u16,
    steps: Seq<(Command, Result<(), String>)>,
)
    requires
        forall|i: int| 0 <= i < steps.len() ==> (#[trigger] steps[i].1) is Ok,
    ensures
        run_outputs(state, port, steps).len() == steps.len(),
        forall|i: int| 0 <= i < steps.len() ==> (#[trigger] run_outputs(state, port, steps)[i]) is Ok,
    decreases steps.len(),
{
    if steps.len() == 0 {
    } else {
        let first = steps[0];
        let rest = steps.skip(1);
        let next = step_state(state, first.0, first.1 is Ok);
        assert forall|k: int| 0 <= k < rest.len() implies (#[trigger] rest[k].1) is Ok by {
            assert(rest[k] == steps[k + 1]);
        }
        lemma_one_notification_per_command(next, port, rest);
        assert forall|i: int|
            0 <= i < steps.len() implies (#[trigger] run_outputs(state, port, steps)[i]) is Ok by {
            if i > 0 {
                assert(run_outputs(state, port, steps)[i] == run_outputs(next, port, rest)[i - 1]);
            }
        }
    }
}

/// Idempotence of a repeated command: once a command's transition has
/// succeeded, submitting the same command again requires no further side
/// effect — one bind for two `Start`s — and the repeat is a no-op that
/// still succeeds with a status report carrying the unchanged state,
/// whatever the collaborator would have answered.
pub proof fn lemma_repeated_command_is_noop(
    state: ServiceState,
    port: u16,
    cmd: Command,
    second_outcome: Result<(), String>,
)
    ensures
        !needs_effect(step_state(state, cmd, true), cmd),
        step_state(step_state(state, cmd, true), cmd, second_outcome is Ok) == step_state(
            state,
            cmd,
            true,
        ),
        step_output(step_state(state, cmd, true), port, cmd, second_outcome) == Ok::<
            StatusReport,
            LifecycleError,
        >((StatusReport { state: step_state(state, cmd, true), port })),
{
}

} // verus!
