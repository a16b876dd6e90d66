//! The life of an operation as a walk through named states:
//!
//! `Created -> Validating -> {Rejected | Submitting}`, then per attempt
//! `Submitting -> {Awaiting | SubmissionFailed}` and
//! `Awaiting -> {Confirmed | Dropped}`, then `Confirmed -> Success`,
//! `Rejected -> Failure`, and from `Dropped` and `SubmissionFailed` either
//! back to `Submitting` or on to `Failure`, as the retry policy decides.
//!
//! The orchestrator rests only in some of these states; this module names
//! the ones it passes on the way and shows that every step it takes is a
//! walk along these arrows.

use crate::operation::{validated, Command};
use crate::orchestrator::{resumed, started, step, well_formed, Event, OrchestrationView, StageView};
use crate::retry::RetryPolicy;
use crate::submitter::{after_broadcast, after_wait, SubmissionOutcome};
use vstd::prelude::*;

verus! {

/// The states of the life of an operation.
#[derive(Clone, Copy, Debug, PartialEq, Eq)]
pub enum Phase {
    Created,
    Validating,
    Rejected,
    Submitting,
    Awaiting,
    Confirmed,
    Dropped,
    SubmissionFailed,
    Success,
    Failure,
}

/// Whether an operation may pass straight from one state to another.
pub open spec fn leads_to(from: Phase, to: Phase) -> bool {
    match from {
        Phase::Created => to is Validating,
        Phase::Validating => to is Rejected || to is Submitting,
        Phase::Rejected => to is Failure,
        Phase::Submitting => to is Awaiting || to is SubmissionFailed,
        Phase::Awaiting => to is Confirmed || to is Dropped,
        Phase::Confirmed => to is Success,
        Phase::Dropped => to is Submitting || to is Failure,
        Phase::SubmissionFailed => to is Submitting || to is Failure,
        Phase::Success => false,
        Phase::Failure => false,
    }
}

/// Whether each state of a sequence leads to the next one.
pub open spec fn is_walk(path: Seq<Phase>) -> bool {
    forall|i: int| 0 <= i < path.len() - 1 ==> leads_to(#[trigger] path[i], path[i + 1])
}

/// The state that a stage of the orchestrator stands for.
pub open spec fn phase_of(stage: StageView) -> Phase {
    match stage {
        StageView::Submitting { .. } => Phase::Submitting,
        StageView::Awaiting { .. } => Phase::Awaiting,
        StageView::Dropped { .. } => Phase::Dropped,
        StageView::SubmissionFailed { .. } => Phase::SubmissionFailed,
        StageView::Success { .. } => Phase::Success,
        StageView::Failure { .. } => Phase::Failure,
    }
}

/// The states that an operation passes when it is started, from its
/// creation to the state in which it first rests.
pub open spec fn walk_of_start(command: Command) -> Seq<Phase> {
    match validated(command) {
        Err(_) => seq![Phase::Created, Phase::Validating, Phase::Rejected, Phase::Failure],
        Ok(_) => seq![Phase::Created, Phase::Validating, Phase::Submitting],
    }
}

/// The states that an attempt passes once its outcome is known, up to the
/// state in which the operation rests next.
pub open spec fn walk_of_outcome(policy: RetryPolicy, outcome: SubmissionOutcome) -> Seq<Phase> {
    match outcome {
        SubmissionOutcome::Confirmed { .. } => seq![Phase::Confirmed, Phase::Success],
        SubmissionOutcome::Dropped => match policy {
            RetryPolicy::SingleAttempt => seq![Phase::Dropped, Phase::Failure],
            RetryPolicy::BoundedRetry { .. } => seq![Phase::Dropped],
        },
        SubmissionOutcome::SubmissionFailed { .. } => match policy {
            RetryPolicy::SingleAttempt => seq![Phase::SubmissionFailed, Phase::Failure],
            RetryPolicy::BoundedRetry { .. } => seq![Phase::SubmissionFailed],
        },
    }
}

/// The states that an operation passes on an event, from the state in which
/// it rested to the one in which it rests next. An event that the operation
/// does not wait for moves it nowhere.
pub open spec fn walk_of_step(state: OrchestrationView, event: Event) -> Seq<Phase> {
    let here = seq![phase_of(state.stage)];
    match state.stage {
        StageView::Submitting { .. } => match event {
            Event::Broadcast { reply } => match after_broadcast(reply) {
                None => here.push(Phase::Awaiting),
                Some(outcome) => here + walk_of_outcome(state.policy, outcome),
            },
            _ => here,
        },
        StageView::Awaiting { .. } => match event {
            Event::Receipt { receipt } => here + walk_of_outcome(state.policy, after_wait(receipt)),
            _ => here,
        },
        StageView::Dropped { intent, attempts_made } => match event {
            Event::DelayElapsed => here.push(phase_of(resumed(state.policy, intent, attempts_made))),
            _ => here,
        },
        StageView::SubmissionFailed { intent, attempts_made, .. } => match event {
            Event::DelayElapsed => here.push(phase_of(resumed(state.policy, intent, attempts_made))),
            _ => here,
        },
        _ => here,
    }
}

/// `Success` and `Failure` are the terminal states, and the only ones.
pub proof fn terminal_states(phase: Phase)
    ensures
        (forall|next: Phase| !leads_to(phase, next)) <==> (phase is Success || phase is Failure),
{
    if !(phase is Success || phase is Failure) {
        let next = match phase {
            Phase::Created => Phase::Validating,
            Phase::Validating => Phase::Submitting,
            Phase::Rejected => Phase::Failure,
            Phase::Submitting => Phase::Awaiting,
            Phase::Awaiting => Phase::Confirmed,
            Phase::Confirmed => Phase::Success,
            _ => Phase::Submitting,
        };
        assert(leads_to(phase, next));
    }
}

/// Starting an operation under a policy that allows an attempt is a walk
/// from `Created` to the state in which the operation first rests.
pub proof fn start_is_a_walk(contract: Seq<u8>, policy: RetryPolicy, command: Command)
    requires
        policy.attempts() >= 1,
    ensures
        is_walk(walk_of_start(command)),
        walk_of_start(command).first() == Phase::Created,
        walk_of_start(command).last() == phase_of(started(contract, policy, command).stage),
{
}

/// Every step of a well-formed operation is a walk from the state in which
/// it rested to the state in which it rests next.
pub proof fn step_is_a_walk(state: OrchestrationView, event: Event)
    requires
        well_formed(state),
    ensures
        is_walk(walk_of_step(state, event)),
        walk_of_step(state, event).first() == phase_of(state.stage),
        walk_of_step(state, event).last() == phase_of(step(state, event).stage),
{
}

} // verus!
