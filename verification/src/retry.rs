//! Retry policies: how many attempts an operation gets, how long it pauses
//! after a failed one, and what it reports in the end.

use crate::error::EscrowError;
use crate::operation::{Command, EscrowOperation};
use crate::submitter::SubmissionOutcome;
use vstd::prelude::*;

verus! {

/// Attempts that a release gets.
pub const RELEASE_ATTEMPTS: u32 = 3;

/// Time units that a release pauses after a failed attempt.
pub const RELEASE_DELAY: u64 = 2;

/// The terminal answer of an operation.
#[derive(Debug, PartialEq, Eq)]
pub enum OperationResult {
    Success { transaction_hash: String },
    Failure { reason: EscrowError, attempts_made: u32 },
}

impl OperationResult {
    /// The hash of the confirmed transaction, after a success.
    pub open spec fn hash(self) -> Option<String> {
        match self {
            OperationResult::Success { transaction_hash } => Some(transaction_hash),
            OperationResult::Failure { .. } => None,
        }
    }

    /// The text that reports the failure, after a failure.
    pub open spec fn failure_text(self) -> Option<Seq<char>> {
        match self {
            OperationResult::Success { .. } => None,
            OperationResult::Failure { reason, .. } => Some(reason.message_text()),
        }
    }

    /// The number of attempts that a failed operation made.
    pub open spec fn attempts(self) -> Option<u32> {
        match self {
            OperationResult::Success { .. } => None,
            OperationResult::Failure { attempts_made, .. } => Some(attempts_made),
        }
    }

    /// Whether the operation succeeded.
    pub fn is_success(&self) -> (r: bool)
        ensures
            r == (*self is Success),
    {
        match self {
            OperationResult::Success { .. } => true,
            OperationResult::Failure { .. } => false,
        }
    }

    /// The hash of the confirmed transaction, after a success.
    pub fn confirmed_hash(&self) -> (r: Option<String>)
        ensures
            r == self.hash(),
    {
        match self {
            OperationResult::Success { transaction_hash } => Some(transaction_hash.clone()),
            OperationResult::Failure { .. } => None,
        }
    }

    /// The message that reports the failure, after a failure.
    pub fn failure_message(&self) -> (r: Option<String>)
        ensures
            r is Some <==> self.failure_text() is Some,
            r is Some ==> r->0@ == self.failure_text()->0,
    {
        match self {
            OperationResult::Success { .. } => None,
            OperationResult::Failure { reason, .. } => Some(reason.message()),
        }
    }

    /// The number of attempts that a failed operation made.
    pub fn attempts_made(&self) -> (r: Option<u32>)
        ensures
            r == self.attempts(),
    {
        match self {
            OperationResult::Success { .. } => None,
            OperationResult::Failure { attempts_made, .. } => Some(*attempts_made),
        }
    }
}

impl Clone for OperationResult {
    fn clone(&self) -> (r: Self)
        ensures
            r == *self,
    {
        match self {
            OperationResult::Success { transaction_hash } => OperationResult::Success {
                transaction_hash: transaction_hash.clone(),
            },
            OperationResult::Failure { reason, attempts_made } => OperationResult::Failure {
                reason: reason.clone(),
                attempts_made: *attempts_made,
            },
        }
    }
}

/// How submission attempts are repeated.
#[derive(Clone, Copy, Debug, PartialEq, Eq)]
pub enum RetryPolicy {
    /// One attempt; whatever it ends in is reported as it is.
    SingleAttempt,
    /// Up to `max_attempts` attempts, with a pause of `delay` time units
    /// after each one that is not confirmed, whatever the cause.
    BoundedRetry { max_attempts: u32, delay: u64 },
}

/// What follows from the outcome of an attempt.
#[derive(Debug, PartialEq, Eq)]
pub enum Verdict {
    /// The operation is over.
    Finish { result: OperationResult },
    /// Pause for `delay` time units, then see whether an attempt is left.
    Pause { delay: u64 },
}

impl RetryPolicy {
    /// The number of attempts that the policy allows.
    pub open spec fn attempts(self) -> nat {
        match self {
            RetryPolicy::SingleAttempt => 1,
            RetryPolicy::BoundedRetry { max_attempts, .. } => max_attempts as nat,
        }
    }

    /// The pause after an attempt that was not confirmed.
    pub open spec fn pause(self) -> nat {
        match self {
            RetryPolicy::SingleAttempt => 0,
            RetryPolicy::BoundedRetry { delay, .. } => delay as nat,
        }
    }

    /// The policy of an operation: funding is attempted once, releasing is
    /// retried.
    pub open spec fn of(operation: EscrowOperation) -> RetryPolicy {
        match operation {
            EscrowOperation::Fund { .. } => RetryPolicy::SingleAttempt,
            EscrowOperation::Release { .. } => RetryPolicy::BoundedRetry {
                max_attempts: RELEASE_ATTEMPTS,
                delay: RELEASE_DELAY,
            },
        }
    }

    /// The policy of the operation that a command asks for.
    pub open spec fn of_command(command: Command) -> RetryPolicy {
        match command {
            Command::Fund { .. } => RetryPolicy::SingleAttempt,
            Command::Release { .. } => RetryPolicy::BoundedRetry {
                max_attempts: RELEASE_ATTEMPTS,
                delay: RELEASE_DELAY,
            },
        }
    }

    /// What follows from the outcome of attempt number `attempt`, counted
    /// from one. A confirmed attempt ends the operation in success. Any
    /// other outcome ends a single-attempt operation in the failure that the
    /// outcome amounts to, and sends a retried one into its pause.
    pub open spec fn verdict(self, attempt: u32, outcome: SubmissionOutcome) -> Verdict {
        match outcome {
            SubmissionOutcome::Confirmed { transaction_hash } => Verdict::Finish {
                result: OperationResult::Success { transaction_hash },
            },
            _ => match self {
                RetryPolicy::SingleAttempt => Verdict::Finish {
                    result: OperationResult::Failure {
                        reason: outcome.failure(),
                        attempts_made: attempt,
                    },
                },
                RetryPolicy::BoundedRetry { delay, .. } => Verdict::Pause { delay },
            },
        }
    }

    /// What is reported once `attempts_made` attempts are spent and none is
    /// left; nothing while an attempt is left.
    pub open spec fn exhausted(self, attempts_made: u32) -> Option<OperationResult> {
        if attempts_made < self.attempts() {
            None
        } else {
            Some(
                OperationResult::Failure { reason: EscrowError::RetriesExhausted, attempts_made },
            )
        }
    }

    /// The policy that attempts once.
    pub fn single_attempt() -> (r: RetryPolicy)
        ensures
            r == RetryPolicy::SingleAttempt,
            r.attempts() == 1,
    {
        RetryPolicy::SingleAttempt
    }

    /// The policy that attempts up to three times and pauses for two time
    /// units after each failed attempt.
    pub fn bounded_retry() -> (r: RetryPolicy)
        ensures
            r == (RetryPolicy::BoundedRetry { max_attempts: RELEASE_ATTEMPTS, delay: RELEASE_DELAY }),
            r.attempts() == 3,
            r.pause() == 2,
    {
        RetryPolicy::BoundedRetry { max_attempts: RELEASE_ATTEMPTS, delay: RELEASE_DELAY }
    }

    /// Selects the policy of an operation.
    pub fn for_operation(operation: &EscrowOperation) -> (r: RetryPolicy)
        ensures
            r == RetryPolicy::of(*operation),
    {
        match operation {
            EscrowOperation::Fund { .. } => RetryPolicy::single_attempt(),
            EscrowOperation::Release { .. } => RetryPolicy::bounded_retry(),
        }
    }

    /// Selects the policy of the operation that a command asks for.
    pub fn for_command(command: &Command) -> (r: RetryPolicy)
        ensures
            r == RetryPolicy::of_command(*command),
    {
        match command {
            Command::Fund { .. } => RetryPolicy::single_attempt(),
            Command::Release { .. } => RetryPolicy::bounded_retry(),
        }
    }

    /// The number of attempts that the policy allows.
    pub fn max_attempts(&self) -> (r: u32)
        ensures
            r == self.attempts(),
    {
        match self {
            RetryPolicy::SingleAttempt => 1,
            RetryPolicy::BoundedRetry { max_attempts, .. } => *max_attempts,
        }
    }

    /// The pause after an attempt that was not confirmed.
    pub fn delay(&self) -> (r: u64)
        ensures
            r == self.pause(),
    {
        match self {
            RetryPolicy::SingleAttempt => 0,
            RetryPolicy::BoundedRetry { delay, .. } => *delay,
        }
    }

    /// Decides what follows from the outcome of attempt number `attempt`.
    pub fn assess(&self, attempt: u32, outcome: &SubmissionOutcome) -> (r: Verdict)
        ensures
            r == self.verdict(attempt, *outcome),
    {
        match outcome {
            SubmissionOutcome::Confirmed { transaction_hash } => Verdict::Finish {
                result: OperationResult::Success { transaction_hash: transaction_hash.clone() },
            },
            SubmissionOutcome::Dropped => match self {
                RetryPolicy::SingleAttempt => Verdict::Finish {
                    result: OperationResult::Failure {
                        reason: EscrowError::Dropped,
                        attempts_made: attempt,
                    },
                },
                RetryPolicy::BoundedRetry { delay, .. } => Verdict::Pause { delay: *delay },
            },
            SubmissionOutcome::SubmissionFailed { reason } => match self {
                RetryPolicy::SingleAttempt => Verdict::Finish {
                    result: OperationResult::Failure {
                        reason: EscrowError::SubmissionFailed { reason: reason.clone() },
                        attempts_made: attempt,
                    },
                },
                RetryPolicy::BoundedRetry { delay, .. } => Verdict::Pause { delay: *delay },
            },
        }
    }

    /// Decides, after a pause, whether the attempts are spent.
    pub fn after_pause(&self, attempts_made: u32) -> (r: Option<OperationResult>)
        ensures
            r == self.exhausted(attempts_made),
    {
        if attempts_made < self.max_attempts() {
            None
        } else {
            Some(
                OperationResult::Failure { reason: EscrowError::RetriesExhausted, attempts_made },
            )
        }
    }
}

/// The course that an operation takes: how it ends, how many attempts it
/// made, and for how many time units it paused.
pub struct Course {
    pub result: OperationResult,
    pub attempts: nat,
    pub delay: nat,
}

/// How attempt number `index`, counted from zero, ends according to a record
/// of outcomes. An attempt beyond the end of the record gets no receipt.
pub open spec fn outcome_at(outcomes: Seq<SubmissionOutcome>, index: int) -> SubmissionOutcome {
    if 0 <= index < outcomes.len() {
        outcomes[index]
    } else {
        SubmissionOutcome::Dropped
    }
}

/// The course of an operation that has made `made` attempts, none of them
/// confirmed, and has paused after each of them where the policy pauses.
pub open spec fn course_from(
    policy: RetryPolicy,
    outcomes: Seq<SubmissionOutcome>,
    made: nat,
) -> Course
    decreases policy.attempts() - made,
{
    if made >= policy.attempts() {
        Course {
            result: OperationResult::Failure {
                reason: EscrowError::RetriesExhausted,
                attempts_made: made as u32,
            },
            attempts: made,
            delay: made * policy.pause(),
        }
    } else {
        match policy.verdict((made + 1) as u32, outcome_at(outcomes, made as int)) {
            Verdict::Finish { result } => Course {
                result,
                attempts: made + 1,
                delay: made * policy.pause(),
            },
            Verdict::Pause { .. } => course_from(policy, outcomes, made + 1),
        }
    }
}

/// The course of an operation under a policy, given how its attempts end.
pub open spec fn course(policy: RetryPolicy, outcomes: Seq<SubmissionOutcome>) -> Course {
    course_from(policy, outcomes, 0)
}

proof fn lemma_attempts_bounded_from(
    policy: RetryPolicy,
    outcomes: Seq<SubmissionOutcome>,
    made: nat,
)
    requires
        made <= policy.attempts(),
    ensures
        made <= course_from(policy, outcomes, made).attempts <= policy.attempts(),
    decreases policy.attempts() - made,
{
    if made < policy.attempts() {
        match policy.verdict((made + 1) as u32, outcome_at(outcomes, made as int)) {
            Verdict::Finish { .. } => {},
            Verdict::Pause { .. } => {
                lemma_attempts_bounded_from(policy, outcomes, made + 1);
            },
        }
    }
}

proof fn lemma_confirmed_after_failures(
    policy: RetryPolicy,
    outcomes: Seq<SubmissionOutcome>,
    made: nat,
    failures: nat,
)
    requires
        policy is BoundedRetry,
        made <= failures < policy.attempts(),
        failures < outcomes.len(),
        forall|k: int| made <= k < failures ==> !(#[trigger] outcomes[k] is Confirmed),
        outcomes[failures as int] is Confirmed,
    ensures
        course_from(policy, outcomes, made) == (Course {
            result: OperationResult::Success {
                transaction_hash: outcomes[failures as int]->transaction_hash,
            },
            attempts: failures + 1,
            delay: failures * policy.pause(),
        }),
    decreases failures - made,
{
    if made < failures {
        lemma_confirmed_after_failures(policy, outcomes, made + 1, failures);
    }
}

proof fn lemma_exhausted_after_failures(
    policy: RetryPolicy,
    outcomes: Seq<SubmissionOutcome>,
    made: nat,
)
    requires
        policy is BoundedRetry,
        made <= policy.attempts(),
        forall|k: int| made <= k < policy.attempts() ==> !(#[trigger] outcome_at(outcomes, k) is Confirmed),
    ensures
        course_from(policy, outcomes, made) == (Course {
            result: OperationResult::Failure {
                reason: EscrowError::RetriesExhausted,
                attempts_made: policy.attempts() as u32,
            },
            attempts: policy.attempts(),
            delay: policy.attempts() * policy.pause(),
        }),
    decreases policy.attempts() - made,
{
    if made < policy.attempts() {
        lemma_exhausted_after_failures(policy, outcomes, made + 1);
    }
}

/// No operation makes more attempts than its policy allows, however its
/// attempts end.
pub proof fn attempts_stay_within_policy(policy: RetryPolicy, outcomes: Seq<SubmissionOutcome>)
    ensures
        course(policy, outcomes).attempts <= policy.attempts(),
{
    lemma_attempts_bounded_from(policy, outcomes, 0);
}

/// The result of an operation that ends with its first attempt.
pub open spec fn surfaced(outcome: SubmissionOutcome) -> OperationResult {
    match outcome {
        SubmissionOutcome::Confirmed { transaction_hash } => OperationResult::Success {
            transaction_hash,
        },
        _ => OperationResult::Failure { reason: outcome.failure(), attempts_made: 1 },
    }
}

/// Under the single-attempt policy an operation makes exactly one attempt,
/// never pauses, and ends as that attempt does.
pub proof fn single_attempt_makes_one_attempt(outcomes: Seq<SubmissionOutcome>)
    ensures
        course(RetryPolicy::SingleAttempt, outcomes).attempts == 1,
        course(RetryPolicy::SingleAttempt, outcomes).delay == 0,
        course(RetryPolicy::SingleAttempt, outcomes).result == surfaced(outcome_at(outcomes, 0)),
{
}

/// Under a retrying policy, an operation whose first `failures` attempts are
/// not confirmed and whose next attempt is, with `failures` below the
/// number of attempts allowed, succeeds with the hash of that attempt, after
/// `failures + 1` attempts and `failures` pauses.
pub proof fn retry_succeeds_after_failures(
    policy: RetryPolicy,
    outcomes: Seq<SubmissionOutcome>,
    failures: nat,
)
    requires
        policy is BoundedRetry,
        failures < policy.attempts(),
        failures < outcomes.len(),
        forall|k: int| 0 <= k < failures ==> !(#[trigger] outcomes[k] is Confirmed),
        outcomes[failures as int] is Confirmed,
    ensures
        course(policy, outcomes) == (Course {
            result: OperationResult::Success {
                transaction_hash: outcomes[failures as int]->transaction_hash,
            },
            attempts: failures + 1,
            delay: failures * policy.pause(),
        }),
{
    lemma_confirmed_after_failures(policy, outcomes, 0, failures);
}

/// Under a retrying policy, an operation none of whose allowed attempts is
/// confirmed fails as exhausted, having made every attempt and paused after
/// each.
pub proof fn retry_is_exhausted_by_failures(policy: RetryPolicy, outcomes: Seq<SubmissionOutcome>)
    requires
        policy is BoundedRetry,
        forall|k: int| 0 <= k < policy.attempts() ==> !(#[trigger] outcome_at(outcomes, k) is Confirmed),
    ensures
        course(policy, outcomes) == (Course {
            result: OperationResult::Failure {
                reason: EscrowError::RetriesExhausted,
                attempts_made: policy.attempts() as u32,
            },
            attempts: policy.attempts(),
            delay: policy.attempts() * policy.pause(),
        }),
{
    lemma_exhausted_after_failures(policy, outcomes, 0);
}

} // verus!
