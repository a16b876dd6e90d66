//! The orchestrator: one state machine per operation. It validates the
//! command, builds the intent once, and then tells its caller what to do
//! next (broadcast, wait for the receipt, pause) until the operation ends
//! in success or failure. The caller does the work and reports each result
//! as an event.
//!
//! An operation is created and validated in one call: a rejected command
//! ends it in `Failure` at once, an accepted one takes it to `Submitting`.
//! From there it rests in `Submitting`, `Awaiting`, and, while the pause
//! after a failed attempt runs, in `Dropped` or `SubmissionFailed`, until
//! it reaches `Success` or `Failure`, where it stays. A confirmation leads
//! to `Success` within the same step; under the single-attempt policy so
//! does a dropped or rejected attempt to `Failure`.

use crate::address::{is_address_text, Address};
use crate::amount::amount_of;
use crate::client::{intent_of, ContractClient, IntentView, TransactionIntent};
use crate::error::EscrowError;
use crate::lifecycle::{phase_of, Phase};
use crate::operation::{validate, validated, Command};
use crate::retry::{
    course, course_from, outcome_at, retry_is_exhausted_by_failures, retry_succeeds_after_failures,
    Course, OperationResult, RetryPolicy, Verdict,
};
use crate::signer::{resolve, signer_account_of};
use crate::submitter::{
    after_broadcast, after_wait, broadcast_outcome, receipt_outcome, BroadcastReply, Receipt,
    SubmissionOutcome,
};
use vstd::prelude::*;

verus! {

/// What the caller reports back after it has done what it was asked to do.
#[derive(Debug, PartialEq, Eq)]
pub enum Event {
    /// The endpoint answered the broadcast.
    Broadcast { reply: BroadcastReply },
    /// The wait for the receipt is over, with or without a receipt.
    Receipt { receipt: Option<Receipt> },
    /// The pause is over.
    DelayElapsed,
}

/// What the caller is asked to do next.
#[derive(Debug, PartialEq, Eq)]
pub enum Action {
    /// Sign the intent and broadcast it.
    Broadcast { intent: TransactionIntent },
    /// Wait for the receipt of the transaction that was just accepted.
    AwaitReceipt,
    /// Pause for the given number of time units.
    Delay { units: u64 },
    /// Nothing is left to do: the operation has ended with this result.
    Finish { result: OperationResult },
}

/// An action as plain values.
pub enum ActionView {
    Broadcast { intent: IntentView },
    AwaitReceipt,
    Delay { units: u64 },
    Finish { result: OperationResult },
}

impl View for Action {
    type V = ActionView;

    open spec fn view(&self) -> ActionView {
        match *self {
            Action::Broadcast { intent } => ActionView::Broadcast { intent: intent@ },
            Action::AwaitReceipt => ActionView::AwaitReceipt,
            Action::Delay { units } => ActionView::Delay { units },
            Action::Finish { result } => ActionView::Finish { result },
        }
    }
}

/// Where an operation stands.
#[derive(Debug)]
enum Stage {
    Submitting { intent: TransactionIntent, attempt: u32 },
    Awaiting { intent: TransactionIntent, attempt: u32 },
    Dropped { intent: TransactionIntent, attempts_made: u32 },
    SubmissionFailed { intent: TransactionIntent, attempts_made: u32, cause: String },
    Success { transaction_hash: String },
    Failure { reason: EscrowError, attempts_made: u32 },
}

/// Where an operation stands, as plain values.
pub enum StageView {
    /// Attempt number `attempt`, counted from one, was asked for; the reply
    /// to its broadcast is outstanding.
    Submitting { intent: IntentView, attempt: u32 },
    /// The broadcast of attempt number `attempt` was accepted; its receipt
    /// is outstanding.
    Awaiting { intent: IntentView, attempt: u32 },
    /// The last of `attempts_made` attempts got no receipt; the pause after
    /// it is running.
    Dropped { intent: IntentView, attempts_made: u32 },
    /// The broadcast of the last of `attempts_made` attempts was rejected for
    /// `cause`; the pause after it is running.
    SubmissionFailed { intent: IntentView, attempts_made: u32, cause: String },
    /// The operation has ended: a transaction was confirmed.
    Success { transaction_hash: String },
    /// The operation has ended without a confirmed transaction.
    Failure { reason: EscrowError, attempts_made: u32 },
}

impl View for Stage {
    type V = StageView;

    closed spec fn view(&self) -> StageView {
        match *self {
            Stage::Submitting { intent, attempt } => StageView::Submitting {
                intent: intent@,
                attempt,
            },
            Stage::Awaiting { intent, attempt } => StageView::Awaiting { intent: intent@, attempt },
            Stage::Dropped { intent, attempts_made } => StageView::Dropped {
                intent: intent@,
                attempts_made,
            },
            Stage::SubmissionFailed { intent, attempts_made, cause } => StageView::SubmissionFailed {
                intent: intent@,
                attempts_made,
                cause,
            },
            Stage::Success { transaction_hash } => StageView::Success { transaction_hash },
            Stage::Failure { reason, attempts_made } => StageView::Failure { reason, attempts_made },
        }
    }
}

/// The state of one operation: its policy and where it stands.
#[derive(Debug)]
pub struct Orchestration {
    policy: RetryPolicy,
    stage: Stage,
}

/// The state of one operation as plain values.
pub struct OrchestrationView {
    pub policy: RetryPolicy,
    pub stage: StageView,
}

impl View for Orchestration {
    type V = OrchestrationView;

    closed spec fn view(&self) -> OrchestrationView {
        OrchestrationView { policy: self.policy, stage: self.stage@ }
    }
}

/// The terminal stage that holds a result.
pub open spec fn ended(result: OperationResult) -> StageView {
    match result {
        OperationResult::Success { transaction_hash } => StageView::Success { transaction_hash },
        OperationResult::Failure { reason, attempts_made } => StageView::Failure {
            reason,
            attempts_made,
        },
    }
}

/// The result that a terminal stage holds; any other stage holds none.
pub open spec fn result_in(stage: StageView) -> Option<OperationResult> {
    match stage {
        StageView::Success { transaction_hash } => Some(
            OperationResult::Success { transaction_hash },
        ),
        StageView::Failure { reason, attempts_made } => Some(
            OperationResult::Failure { reason, attempts_made },
        ),
        _ => None,
    }
}

/// The intent that a stage holds for its attempts; a terminal stage holds
/// none.
pub open spec fn intent_in(stage: StageView) -> Option<IntentView> {
    match stage {
        StageView::Submitting { intent, .. } => Some(intent),
        StageView::Awaiting { intent, .. } => Some(intent),
        StageView::Dropped { intent, .. } => Some(intent),
        StageView::SubmissionFailed { intent, .. } => Some(intent),
        _ => None,
    }
}

/// The state in which an operation starts. A command that fails validation
/// ends the operation at once, with no attempt made; so does a policy that
/// allows no attempt. Otherwise the intent is built and the first attempt
/// is asked for.
pub open spec fn started(contract: Seq<u8>, policy: RetryPolicy, command: Command) -> OrchestrationView {
    OrchestrationView {
        policy,
        stage: match validated(command) {
            Err(reason) => StageView::Failure { reason, attempts_made: 0 },
            Ok(operation) => match policy.exhausted(0) {
                Some(result) => ended(result),
                None => StageView::Submitting { intent: intent_of(contract, operation), attempt: 1 },
            },
        },
    }
}

/// The state in which an operation starts when the signer is resolved for
/// it first. A failure to resolve the signer ends the operation at once, with
/// no attempt made, before the command is looked at.
pub open spec fn admitted(
    key_material: Option<&str>,
    contract: Seq<u8>,
    command: Command,
) -> OrchestrationView {
    let policy = RetryPolicy::of_command(command);
    let unresolved = match key_material {
        None => Some(EscrowError::KeyUnavailable),
        Some(key) => match signer_account_of(key@) {
            None => Some(EscrowError::KeyMalformed),
            Some(_) => None,
        },
    };
    match unresolved {
        Some(reason) => OrchestrationView {
            policy,
            stage: StageView::Failure { reason, attempts_made: 0 },
        },
        None => started(contract, policy, command),
    }
}

/// The stage that follows attempt number `attempt` once its outcome is
/// known: the end of the operation where the policy says so, else the pause
/// that is named after the outcome.
pub open spec fn concluded(
    policy: RetryPolicy,
    intent: IntentView,
    attempt: u32,
    outcome: SubmissionOutcome,
) -> StageView {
    match policy.verdict(attempt, outcome) {
        Verdict::Finish { result } => ended(result),
        Verdict::Pause { .. } => match outcome {
            SubmissionOutcome::SubmissionFailed { reason } => StageView::SubmissionFailed {
                intent,
                attempts_made: attempt,
                cause: reason,
            },
            _ => StageView::Dropped { intent, attempts_made: attempt },
        },
    }
}

/// The stage that follows a pause after `attempts_made` attempts: the next
/// attempt if one is left, else the end of the operation.
pub open spec fn resumed(policy: RetryPolicy, intent: IntentView, attempts_made: u32) -> StageView {
    match policy.exhausted(attempts_made) {
        Some(result) => ended(result),
        None => StageView::Submitting { intent, attempt: (attempts_made + 1) as u32 },
    }
}

/// The state that follows a state on an event. An event that the state does
/// not wait for leaves it as it is.
pub open spec fn step(state: OrchestrationView, event: Event) -> OrchestrationView {
    OrchestrationView {
        policy: state.policy,
        stage: match state.stage {
            StageView::Submitting { intent, attempt } => match event {
                Event::Broadcast { reply } => match after_broadcast(reply) {
                    None => StageView::Awaiting { intent, attempt },
                    Some(outcome) => concluded(state.policy, intent, attempt, outcome),
                },
                _ => state.stage,
            },
            StageView::Awaiting { intent, attempt } => match event {
                Event::Receipt { receipt } => concluded(
                    state.policy,
                    intent,
                    attempt,
                    after_wait(receipt),
                ),
                _ => state.stage,
            },
            StageView::Dropped { intent, attempts_made } => match event {
                Event::DelayElapsed => resumed(state.policy, intent, attempts_made),
                _ => state.stage,
            },
            StageView::SubmissionFailed { intent, attempts_made, .. } => match event {
                Event::DelayElapsed => resumed(state.policy, intent, attempts_made),
                _ => state.stage,
            },
            StageView::Success { .. } => state.stage,
            StageView::Failure { .. } => state.stage,
        },
    }
}

/// What a state asks its caller to do.
pub open spec fn pending(state: OrchestrationView) -> ActionView {
    match state.stage {
        StageView::Submitting { intent, .. } => ActionView::Broadcast { intent },
        StageView::Awaiting { .. } => ActionView::AwaitReceipt,
        StageView::Dropped { .. } => ActionView::Delay { units: state.policy.pause() as u64 },
        StageView::SubmissionFailed { .. } => ActionView::Delay {
            units: state.policy.pause() as u64,
        },
        StageView::Success { transaction_hash } => ActionView::Finish {
            result: OperationResult::Success { transaction_hash },
        },
        StageView::Failure { reason, attempts_made } => ActionView::Finish {
            result: OperationResult::Failure { reason, attempts_made },
        },
    }
}

/// A state is well formed when its attempt count is within its policy:
/// an attempt in progress is one of those allowed, a pause follows an
/// attempt and occurs only under a retrying policy, and a failure reports
/// no more attempts than were allowed.
pub open spec fn well_formed(state: OrchestrationView) -> bool {
    match state.stage {
        StageView::Submitting { attempt, .. } => 1 <= attempt <= state.policy.attempts(),
        StageView::Awaiting { attempt, .. } => 1 <= attempt <= state.policy.attempts(),
        StageView::Dropped { attempts_made, .. } => {
            &&& state.policy is BoundedRetry
            &&& 1 <= attempts_made <= state.policy.attempts()
        },
        StageView::SubmissionFailed { attempts_made, .. } => {
            &&& state.policy is BoundedRetry
            &&& 1 <= attempts_made <= state.policy.attempts()
        },
        StageView::Success { .. } => true,
        StageView::Failure { attempts_made, .. } => attempts_made <= state.policy.attempts(),
    }
}

impl Stage {
    fn ended(result: OperationResult) -> (r: Stage)
        ensures
            r@ == ended(result),
    {
        match result {
            OperationResult::Success { transaction_hash } => Stage::Success { transaction_hash },
            OperationResult::Failure { reason, attempts_made } => Stage::Failure {
                reason,
                attempts_made,
            },
        }
    }

    fn concluded(
        policy: &RetryPolicy,
        intent: TransactionIntent,
        attempt: u32,
        outcome: SubmissionOutcome,
    ) -> (r: Stage)
        ensures
            r@ == concluded(*policy, intent@, attempt, outcome),
    {
        match policy.assess(attempt, &outcome) {
            Verdict::Finish { result } => Stage::ended(result),
            Verdict::Pause { .. } => match outcome {
                SubmissionOutcome::SubmissionFailed { reason } => Stage::SubmissionFailed {
                    intent,
                    attempts_made: attempt,
                    cause: reason,
                },
                _ => Stage::Dropped { intent, attempts_made: attempt },
            },
        }
    }

    fn resumed(policy: &RetryPolicy, intent: TransactionIntent, attempts_made: u32) -> (r: Stage)
        ensures
            r@ == resumed(*policy, intent@, attempts_made),
    {
        match policy.after_pause(attempts_made) {
            Some(result) => Stage::ended(result),
            None => Stage::Submitting { intent, attempt: attempts_made + 1 },
        }
    }
}

impl Orchestration {
    /// Handles a command from the start: resolves the signer for the chain
    /// from the configured key material, binds it to the contract, and starts
    /// the operation under the policy of its kind.
    pub fn handle(
        key_material: Option<&str>,
        chain_id: u64,
        contract: Address,
        command: &Command,
    ) -> (r: (Orchestration, Action))
        ensures
            r.0@ == admitted(key_material, contract@, *command),
            r.1@ == pending(r.0@),
            well_formed(r.0@),
    {
        match resolve(key_material, chain_id) {
            Ok(signer) => Orchestration::begin(&ContractClient::new(signer, contract), command),
            Err(reason) => {
                let state = Orchestration {
                    policy: RetryPolicy::for_command(command),
                    stage: Stage::Failure { reason, attempts_made: 0 },
                };
                let action = state.pending_action();
                (state, action)
            },
        }
    }

    /// Starts the operation that a command asks for, under the policy of
    /// its kind: funding is attempted once, releasing is retried.
    pub fn begin(client: &ContractClient, command: &Command) -> (r: (Orchestration, Action))
        ensures
            r.0@ == started(client.contract(), RetryPolicy::of_command(*command), *command),
            r.1@ == pending(r.0@),
            well_formed(r.0@),
    {
        Orchestration::begin_with(client, command, RetryPolicy::for_command(command))
    }

    /// Starts the operation that a command asks for under a given policy.
    pub fn begin_with(client: &ContractClient, command: &Command, policy: RetryPolicy) -> (r: (
        Orchestration,
        Action,
    ))
        ensures
            r.0@ == started(client.contract(), policy, *command),
            r.1@ == pending(r.0@),
            well_formed(r.0@),
    {
        let stage = match validate(command) {
            Err(reason) => Stage::Failure { reason, attempts_made: 0 },
            Ok(operation) => match policy.after_pause(0) {
                Some(result) => Stage::ended(result),
                None => Stage::Submitting { intent: client.intent_for(&operation), attempt: 1 },
            },
        };
        let state = Orchestration { policy, stage };
        let action = state.pending_action();
        (state, action)
    }

    /// Takes the operation one event further and says what to do next.
    pub fn advance(self, event: Event) -> (r: (Orchestration, Action))
        ensures
            r.0@ == step(self@, event),
            r.1@ == pending(r.0@),
            well_formed(self@) ==> well_formed(r.0@),
    {
        let policy = self.policy;
        let stage = match self.stage {
            Stage::Submitting { intent, attempt } => match event {
                Event::Broadcast { reply } => match broadcast_outcome(reply) {
                    None => Stage::Awaiting { intent, attempt },
                    Some(outcome) => Stage::concluded(&policy, intent, attempt, outcome),
                },
                _ => Stage::Submitting { intent, attempt },
            },
            Stage::Awaiting { intent, attempt } => match event {
                Event::Receipt { receipt } => Stage::concluded(
                    &policy,
                    intent,
                    attempt,
                    receipt_outcome(receipt),
                ),
                _ => Stage::Awaiting { intent, attempt },
            },
            Stage::Dropped { intent, attempts_made } => match event {
                Event::DelayElapsed => Stage::resumed(&policy, intent, attempts_made),
                _ => Stage::Dropped { intent, attempts_made },
            },
            Stage::SubmissionFailed { intent, attempts_made, cause } => match event {
                Event::DelayElapsed => Stage::resumed(&policy, intent, attempts_made),
                _ => Stage::SubmissionFailed { intent, attempts_made, cause },
            },
            Stage::Success { transaction_hash } => Stage::Success { transaction_hash },
            Stage::Failure { reason, attempts_made } => Stage::Failure { reason, attempts_made },
        };
        let state = Orchestration { policy, stage };
        let action = state.pending_action();
        (state, action)
    }

    /// What the operation asks its caller to do. A broadcast is always asked
    /// for with a copy of the one intent that the operation was started with.
    pub fn pending_action(&self) -> (r: Action)
        ensures
            r@ == pending(self@),
    {
        match &self.stage {
            Stage::Submitting { intent, .. } => Action::Broadcast { intent: intent.clone() },
            Stage::Awaiting { .. } => Action::AwaitReceipt,
            Stage::Dropped { .. } => Action::Delay { units: self.policy.delay() },
            Stage::SubmissionFailed { .. } => Action::Delay { units: self.policy.delay() },
            Stage::Success { transaction_hash } => Action::Finish {
                result: OperationResult::Success { transaction_hash: transaction_hash.clone() },
            },
            Stage::Failure { reason, attempts_made } => Action::Finish {
                result: OperationResult::Failure {
                    reason: reason.clone(),
                    attempts_made: *attempts_made,
                },
            },
        }
    }

    /// The result of the operation, once it has ended.
    pub fn result(&self) -> (r: Option<OperationResult>)
        ensures
            r == result_in(self@.stage),
    {
        match &self.stage {
            Stage::Success { transaction_hash } => Some(
                OperationResult::Success { transaction_hash: transaction_hash.clone() },
            ),
            Stage::Failure { reason, attempts_made } => Some(
                OperationResult::Failure { reason: reason.clone(), attempts_made: *attempts_made },
            ),
            _ => None,
        }
    }

    /// The state of its life in which the operation rests.
    pub fn phase(&self) -> (r: Phase)
        ensures
            r == phase_of(self@.stage),
    {
        match &self.stage {
            Stage::Submitting { .. } => Phase::Submitting,
            Stage::Awaiting { .. } => Phase::Awaiting,
            Stage::Dropped { .. } => Phase::Dropped,
            Stage::SubmissionFailed { .. } => Phase::SubmissionFailed,
            Stage::Success { .. } => Phase::Success,
            Stage::Failure { .. } => Phase::Failure,
        }
    }

    /// The policy that the operation runs under.
    pub fn policy(&self) -> (r: RetryPolicy)
        ensures
            r == self@.policy,
    {
        self.policy
    }
}

/// Every operation starts in a well-formed state.
pub proof fn start_is_well_formed(contract: Seq<u8>, policy: RetryPolicy, command: Command)
    ensures
        well_formed(started(contract, policy, command)),
{
}

/// No event takes a well-formed state to one that is not: an operation
/// never counts more attempts than its policy allows.
pub proof fn step_keeps_well_formed(state: OrchestrationView, event: Event)
    requires
        well_formed(state),
    ensures
        well_formed(step(state, event)),
{
}

/// An operation that has ended stays as it is, whatever is reported to it.
pub proof fn end_is_final(state: OrchestrationView, event: Event)
    requires
        result_in(state.stage) is Some,
    ensures
        step(state, event) == state,
        pending(state) == (ActionView::Finish { result: result_in(state.stage)->0 }),
{
}

/// Under the single-attempt policy no event leads into a new attempt or
/// into a pause: once the first broadcast was asked for, none is asked for
/// again.
pub proof fn single_attempt_is_not_repeated(state: OrchestrationView, event: Event)
    requires
        state.policy is SingleAttempt,
        well_formed(state),
    ensures
        step(state, event).stage is Submitting ==> step(state, event) == state,
        !(step(state, event).stage is Dropped),
        !(step(state, event).stage is SubmissionFailed),
{
}

/// An operation keeps the intent that it was started with: every attempt
/// submits the same call.
pub proof fn intent_is_kept(state: OrchestrationView, event: Event)
    ensures
        intent_in(step(state, event).stage) is Some ==> intent_in(step(state, event).stage)
            == intent_in(state.stage),
{
}

/// A failure to resolve the signer is final: the operation ends in it with
/// no attempt made and nothing asked of the caller, whatever the command is.
pub proof fn unresolved_signer_is_final(
    key_material: Option<&str>,
    contract: Seq<u8>,
    command: Command,
)
    requires
        key_material matches Some(key) ==> signer_account_of(key@) is None,
    ensures
        admitted(key_material, contract, command).stage == (StageView::Failure {
            reason: if key_material is None {
                EscrowError::KeyUnavailable
            } else {
                EscrowError::KeyMalformed
            },
            attempts_made: 0,
        }),
        pending(admitted(key_material, contract, command)) is Finish,
{
}

/// Once the signer has resolved, handling a command is starting its
/// operation under the policy of its kind: what holds of every start holds
/// of every command that is handled with a valid key.
pub proof fn resolved_signer_starts_the_operation(
    key_material: Option<&str>,
    contract: Seq<u8>,
    command: Command,
)
    requires
        key_material matches Some(key) && signer_account_of(key@) is Some,
    ensures
        admitted(key_material, contract, command) == started(
            contract,
            RetryPolicy::of_command(command),
            command,
        ),
{
}

/// How an operation went when it was run against a record of outcomes.
#[derive(Debug, PartialEq, Eq)]
pub struct Simulation {
    /// The terminal answer.
    pub result: OperationResult,
    /// How many broadcasts were asked for.
    pub submissions: u32,
    /// For how many time units the operation paused in all.
    pub delay: u128,
}

/// The course of the operation that a command asks for, under a policy,
/// given how its attempts end: a rejected command makes no attempt and does
/// not pause.
pub open spec fn handled_under(
    policy: RetryPolicy,
    command: Command,
    outcomes: Seq<SubmissionOutcome>,
) -> Course {
    match validated(command) {
        Err(reason) => Course {
            result: OperationResult::Failure { reason, attempts_made: 0 },
            attempts: 0,
            delay: 0,
        },
        Ok(_) => course(policy, outcomes),
    }
}

/// The course of the operation that a command asks for under the policy of
/// its kind.
pub open spec fn handled(command: Command, outcomes: Seq<SubmissionOutcome>) -> Course {
    handled_under(RetryPolicy::of_command(command), command, outcomes)
}

/// A fund command whose provider address is not a valid address text ends
/// in the failure `InvalidAddress` with no attempt made and nothing asked
/// of the caller, whatever its amount is and however attempts would have
/// ended.
pub proof fn invalid_address_is_rejected(
    contract: Seq<u8>,
    command: Command,
    outcomes: Seq<SubmissionOutcome>,
)
    requires
        command is Fund,
        !is_address_text(command->provider_address@),
    ensures
        started(contract, RetryPolicy::of_command(command), command).stage == (StageView::Failure {
            reason: EscrowError::InvalidAddress,
            attempts_made: 0,
        }),
        pending(started(contract, RetryPolicy::of_command(command), command)) is Finish,
        handled(command, outcomes) == (Course {
            result: OperationResult::Failure {
                reason: EscrowError::InvalidAddress,
                attempts_made: 0,
            },
            attempts: 0,
            delay: 0,
        }),
        EscrowError::InvalidAddress.message_text() == "InvalidAddress"@,
{
}

/// A fund command with a valid provider address whose amount denotes no
/// quantity (it is malformed, or negative) ends in the failure
/// `InvalidAmount` with no attempt made and nothing asked of the caller.
pub proof fn invalid_amount_is_rejected(
    contract: Seq<u8>,
    command: Command,
    outcomes: Seq<SubmissionOutcome>,
)
    requires
        command is Fund,
        is_address_text(command->provider_address@),
        amount_of(command->amount@) is None,
    ensures
        started(contract, RetryPolicy::of_command(command), command).stage == (StageView::Failure {
            reason: EscrowError::InvalidAmount,
            attempts_made: 0,
        }),
        pending(started(contract, RetryPolicy::of_command(command), command)) is Finish,
        handled(command, outcomes) == (Course {
            result: OperationResult::Failure {
                reason: EscrowError::InvalidAmount,
                attempts_made: 0,
            },
            attempts: 0,
            delay: 0,
        }),
        EscrowError::InvalidAmount.message_text() == "InvalidAmount"@,
{
}

/// A fund command asks for at most one broadcast, however the attempt ends,
/// and never pauses.
pub proof fn fund_is_submitted_at_most_once(command: Command, outcomes: Seq<SubmissionOutcome>)
    requires
        command is Fund,
    ensures
        handled(command, outcomes).attempts <= 1,
        handled(command, outcomes).delay == 0,
{
}

/// A release whose first `failures` attempts are not confirmed, with
/// `failures` below three, and whose next attempt is confirmed succeeds with
/// the hash of that attempt, after `failures + 1` attempts and pauses of
/// `2 * failures` time units in all.
pub proof fn release_succeeds_after_failures(
    command: Command,
    outcomes: Seq<SubmissionOutcome>,
    failures: nat,
)
    requires
        command is Release,
        failures < 3,
        failures < outcomes.len(),
        forall|k: int| 0 <= k < failures ==> !(#[trigger] outcomes[k] is Confirmed),
        outcomes[failures as int] is Confirmed,
    ensures
        handled(command, outcomes) == (Course {
            result: OperationResult::Success {
                transaction_hash: outcomes[failures as int]->transaction_hash,
            },
            attempts: failures + 1,
            delay: 2 * failures,
        }),
{
    let policy = RetryPolicy::of_command(command);
    retry_succeeds_after_failures(policy, outcomes, failures);
    assert(policy.pause() == 2);
    assert(failures * policy.pause() == 2 * failures);
}

/// A release none of whose three attempts is confirmed ends in the failure
/// that reads "exhausted retries", with three attempts made.
pub proof fn release_fails_after_three_failures(command: Command, outcomes: Seq<SubmissionOutcome>)
    requires
        command is Release,
        forall|k: int| 0 <= k < 3 ==> !(#[trigger] outcome_at(outcomes, k) is Confirmed),
    ensures
        handled(command, outcomes).result == (OperationResult::Failure {
            reason: EscrowError::RetriesExhausted,
            attempts_made: 3,
        }),
        handled(command, outcomes).attempts == 3,
        EscrowError::RetriesExhausted.message_text() == "exhausted retries"@,
{
    retry_is_exhausted_by_failures(RetryPolicy::of_command(command), outcomes);
}

/// A state that has asked for `submissions` broadcasts and has paused for
/// `delay` time units is on the way to `goal`.
spec fn on_course(
    state: OrchestrationView,
    submissions: nat,
    delay: nat,
    outcomes: Seq<SubmissionOutcome>,
    goal: Course,
) -> bool {
    let policy = state.policy;
    let pausing = {
        &&& 1 <= submissions <= policy.attempts()
        &&& policy is BoundedRetry
        &&& delay == (submissions - 1) * policy.pause()
        &&& goal == course_from(policy, outcomes, submissions)
    };
    match state.stage {
        StageView::Submitting { attempt, .. } => {
            &&& attempt == submissions + 1
            &&& submissions < policy.attempts()
            &&& delay == submissions * policy.pause()
            &&& goal == course_from(policy, outcomes, submissions)
        },
        StageView::Awaiting { attempt, .. } => {
            &&& attempt == submissions
            &&& 1 <= submissions <= policy.attempts()
            &&& !(outcome_at(outcomes, submissions - 1) is SubmissionFailed)
            &&& delay == (submissions - 1) * policy.pause()
            &&& goal == course_from(policy, outcomes, (submissions - 1) as nat)
        },
        StageView::Dropped { attempts_made, .. } => attempts_made == submissions && pausing,
        StageView::SubmissionFailed { attempts_made, .. } => attempts_made == submissions
            && pausing,
        _ => {
            &&& Some(goal.result) == result_in(state.stage)
            &&& goal.attempts == submissions
            &&& goal.delay == delay
        },
    }
}

/// How far a state is from the end, at most.
spec fn rank(state: OrchestrationView, submissions: nat) -> int {
    let left = state.policy.attempts() - submissions;
    match state.stage {
        StageView::Submitting { .. } => 3 * left,
        StageView::Awaiting { .. } => 3 * left + 2,
        StageView::Dropped { .. } => 3 * left + 1,
        StageView::SubmissionFailed { .. } => 3 * left + 1,
        _ => 0,
    }
}

fn outcome_for(outcomes: &Vec<SubmissionOutcome>, index: u32) -> (r: SubmissionOutcome)
    ensures
        r == outcome_at(outcomes@, index as int),
{
    if (index as usize) < outcomes.len() {
        outcomes[index as usize].clone()
    } else {
        SubmissionOutcome::Dropped
    }
}

/// Runs the operation that a command asks for, under a given policy,
/// against a record of outcomes in place of a network: attempt number `k`
/// ends as the record's entry `k` says, and an attempt beyond the end of the
/// record gets no receipt. The pauses are added up, not waited for.
pub fn simulate_with(
    client: &ContractClient,
    command: &Command,
    policy: RetryPolicy,
    outcomes: &Vec<SubmissionOutcome>,
) -> (r: Simulation)
    ensures
        r.result == handled_under(policy, *command, outcomes@).result,
        r.submissions == handled_under(policy, *command, outcomes@).attempts,
        r.delay == handled_under(policy, *command, outcomes@).delay,
{
    let ghost goal = handled_under(policy, *command, outcomes@);
    let (mut state, mut action) = Orchestration::begin_with(client, command, policy);
    let mut submissions: u32 = 0;
    let mut delay: u128 = 0;
    loop
        invariant
            goal == handled_under(policy, *command, outcomes@),
            state@.policy == policy,
            action@ == pending(state@),
            on_course(state@, submissions as nat, delay as nat, outcomes@, goal),
        decreases rank(state@, submissions as nat),
    {
        let ghost pause: int = policy.pause() as int;
        let ghost made: int = submissions as int;
        let event = match action {
            Action::Finish { result } => {
                return Simulation { result, submissions, delay };
            },
            Action::Broadcast { .. } => {
                let outcome = outcome_for(outcomes, submissions);
                submissions = submissions + 1;
                Event::Broadcast { reply: outcome.to_reply() }
            },
            Action::AwaitReceipt => {
                let outcome = outcome_for(outcomes, submissions - 1);
                Event::Receipt { receipt: outcome.to_receipt() }
            },
            Action::Delay { units } => {
                assert((made - 1) * pause + pause == made * pause) by (nonlinear_arith);
                assert(made * pause <= 0xffff_ffff * 0xffff_ffff_ffff_ffff) by (nonlinear_arith)
                    requires
                        0 <= made <= 0xffff_ffff,
                        0 <= pause <= 0xffff_ffff_ffff_ffff,
                ;
                delay = delay + units as u128;
                Event::DelayElapsed
            },
        };
        let next = state.advance(event);
        state = next.0;
        action = next.1;
    }
}

/// Runs the operation that a command asks for, under the policy of its
/// kind, against a record of outcomes in place of a network.
pub fn simulate(client: &ContractClient, command: &Command, outcomes: &Vec<SubmissionOutcome>) -> (r:
    Simulation)
    ensures
        r.result == handled(*command, outcomes@).result,
        r.submissions == handled(*command, outcomes@).attempts,
        r.delay == handled(*command, outcomes@).delay,
{
    simulate_with(client, command, RetryPolicy::for_command(command), outcomes)
}

} // verus!
