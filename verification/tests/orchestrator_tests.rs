use onchain_service::orchestrator::{simulate, simulate_with, Simulation};
use onchain_service::{
    resolve, Action, Address, Command, ContractClient, EscrowError, Event, OperationResult,
    Orchestration, Phase, RetryPolicy, SubmissionOutcome, TransactionIntent,
    DEPLOYMENT_CHAIN_ID,
};

const OPERATOR_KEY: &str = "0000000000000000000000000000000000000000000000000000000000000001";
const ESCROW: &str = "0x5FbDB2315678afecb367f032d93F642f64180aa3";
const VALID_PROVIDER: &str = "0xABCDEF0123456789abcdef0123456789ABCD1234";

fn client() -> ContractClient {
    let signer = resolve(Some(OPERATOR_KEY), DEPLOYMENT_CHAIN_ID).expect("valid key");
    ContractClient::new(signer, Address::parse(ESCROW).expect("valid address"))
}

fn fund(job_id: u64, provider_address: &str, amount: &str) -> Command {
    Command::Fund {
        job_id,
        provider_address: provider_address.to_string(),
        amount: amount.to_string(),
    }
}

fn hash(text: &str) -> SubmissionOutcome {
    SubmissionOutcome::Confirmed { transaction_hash: text.to_string() }
}

fn refused(reason: &str) -> SubmissionOutcome {
    SubmissionOutcome::SubmissionFailed { reason: reason.to_string() }
}

fn success(text: &str) -> OperationResult {
    OperationResult::Success { transaction_hash: text.to_string() }
}

fn failure(reason: EscrowError, attempts_made: u32) -> OperationResult {
    OperationResult::Failure { reason, attempts_made }
}

/// What a run against a stub submitter observed.
struct Observed {
    result: OperationResult,
    submitted: Vec<TransactionIntent>,
    delays: Vec<u64>,
}

/// Runs an operation the way a caller does: performs each action against
/// the stub and reports the result back.
fn run_against(
    command: &Command,
    mut stub: impl FnMut(&TransactionIntent) -> SubmissionOutcome,
) -> Observed {
    let (mut state, mut action) = Orchestration::begin(&client(), command);
    let mut submitted = Vec::new();
    let mut delays = Vec::new();
    let mut open: Option<SubmissionOutcome> = None;
    for _ in 0..100 {
        let event = match action {
            Action::Finish { result } => {
                assert_eq!(state.result(), Some(result.clone()));
                return Observed { result, submitted, delays };
            }
            Action::Broadcast { intent } => {
                let outcome = stub(&intent);
                submitted.push(intent);
                let reply = outcome.to_reply();
                open = Some(outcome);
                Event::Broadcast { reply }
            }
            Action::AwaitReceipt => {
                let outcome = open.take().expect("a broadcast precedes the wait");
                Event::Receipt { receipt: outcome.to_receipt() }
            }
            Action::Delay { units } => {
                delays.push(units);
                Event::DelayElapsed
            }
        };
        assert_eq!(state.result(), None);
        let next = state.advance(event);
        state = next.0;
        action = next.1;
    }
    panic!("the operation did not end");
}

fn scripted(outcomes: Vec<SubmissionOutcome>) -> impl FnMut(&TransactionIntent) -> SubmissionOutcome {
    let mut remaining = outcomes.into_iter();
    move |_| remaining.next().unwrap_or(SubmissionOutcome::Dropped)
}

#[test]
fn fund_confirmed_on_first_attempt() {
    let command = fund(42, VALID_PROVIDER, "1.5");
    let observed = run_against(&command, scripted(vec![hash("0xdead")]));
    assert_eq!(observed.result, success("0xdead"));
    assert_eq!(observed.submitted.len(), 1);
    assert!(observed.delays.is_empty());
    assert_eq!(observed.submitted[0], client().build_fund(42, VALID_PROVIDER, "1.5").unwrap());
    assert_eq!(
        simulate(&client(), &command, &vec![hash("0xdead")]),
        Simulation { result: success("0xdead"), submissions: 1, delay: 0 }
    );
}

#[test]
fn release_confirmed_on_third_attempt() {
    let command = Command::Release { job_id: 7 };
    let script = vec![SubmissionOutcome::Dropped, SubmissionOutcome::Dropped, hash("0xbeef")];
    let observed = run_against(&command, scripted(script.clone()));
    assert_eq!(observed.result, success("0xbeef"));
    assert_eq!(observed.submitted.len(), 3);
    assert_eq!(observed.submitted.len() - 1, 2);
    assert_eq!(observed.delays, vec![2, 2]);
    assert_eq!(
        simulate(&client(), &command, &script),
        Simulation { result: success("0xbeef"), submissions: 3, delay: 4 }
    );
}

#[test]
fn fund_with_invalid_address_is_not_submitted() {
    let command = fund(1, "not-an-address", "1.0");
    let observed = run_against(&command, |_| panic!("the submitter must not be invoked"));
    assert_eq!(observed.result, failure(EscrowError::InvalidAddress, 0));
    assert!(observed.submitted.is_empty());
    assert!(observed.delays.is_empty());
    match observed.result {
        OperationResult::Failure { reason, .. } => assert_eq!(reason.message(), "InvalidAddress"),
        OperationResult::Success { .. } => panic!("expected a failure"),
    }
}

#[test]
fn invalid_addresses_fail_without_network_calls() {
    let long = "0".repeat(41);
    for provider in ["", "0x", "xyz", "0x1234", long.as_str(), "0XABCDEF0123456789abcdef0123456789ABCD1234"] {
        for amount in ["1.0", "-1", "abc"] {
            let command = fund(9, provider, amount);
            let (state, action) = Orchestration::begin(&client(), &command);
            assert_eq!(action, Action::Finish { result: failure(EscrowError::InvalidAddress, 0) });
            assert_eq!(state.result(), Some(failure(EscrowError::InvalidAddress, 0)));
            assert_eq!(
                simulate(&client(), &command, &vec![hash("0x1")]),
                Simulation { result: failure(EscrowError::InvalidAddress, 0), submissions: 0, delay: 0 }
            );
        }
    }
}

#[test]
fn invalid_amounts_fail_without_network_calls() {
    for amount in ["-1", "-0.5", "abc", "1.2.3", "1e3", "\u{664}"] {
        let command = fund(9, VALID_PROVIDER, amount);
        let observed = run_against(&command, |_| panic!("the submitter must not be invoked"));
        assert_eq!(observed.result, failure(EscrowError::InvalidAmount, 0));
        assert!(observed.submitted.is_empty());
        match observed.result {
            OperationResult::Failure { reason, .. } => assert_eq!(reason.message(), "InvalidAmount"),
            OperationResult::Success { .. } => panic!("expected a failure"),
        }
        assert_eq!(
            simulate(&client(), &command, &vec![hash("0x1")]),
            Simulation { result: failure(EscrowError::InvalidAmount, 0), submissions: 0, delay: 0 }
        );
    }
}

#[test]
fn fund_is_attempted_once_whatever_the_outcome() {
    let command = fund(42, VALID_PROVIDER, "1.5");
    let dropped = run_against(&command, scripted(vec![SubmissionOutcome::Dropped, hash("0x2")]));
    assert_eq!(dropped.result, failure(EscrowError::Dropped, 1));
    assert_eq!(dropped.submitted.len(), 1);
    assert!(dropped.delays.is_empty());
    let rejected = run_against(&command, scripted(vec![refused("nonce too low"), hash("0x2")]));
    assert_eq!(
        rejected.result,
        failure(EscrowError::SubmissionFailed { reason: "nonce too low".to_string() }, 1)
    );
    assert_eq!(rejected.submitted.len(), 1);
    let confirmed = run_against(&command, scripted(vec![hash("0x1"), hash("0x2")]));
    assert_eq!(confirmed.result, success("0x1"));
    assert_eq!(confirmed.submitted.len(), 1);
}

#[test]
fn release_pauses_two_units_per_failed_attempt() {
    let command = Command::Release { job_id: 7 };
    for failures in 0..3usize {
        let mut script = vec![refused("busy"); failures];
        script.push(hash("0xfeed"));
        let observed = run_against(&command, scripted(script.clone()));
        assert_eq!(observed.result, success("0xfeed"));
        assert_eq!(observed.submitted.len(), failures + 1);
        assert_eq!(observed.delays.iter().sum::<u64>(), 2 * failures as u64);
        let simulation = simulate(&client(), &command, &script);
        assert_eq!(simulation.result, success("0xfeed"));
        assert_eq!(simulation.submissions as usize, failures + 1);
        assert_eq!(simulation.delay, 2 * failures as u128);
    }
}

#[test]
fn release_is_exhausted_after_three_failures() {
    let command = Command::Release { job_id: 7 };
    let script = vec![SubmissionOutcome::Dropped, refused("nonce too low"), SubmissionOutcome::Dropped, hash("0x4")];
    let observed = run_against(&command, scripted(script.clone()));
    assert_eq!(observed.result, failure(EscrowError::RetriesExhausted, 3));
    assert_eq!(observed.submitted.len(), 3);
    assert_eq!(observed.delays, vec![2, 2, 2]);
    match &observed.result {
        OperationResult::Failure { reason, attempts_made } => {
            assert_eq!(reason.message(), "exhausted retries");
            assert_eq!(*attempts_made, 3);
        }
        OperationResult::Success { .. } => panic!("expected a failure"),
    }
    assert_eq!(
        simulate(&client(), &command, &script),
        Simulation { result: failure(EscrowError::RetriesExhausted, 3), submissions: 3, delay: 6 }
    );
}

#[test]
fn permanent_rejections_are_retried_like_any_other() {
    let command = Command::Release { job_id: 7 };
    let script = vec![refused("malformed call"), refused("malformed call"), refused("malformed call")];
    let observed = run_against(&command, scripted(script));
    assert_eq!(observed.result, failure(EscrowError::RetriesExhausted, 3));
    assert_eq!(observed.submitted.len(), 3);
}

#[test]
fn every_attempt_submits_the_same_intent() {
    let command = Command::Release { job_id: 7 };
    let observed = run_against(&command, scripted(vec![]));
    assert_eq!(observed.submitted.len(), 3);
    let expected = client().build_release(7);
    for intent in &observed.submitted {
        assert_eq!(intent, &expected);
        assert_eq!(intent.call_data(), expected.call_data());
    }
}

#[test]
fn attempts_beyond_the_record_get_no_receipt() {
    let command = Command::Release { job_id: 7 };
    assert_eq!(
        simulate(&client(), &command, &Vec::new()),
        Simulation { result: failure(EscrowError::RetriesExhausted, 3), submissions: 3, delay: 6 }
    );
    assert_eq!(
        simulate(&client(), &fund(42, VALID_PROVIDER, "1.5"), &Vec::new()),
        Simulation { result: failure(EscrowError::Dropped, 1), submissions: 1, delay: 0 }
    );
}

#[test]
fn custom_policy_is_followed() {
    let command = Command::Release { job_id: 7 };
    let policy = RetryPolicy::BoundedRetry { max_attempts: 5, delay: 10 };
    let script = vec![SubmissionOutcome::Dropped; 4];
    let mut confirmed_last = script.clone();
    confirmed_last.push(hash("0x5"));
    assert_eq!(
        simulate_with(&client(), &command, policy, &confirmed_last),
        Simulation { result: success("0x5"), submissions: 5, delay: 40 }
    );
    assert_eq!(
        simulate_with(&client(), &command, policy, &script),
        Simulation { result: failure(EscrowError::RetriesExhausted, 5), submissions: 5, delay: 50 }
    );
}

#[test]
fn policy_without_attempts_fails_at_once() {
    let command = Command::Release { job_id: 7 };
    let policy = RetryPolicy::BoundedRetry { max_attempts: 0, delay: 2 };
    let (state, action) = Orchestration::begin_with(&client(), &command, policy);
    assert_eq!(action, Action::Finish { result: failure(EscrowError::RetriesExhausted, 0) });
    assert_eq!(state.policy(), policy);
    assert_eq!(
        simulate_with(&client(), &command, policy, &vec![hash("0x1")]),
        Simulation { result: failure(EscrowError::RetriesExhausted, 0), submissions: 0, delay: 0 }
    );
}

#[test]
fn largest_policy_delay_does_not_overflow() {
    let command = Command::Release { job_id: 7 };
    let policy = RetryPolicy::BoundedRetry { max_attempts: 3, delay: u64::MAX };
    assert_eq!(
        simulate_with(&client(), &command, policy, &Vec::new()),
        Simulation {
            result: failure(EscrowError::RetriesExhausted, 3),
            submissions: 3,
            delay: 3 * u64::MAX as u128,
        }
    );
}

#[test]
fn steps_of_a_retried_release() {
    let (state, action) = Orchestration::begin(&client(), &Command::Release { job_id: 7 });
    assert_eq!(state.policy(), RetryPolicy::bounded_retry());
    assert_eq!(state.phase(), Phase::Submitting);
    assert_eq!(action, Action::Broadcast { intent: client().build_release(7) });
    let (state, action) = state.advance(Event::Broadcast {
        reply: onchain_service::BroadcastReply::Rejected { reason: "busy".to_string() },
    });
    assert_eq!(state.phase(), Phase::SubmissionFailed);
    assert_eq!(action, Action::Delay { units: 2 });
    let (state, action) = state.advance(Event::DelayElapsed);
    assert_eq!(state.phase(), Phase::Submitting);
    assert_eq!(action, Action::Broadcast { intent: client().build_release(7) });
    let (state, action) = state.advance(Event::Broadcast { reply: onchain_service::BroadcastReply::Accepted });
    assert_eq!(state.phase(), Phase::Awaiting);
    assert_eq!(action, Action::AwaitReceipt);
    let (state, action) = state.advance(Event::Receipt { receipt: None });
    assert_eq!(state.phase(), Phase::Dropped);
    assert_eq!(action, Action::Delay { units: 2 });
    let (state, action) = state.advance(Event::DelayElapsed);
    assert_eq!(action, Action::Broadcast { intent: client().build_release(7) });
    let (state, action) = state.advance(Event::Broadcast { reply: onchain_service::BroadcastReply::Accepted });
    assert_eq!(action, Action::AwaitReceipt);
    let receipt = onchain_service::Receipt { transaction_hash: "0xbeef".to_string(), succeeded: false };
    let (state, action) = state.advance(Event::Receipt { receipt: Some(receipt) });
    assert_eq!(state.phase(), Phase::Success);
    assert_eq!(action, Action::Finish { result: success("0xbeef") });
    assert_eq!(state.result(), Some(success("0xbeef")));
}

#[test]
fn steps_of_a_failed_funding() {
    let command = fund(42, VALID_PROVIDER, "1.5");
    let (state, _) = Orchestration::begin(&client(), &command);
    assert_eq!(state.phase(), Phase::Submitting);
    let (state, action) = state.advance(Event::Broadcast { reply: onchain_service::BroadcastReply::Accepted });
    assert_eq!(state.phase(), Phase::Awaiting);
    assert_eq!(action, Action::AwaitReceipt);
    let (state, action) = state.advance(Event::Receipt { receipt: None });
    assert_eq!(state.phase(), Phase::Failure);
    assert_eq!(action, Action::Finish { result: failure(EscrowError::Dropped, 1) });
    let (rejected, _) = Orchestration::begin(&client(), &fund(1, "not-an-address", "1.0"));
    assert_eq!(rejected.phase(), Phase::Failure);
}

#[test]
fn unexpected_events_change_nothing() {
    let (state, _) = Orchestration::begin(&client(), &Command::Release { job_id: 7 });
    let (state, action) = state.advance(Event::DelayElapsed);
    assert_eq!(action, Action::Broadcast { intent: client().build_release(7) });
    let (state, action) = state.advance(Event::Receipt { receipt: None });
    assert_eq!(action, Action::Broadcast { intent: client().build_release(7) });
    let (state, action) = state.advance(Event::Broadcast { reply: onchain_service::BroadcastReply::Accepted });
    assert_eq!(action, Action::AwaitReceipt);
    let (state, action) = state.advance(Event::DelayElapsed);
    assert_eq!(action, Action::AwaitReceipt);
    let (state, action) = state.advance(Event::Broadcast { reply: onchain_service::BroadcastReply::Accepted });
    assert_eq!(action, Action::AwaitReceipt);
    assert_eq!(state.pending_action(), Action::AwaitReceipt);
}

#[test]
fn finished_operations_stay_finished() {
    let (state, action) = Orchestration::begin(&client(), &fund(1, "not-an-address", "1.0"));
    assert_eq!(action, Action::Finish { result: failure(EscrowError::InvalidAddress, 0) });
    let (state, action) = state.advance(Event::DelayElapsed);
    assert_eq!(action, Action::Finish { result: failure(EscrowError::InvalidAddress, 0) });
    let (state, action) = state.advance(Event::Broadcast { reply: onchain_service::BroadcastReply::Accepted });
    assert_eq!(action, Action::Finish { result: failure(EscrowError::InvalidAddress, 0) });
    assert_eq!(state.result(), Some(failure(EscrowError::InvalidAddress, 0)));
}

#[test]
fn missing_key_ends_the_operation_before_validation() {
    let contract = Address::parse(ESCROW).unwrap();
    for command in [fund(42, VALID_PROVIDER, "1.5"), fund(1, "not-an-address", "x"), Command::Release { job_id: 7 }] {
        let (state, action) = Orchestration::handle(None, DEPLOYMENT_CHAIN_ID, contract, &command);
        assert_eq!(action, Action::Finish { result: failure(EscrowError::KeyUnavailable, 0) });
        assert_eq!(state.result(), Some(failure(EscrowError::KeyUnavailable, 0)));
        assert_eq!(state.policy(), RetryPolicy::for_command(&command));
    }
}

#[test]
fn malformed_key_ends_the_operation_before_validation() {
    let contract = Address::parse(ESCROW).unwrap();
    let command = Command::Release { job_id: 7 };
    let (state, action) = Orchestration::handle(Some("0xnot-a-key"), DEPLOYMENT_CHAIN_ID, contract, &command);
    assert_eq!(action, Action::Finish { result: failure(EscrowError::KeyMalformed, 0) });
    let (_, action) = state.advance(Event::DelayElapsed);
    assert_eq!(action, Action::Finish { result: failure(EscrowError::KeyMalformed, 0) });
}

#[test]
fn resolved_key_starts_the_operation() {
    let contract = Address::parse(ESCROW).unwrap();
    let command = fund(42, VALID_PROVIDER, "1.5");
    let (state, action) = Orchestration::handle(Some(OPERATOR_KEY), DEPLOYMENT_CHAIN_ID, contract, &command);
    assert_eq!(
        action,
        Action::Broadcast { intent: client().build_fund(42, VALID_PROVIDER, "1.5").unwrap() }
    );
    assert_eq!(state.result(), None);
    let rejected = fund(1, "not-an-address", "1.0");
    let (_, action) = Orchestration::handle(Some(OPERATOR_KEY), DEPLOYMENT_CHAIN_ID, contract, &rejected);
    assert_eq!(action, Action::Finish { result: failure(EscrowError::InvalidAddress, 0) });
}
