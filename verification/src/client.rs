//! The contract client: turns operations into transaction intents.

use crate::address::Address;
use crate::amount::TokenAmount;
use crate::calldata::{
    encode_fund_arguments, encode_release_arguments, fund_arguments, release_arguments,
    FUND_ESCROW_SELECTOR, RELEASE_FUNDS_SELECTOR,
};
use crate::error::EscrowError;
use crate::operation::{validate_fund, validated_fund, EscrowOperation, OperationView};
use crate::signer::SigningCapability;
use vstd::prelude::*;

verus! {

/// An unsent, fully specified call of the escrow contract. It cannot be
/// changed once built; a retry submits a copy of it.
#[derive(Debug, PartialEq, Eq)]
pub struct TransactionIntent {
    target: Address,
    selector: [u8; 4],
    arguments: Vec<u8>,
    value: TokenAmount,
}

/// A transaction intent as plain values.
pub struct IntentView {
    pub target: Seq<u8>,
    pub selector: Seq<u8>,
    pub arguments: Seq<u8>,
    pub value: nat,
}

impl IntentView {
    /// The bytes that are sent as the call: the selector, then the arguments.
    pub open spec fn call_data(self) -> Seq<u8> {
        self.selector + self.arguments
    }
}

impl View for TransactionIntent {
    type V = IntentView;

    closed spec fn view(&self) -> IntentView {
        IntentView {
            target: self.target@,
            selector: self.selector@,
            arguments: self.arguments@,
            value: self.value.value(),
        }
    }
}

/// The intent that carries out an operation on the contract at `contract`.
/// Funding attaches the amount as the transferred value; releasing
/// transfers nothing.
pub open spec fn intent_of(contract: Seq<u8>, operation: OperationView) -> IntentView {
    match operation {
        OperationView::Fund { job_id, provider, amount } => IntentView {
            target: contract,
            selector: FUND_ESCROW_SELECTOR@,
            arguments: fund_arguments(job_id, provider),
            value: amount,
        },
        OperationView::Release { job_id } => IntentView {
            target: contract,
            selector: RELEASE_FUNDS_SELECTOR@,
            arguments: release_arguments(job_id),
            value: 0,
        },
    }
}

/// The intent of a fund command, or why the command is rejected.
pub open spec fn fund_intent(
    contract: Seq<u8>,
    job_id: u64,
    provider_address: Seq<char>,
    amount: Seq<char>,
) -> Result<IntentView, EscrowError> {
    match validated_fund(job_id, provider_address, amount) {
        Ok(operation) => Ok(intent_of(contract, operation)),
        Err(error) => Err(error),
    }
}

/// Whether `r` is what building the intent of a fund command yields.
pub open spec fn fund_built(
    contract: Seq<u8>,
    job_id: u64,
    provider_address: Seq<char>,
    amount: Seq<char>,
    r: Result<TransactionIntent, EscrowError>,
) -> bool {
    match r {
        Ok(intent) => fund_intent(contract, job_id, provider_address, amount) == Ok::<
            IntentView,
            EscrowError,
        >(intent@),
        Err(error) => fund_intent(contract, job_id, provider_address, amount) == Err::<
            IntentView,
            EscrowError,
        >(error),
    }
}

/// Building is deterministic: two results of building the intent of the
/// same fund command for the same contract are both intents with the same
/// target, call data and value, or both the same rejection.
pub proof fn fund_intents_agree(
    contract: Seq<u8>,
    job_id: u64,
    provider_address: Seq<char>,
    amount: Seq<char>,
    first: Result<TransactionIntent, EscrowError>,
    second: Result<TransactionIntent, EscrowError>,
)
    requires
        fund_built(contract, job_id, provider_address, amount, first),
        fund_built(contract, job_id, provider_address, amount, second),
    ensures
        first is Ok <==> second is Ok,
        first is Ok ==> first->Ok_0@ == second->Ok_0@,
        first is Ok ==> first->Ok_0@.call_data() == second->Ok_0@.call_data(),
        first is Err ==> first->Err_0 == second->Err_0,
{
}

/// Two intents built for the same operation on the same contract carry the
/// same call data.
pub proof fn intents_agree(
    contract: Seq<u8>,
    operation: EscrowOperation,
    first: TransactionIntent,
    second: TransactionIntent,
)
    requires
        first@ == intent_of(contract, operation@),
        second@ == intent_of(contract, operation@),
    ensures
        first@ == second@,
        first@.call_data() == second@.call_data(),
{
}

impl TransactionIntent {
    /// The contract that is called.
    pub fn target(&self) -> (r: Address)
        ensures
            r@ == self@.target,
    {
        self.target
    }

    /// The selector of the function that is called.
    pub fn selector(&self) -> (r: [u8; 4])
        ensures
            r@ == self@.selector,
    {
        self.selector
    }

    /// The encoded arguments of the call.
    pub fn arguments(&self) -> (r: Vec<u8>)
        ensures
            r@ == self@.arguments,
    {
        self.arguments.clone()
    }

    /// The value that the call transfers.
    pub fn value(&self) -> (r: TokenAmount)
        ensures
            r.value() == self@.value,
    {
        self.value
    }

    /// The bytes that are sent as the call: the selector, then the arguments.
    pub fn call_data(&self) -> (r: Vec<u8>)
        ensures
            r@ == self@.call_data(),
    {
        let mut data: Vec<u8> = Vec::new();
        data.push(self.selector[0]);
        data.push(self.selector[1]);
        data.push(self.selector[2]);
        data.push(self.selector[3]);
        let mut k: usize = 0;
        while k < self.arguments.len()
            invariant
                k <= self.arguments.len(),
                data@ == self.selector@ + self.arguments@.subrange(0, k as int),
            decreases self.arguments.len() - k,
        {
            data.push(self.arguments[k]);
            k = k + 1;
        }
        data
    }
}

impl Clone for TransactionIntent {
    fn clone(&self) -> (r: Self)
        ensures
            r@ == self@,
    {
        TransactionIntent {
            target: self.target,
            selector: self.selector,
            arguments: self.arguments.clone(),
            value: self.value,
        }
    }
}

/// Binds a signing capability to the escrow contract of a deployment.
#[derive(Debug)]
pub struct ContractClient {
    signer: SigningCapability,
    contract: Address,
}

impl ContractClient {
    /// The address of the escrow contract.
    pub closed spec fn contract(&self) -> Seq<u8> {
        self.contract@
    }

    /// The capability that signs for this client.
    pub closed spec fn signer(&self) -> SigningCapability {
        self.signer
    }

    /// A client that signs with `signer` and calls the contract at
    /// `contract`. The capability passes into the client.
    pub fn new(signer: SigningCapability, contract: Address) -> (r: ContractClient)
        ensures
            r.signer() == signer,
            r.contract() == contract@,
    {
        ContractClient { signer, contract }
    }

    /// The address of the escrow contract.
    pub fn contract_address(&self) -> (r: Address)
        ensures
            r@ == self.contract(),
    {
        self.contract
    }

    /// The account that signs for this client.
    pub fn signer_account(&self) -> (r: Address)
        ensures
            r == self.signer().account,
    {
        self.signer.account
    }

    /// The chain that this client signs for.
    pub fn chain_id(&self) -> (r: u64)
        ensures
            r == self.signer().chain_id,
    {
        self.signer.chain_id
    }

    /// Builds the intent that carries out a validated operation.
    pub fn intent_for(&self, operation: &EscrowOperation) -> (r: TransactionIntent)
        ensures
            r@ == intent_of(self.contract(), operation@),
    {
        match operation {
            EscrowOperation::Fund { job_id, provider_address, amount } => TransactionIntent {
                target: self.contract,
                selector: FUND_ESCROW_SELECTOR,
                arguments: encode_fund_arguments(*job_id, provider_address),
                value: *amount,
            },
            EscrowOperation::Release { job_id } => TransactionIntent {
                target: self.contract,
                selector: RELEASE_FUNDS_SELECTOR,
                arguments: encode_release_arguments(*job_id),
                value: TokenAmount::zero(),
            },
        }
    }

    /// Builds the intent that funds the escrow of a job: validates the
    /// provider address, then the amount, and attaches the amount as the
    /// transferred value.
    pub fn build_fund(&self, job_id: u64, provider_address: &str, amount: &str) -> (r: Result<
        TransactionIntent,
        EscrowError,
    >)
        ensures
            fund_built(self.contract(), job_id, provider_address@, amount@, r),
    {
        match validate_fund(job_id, provider_address, amount) {
            Ok(operation) => Ok(self.intent_for(&operation)),
            Err(error) => Err(error),
        }
    }

    /// Builds the intent that releases the escrow of a job. It transfers no
    /// value; every job identifier is in range.
    pub fn build_release(&self, job_id: u64) -> (r: TransactionIntent)
        ensures
            r@ == intent_of(self.contract(), OperationView::Release { job_id }),
    {
        self.intent_for(&EscrowOperation::Release { job_id })
    }
}

} // verus!
