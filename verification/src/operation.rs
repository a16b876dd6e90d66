//! Commands as they arrive at the boundary, and the operations that valid
//! commands stand for.

use crate::address::{address_bytes, is_address_text, Address};
use crate::amount::{amount_of, parse_amount, TokenAmount};
use crate::error::EscrowError;
use vstd::prelude::*;

verus! {

/// A command as received: the provider address and the amount are still text.
#[derive(Debug, PartialEq, Eq)]
pub enum Command {
    /// Fund the escrow of a job; the amount is in the display denomination.
    Fund { job_id: u64, provider_address: String, amount: String },
    /// Release the escrow of a job to its provider.
    Release { job_id: u64 },
}

/// A validated operation on the escrow of a job.
#[derive(Clone, Copy, Debug, PartialEq, Eq)]
pub enum EscrowOperation {
    Fund { job_id: u64, provider_address: Address, amount: TokenAmount },
    Release { job_id: u64 },
}

/// An operation as plain values.
pub enum OperationView {
    Fund { job_id: u64, provider: Seq<u8>, amount: nat },
    Release { job_id: u64 },
}

impl View for EscrowOperation {
    type V = OperationView;

    open spec fn view(&self) -> OperationView {
        match *self {
            EscrowOperation::Fund { job_id, provider_address, amount } => OperationView::Fund {
                job_id,
                provider: provider_address@,
                amount: amount.value(),
            },
            EscrowOperation::Release { job_id } => OperationView::Release { job_id },
        }
    }
}

/// The operation that a fund command stands for. The address is judged
/// first: a command with a bad address is rejected for the address whatever
/// its amount is.
pub open spec fn validated_fund(job_id: u64, provider_address: Seq<char>, amount: Seq<char>) -> Result<
    OperationView,
    EscrowError,
> {
    if !is_address_text(provider_address) {
        Err(EscrowError::InvalidAddress)
    } else if amount_of(amount) is None {
        Err(EscrowError::InvalidAmount)
    } else {
        Ok(
            OperationView::Fund {
                job_id,
                provider: address_bytes(provider_address),
                amount: amount_of(amount)->0,
            },
        )
    }
}

/// The operation that a command stands for, or why it stands for none.
pub open spec fn validated(command: Command) -> Result<OperationView, EscrowError> {
    match command {
        Command::Fund { job_id, provider_address, amount } => validated_fund(
            job_id,
            provider_address@,
            amount@,
        ),
        Command::Release { job_id } => Ok(OperationView::Release { job_id }),
    }
}

/// Whether a result of validation is the one that `expected` describes.
pub open spec fn agrees(
    r: Result<EscrowOperation, EscrowError>,
    expected: Result<OperationView, EscrowError>,
) -> bool {
    match r {
        Ok(operation) => expected == Ok::<OperationView, EscrowError>(operation@),
        Err(error) => expected == Err::<OperationView, EscrowError>(error),
    }
}

/// Validates the arguments of a fund command.
pub fn validate_fund(job_id: u64, provider_address: &str, amount: &str) -> (r: Result<
    EscrowOperation,
    EscrowError,
>)
    ensures
        agrees(r, validated_fund(job_id, provider_address@, amount@)),
{
    let provider = match Address::parse(provider_address) {
        Some(address) => address,
        None => {
            return Err(EscrowError::InvalidAddress);
        },
    };
    match parse_amount(amount) {
        Some(quantity) => Ok(
            EscrowOperation::Fund { job_id, provider_address: provider, amount: quantity },
        ),
        None => Err(EscrowError::InvalidAmount),
    }
}

/// Validates a command. Nothing is sent anywhere in doing so.
pub fn validate(command: &Command) -> (r: Result<EscrowOperation, EscrowError>)
    ensures
        agrees(r, validated(*command)),
{
    match command {
        Command::Fund { job_id, provider_address, amount } => validate_fund(
            *job_id,
            provider_address.as_str(),
            amount.as_str(),
        ),
        Command::Release { job_id } => Ok(EscrowOperation::Release { job_id: *job_id }),
    }
}

impl EscrowOperation {
    /// The job that the operation is about.
    pub open spec fn job(self) -> u64 {
        match self {
            EscrowOperation::Fund { job_id, .. } => job_id,
            EscrowOperation::Release { job_id } => job_id,
        }
    }

    /// The job that the operation is about.
    pub fn job_id(&self) -> (r: u64)
        ensures
            r == self.job(),
    {
        match self {
            EscrowOperation::Fund { job_id, .. } => *job_id,
            EscrowOperation::Release { job_id } => *job_id,
        }
    }
}

} // verus!
