//! The ways in which an escrow operation can fail.

use vstd::prelude::*;

verus! {

/// Why an operation, or one step of it, did not succeed.
#[derive(Debug, PartialEq, Eq)]
pub enum EscrowError {
    /// No key material is configured for the signer.
    KeyUnavailable,
    /// The configured key material is not a valid key.
    KeyMalformed,
    /// The provider address of a command is not a valid address.
    InvalidAddress,
    /// The amount of a command is malformed or negative.
    InvalidAmount,
    /// The endpoint rejected the broadcast of a transaction.
    SubmissionFailed { reason: String },
    /// A transaction was broadcast but no receipt was obtained for it.
    Dropped,
    /// Every attempt that the retry policy allows was spent.
    RetriesExhausted,
}

impl EscrowError {
    /// The text by which the failure is reported.
    pub open spec fn message_text(self) -> Seq<char> {
        match self {
            EscrowError::KeyUnavailable => "KeyUnavailable"@,
            EscrowError::KeyMalformed => "KeyMalformed"@,
            EscrowError::InvalidAddress => "InvalidAddress"@,
            EscrowError::InvalidAmount => "InvalidAmount"@,
            EscrowError::SubmissionFailed { reason } => reason@,
            EscrowError::Dropped => "Dropped"@,
            EscrowError::RetriesExhausted => "exhausted retries"@,
        }
    }

    /// Failures found before anything is sent: they are never retried.
    pub open spec fn is_local(self) -> bool {
        self is KeyUnavailable || self is KeyMalformed || self is InvalidAddress
            || self is InvalidAmount
    }

    /// The text by which the failure is reported.
    pub fn message(&self) -> (r: String)
        ensures
            r@ == self.message_text(),
    {
        match self {
            EscrowError::KeyUnavailable => "KeyUnavailable".to_owned(),
            EscrowError::KeyMalformed => "KeyMalformed".to_owned(),
            EscrowError::InvalidAddress => "InvalidAddress".to_owned(),
            EscrowError::InvalidAmount => "InvalidAmount".to_owned(),
            EscrowError::SubmissionFailed { reason } => reason.clone(),
            EscrowError::Dropped => "Dropped".to_owned(),
            EscrowError::RetriesExhausted => "exhausted retries".to_owned(),
        }
    }

    /// Whether the failure was found before anything was sent.
    pub fn is_validation_failure(&self) -> (r: bool)
        ensures
            r == self.is_local(),
    {
        match self {
            EscrowError::KeyUnavailable => true,
            EscrowError::KeyMalformed => true,
            EscrowError::InvalidAddress => true,
            EscrowError::InvalidAmount => true,
            _ => false,
        }
    }
}

impl Clone for EscrowError {
    fn clone(&self) -> (r: Self)
        ensures
            r == *self,
    {
        match self {
            EscrowError::KeyUnavailable => EscrowError::KeyUnavailable,
            EscrowError::KeyMalformed => EscrowError::KeyMalformed,
            EscrowError::InvalidAddress => EscrowError::InvalidAddress,
            EscrowError::InvalidAmount => EscrowError::InvalidAmount,
            EscrowError::SubmissionFailed { reason } => EscrowError::SubmissionFailed {
                reason: reason.clone(),
            },
            EscrowError::Dropped => EscrowError::Dropped,
            EscrowError::RetriesExhausted => EscrowError::RetriesExhausted,
        }
    }
}

} // verus!
