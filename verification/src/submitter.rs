//! One submission attempt: broadcast a transaction, then wait for its
//! receipt. This module classifies what came back; it sends nothing, keeps
//! nothing between attempts, and never retries.

use crate::error::EscrowError;
use vstd::prelude::*;

verus! {

/// What the endpoint answered to the broadcast of a signed transaction.
#[derive(Debug, PartialEq, Eq)]
pub enum BroadcastReply {
    /// The endpoint took the transaction; it is now pending.
    Accepted,
    /// The endpoint refused the transaction.
    Rejected { reason: String },
}

/// Confirmation that a transaction was included in a block.
#[derive(Debug, PartialEq, Eq)]
pub struct Receipt {
    pub transaction_hash: String,
    /// Whether the transaction executed successfully on chain. Recorded, but
    /// not consulted when the attempt is classified.
    pub succeeded: bool,
}

/// How one submission attempt ended.
#[derive(Debug, PartialEq, Eq)]
pub enum SubmissionOutcome {
    /// A receipt was obtained.
    Confirmed { transaction_hash: String },
    /// The transaction was broadcast but no receipt was obtained.
    Dropped,
    /// The endpoint rejected the broadcast.
    SubmissionFailed { reason: String },
}

/// The outcome that a broadcast reply settles by itself: a rejection ends
/// the attempt, an acceptance leaves it open until the wait is over.
pub open spec fn after_broadcast(reply: BroadcastReply) -> Option<SubmissionOutcome> {
    match reply {
        BroadcastReply::Accepted => None,
        BroadcastReply::Rejected { reason } => Some(SubmissionOutcome::SubmissionFailed { reason }),
    }
}

/// The outcome of an attempt whose broadcast was accepted, once the wait for
/// the receipt is over. A receipt confirms the attempt whatever its
/// execution status says.
pub open spec fn after_wait(receipt: Option<Receipt>) -> SubmissionOutcome {
    match receipt {
        Some(found) => SubmissionOutcome::Confirmed { transaction_hash: found.transaction_hash },
        None => SubmissionOutcome::Dropped,
    }
}

/// The outcome of a whole attempt. The receipt counts only where the
/// broadcast was accepted.
pub open spec fn submission_outcome(
    reply: BroadcastReply,
    receipt: Option<Receipt>,
) -> SubmissionOutcome {
    match after_broadcast(reply) {
        Some(outcome) => outcome,
        None => after_wait(receipt),
    }
}

/// Classifies the reply to a broadcast.
pub fn broadcast_outcome(reply: BroadcastReply) -> (r: Option<SubmissionOutcome>)
    ensures
        r == after_broadcast(reply),
{
    match reply {
        BroadcastReply::Accepted => None,
        BroadcastReply::Rejected { reason } => Some(SubmissionOutcome::SubmissionFailed { reason }),
    }
}

/// Classifies the end of the wait for a receipt.
pub fn receipt_outcome(receipt: Option<Receipt>) -> (r: SubmissionOutcome)
    ensures
        r == after_wait(receipt),
{
    match receipt {
        Some(found) => SubmissionOutcome::Confirmed { transaction_hash: found.transaction_hash },
        None => SubmissionOutcome::Dropped,
    }
}

/// Classifies a whole attempt from the reply to its broadcast and from what
/// the wait for the receipt yielded.
pub fn classify(reply: BroadcastReply, receipt: Option<Receipt>) -> (r: SubmissionOutcome)
    ensures
        r == submission_outcome(reply, receipt),
{
    match broadcast_outcome(reply) {
        Some(outcome) => outcome,
        None => receipt_outcome(receipt),
    }
}

/// The execution status of a receipt has no part in the classification:
/// two receipts for the same transaction confirm alike.
pub proof fn receipt_status_is_not_inspected(first: Receipt, second: Receipt)
    requires
        first.transaction_hash == second.transaction_hash,
    ensures
        after_wait(Some(first)) == after_wait(Some(second)),
        after_wait(Some(first)) is Confirmed,
{
}

/// Every outcome is the classification of the reply and the receipt that it
/// names.
pub proof fn outcome_is_reproduced(outcome: SubmissionOutcome)
    ensures
        submission_outcome(outcome.reply(), outcome.receipt()) == outcome,
{
}

impl SubmissionOutcome {
    /// The failure that an unconfirmed outcome amounts to.
    pub open spec fn failure(self) -> EscrowError {
        match self {
            SubmissionOutcome::SubmissionFailed { reason } => EscrowError::SubmissionFailed {
                reason,
            },
            _ => EscrowError::Dropped,
        }
    }

    /// A broadcast reply that an attempt with this outcome got.
    pub open spec fn reply(self) -> BroadcastReply {
        match self {
            SubmissionOutcome::SubmissionFailed { reason } => BroadcastReply::Rejected { reason },
            _ => BroadcastReply::Accepted,
        }
    }

    /// What the wait for the receipt yielded in an attempt with this outcome.
    pub open spec fn receipt(self) -> Option<Receipt> {
        match self {
            SubmissionOutcome::Confirmed { transaction_hash } => Some(
                Receipt { transaction_hash, succeeded: true },
            ),
            _ => None,
        }
    }

    /// A broadcast reply that leads to this outcome.
    pub fn to_reply(&self) -> (r: BroadcastReply)
        ensures
            r == self.reply(),
    {
        match self {
            SubmissionOutcome::SubmissionFailed { reason } => BroadcastReply::Rejected {
                reason: reason.clone(),
            },
            _ => BroadcastReply::Accepted,
        }
    }

    /// The receipt, if any, that leads to this outcome after an accepted
    /// broadcast.
    pub fn to_receipt(&self) -> (r: Option<Receipt>)
        ensures
            r == self.receipt(),
    {
        match self {
            SubmissionOutcome::Confirmed { transaction_hash } => Some(
                Receipt { transaction_hash: transaction_hash.clone(), succeeded: true },
            ),
            _ => None,
        }
    }

    /// Whether the attempt was confirmed.
    pub fn is_confirmed(&self) -> (r: bool)
        ensures
            r == (*self is Confirmed),
    {
        match self {
            SubmissionOutcome::Confirmed { .. } => true,
            _ => false,
        }
    }
}

impl Clone for SubmissionOutcome {
    fn clone(&self) -> (r: Self)
        ensures
            r == *self,
    {
        match self {
            SubmissionOutcome::Confirmed { transaction_hash } => SubmissionOutcome::Confirmed {
                transaction_hash: transaction_hash.clone(),
            },
            SubmissionOutcome::Dropped => SubmissionOutcome::Dropped,
            SubmissionOutcome::SubmissionFailed { reason } => SubmissionOutcome::SubmissionFailed {
                reason: reason.clone(),
            },
        }
    }
}

} // verus!
