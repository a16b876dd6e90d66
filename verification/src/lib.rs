//! Client-side submission protocol of a payment escrow: validation of
//! commands, construction of contract calls, classification of submission
//! outcomes, retry policies, and the per-operation state machine that ties
//! them together. Network and key-store access stay with the caller, who
//! performs the actions this library asks for and reports back what happened.

pub mod address;
pub mod amount;
pub mod calldata;
pub mod client;
pub mod error;
pub mod lifecycle;
pub mod operation;
pub mod orchestrator;
pub mod retry;
pub mod signer;
pub mod submitter;

pub use address::Address;
pub use amount::{parse_amount, ParsedUnits, TokenAmount};
pub use client::{ContractClient, TransactionIntent};
pub use error::EscrowError;
pub use lifecycle::Phase;
pub use operation::{validate, Command, EscrowOperation};
pub use orchestrator::{Action, Event, Orchestration};
pub use retry::{OperationResult, RetryPolicy, Verdict};
pub use signer::{resolve, SigningCapability, DEPLOYMENT_CHAIN_ID};
pub use submitter::{classify, BroadcastReply, Receipt, SubmissionOutcome};
