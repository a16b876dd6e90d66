//! Resolution of the signing capability from configured key material.

use crate::address::Address;
use crate::error::EscrowError;
use vstd::prelude::*;

verus! {

/// Chain identifier of the network that the service is deployed on.
pub const DEPLOYMENT_CHAIN_ID: u64 = 80001;

/// A handle on the right to sign for one account on one chain. It names the
/// account and the chain and holds no key material.
#[derive(Debug, PartialEq, Eq)]
pub struct SigningCapability {
    pub account: Address,
    pub chain_id: u64,
}

/// The account that a key text unlocks, as `ethers::signers::LocalWallet`
/// derives it; nothing where the text is no valid key.
pub uninterp spec fn signer_account_of(key: Seq<char>) -> Option<Seq<u8>>;

/// Calls `str::parse` for `ethers::signers::LocalWallet` and, on success,
/// `Signer::address` on the wallet.
///
/// Trusted: whether the parse succeeds, and which address the wallet then
/// has, depend on the text alone.
#[verifier::external_body]
fn signer_account(key: &str) -> (r: Option<[u8; 20]>)
    ensures
        r is Some <==> signer_account_of(key@) is Some,
        r matches Some(bytes) ==> bytes@ == signer_account_of(key@)->0,
{
    match key.parse::<ethers::signers::LocalWallet>() {
        Ok(wallet) => Some(ethers::signers::Signer::address(&wallet).0),
        Err(_) => None,
    }
}

/// What resolving the signer yields for given key material and chain.
pub open spec fn resolution(
    key_material: Option<&str>,
    chain_id: u64,
    r: Result<SigningCapability, EscrowError>,
) -> bool {
    match key_material {
        None => r == Err::<SigningCapability, EscrowError>(EscrowError::KeyUnavailable),
        Some(key) => match signer_account_of(key@) {
            None => r == Err::<SigningCapability, EscrowError>(EscrowError::KeyMalformed),
            Some(account) => {
                &&& r matches Ok(capability)
                &&& capability.account@ == account
                &&& capability.chain_id == chain_id
            },
        },
    }
}

/// Resolves the signing capability for a chain from the configured key
/// material, if any is configured.
pub fn resolve(key_material: Option<&str>, chain_id: u64) -> (r: Result<
    SigningCapability,
    EscrowError,
>)
    ensures
        resolution(key_material, chain_id, r),
{
    match key_material {
        None => Err(EscrowError::KeyUnavailable),
        Some(key) => match signer_account(key) {
            None => Err(EscrowError::KeyMalformed),
            Some(bytes) => Ok(SigningCapability { account: Address { bytes }, chain_id }),
        },
    }
}

impl SigningCapability {
    /// The account that signs.
    pub fn account(&self) -> (r: Address)
        ensures
            r == self.account,
    {
        self.account
    }

    /// The chain that the capability is bound to.
    pub fn chain_id(&self) -> (r: u64)
        ensures
            r == self.chain_id,
    {
        self.chain_id
    }
}

} // verus!
