//! Configuration: the bounds the engine enforces and the identity of its
//! custodian account.

use vstd::prelude::*;
use crate::hashing::HashAlgorithm;
use crate::types::{AccountId, BlockNumber};

verus! {

/// The parameters a host fixes when it builds the engine.
#[derive(Clone, Copy, Debug, PartialEq, Eq)]
pub struct Config {
    /// Most escrows one account may appear in as maker, and as taker.
    pub max_escrows_per_account: u32,
    /// Fewest blocks between creation and timelock.
    pub min_timelock: BlockNumber,
    /// Most blocks between creation and timelock.
    pub max_timelock: BlockNumber,
    /// The identifier from which the custodian account is derived.
    pub pallet_id: [u8; 8],
    /// The hash that commitments are made with.
    pub hashing: HashAlgorithm,
    /// The floor below which the ledger does not let a preserved account fall.
    pub existential_deposit: u128,
}

/// The account that `sp_runtime`'s `AccountIdConversion` derives for the
/// pallet with identifier `pallet_id`.
pub uninterp spec fn sovereign_account(pallet_id: Seq<u8>) -> AccountId;

/// Calls `AccountIdConversion::into_account_truncating` of `sp_runtime` on
/// `frame_support::PalletId(*pallet_id)`. Trusted: the account returned is a
/// function of the eight bytes alone.
#[verifier::external_body]
fn derive_sovereign(pallet_id: &[u8; 8]) -> (account: AccountId)
    ensures
        account == sovereign_account(pallet_id@),
{
    sp_runtime::traits::AccountIdConversion::<u64>::into_account_truncating(
        &frame_support::PalletId(*pallet_id),
    )
}

impl Config {
    /// The custodian: the account that holds every funded escrow.
    pub fn sovereign(&self) -> (account: AccountId)
        ensures
            account == sovereign_account(self.pallet_id@),
    {
        derive_sovereign(&self.pallet_id)
    }
}

} // verus!
