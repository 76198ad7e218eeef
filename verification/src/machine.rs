//! The state machine of one escrow record.
//!
//! Each function here decides one edge from a record and the facts of the
//! moment (who calls, the block height, the digest of a preimage). It touches
//! neither store nor ledger: it answers with the custodial move the edge is
//! chartered to perform, or with the error that forbids the edge.
//!
//! ```text
//! Created --fund--------------------> Active
//! Created --cancel before funding---> Cancelled
//! Active  --complete----------------> Completed
//! Active  --cancel after timelock---> Cancelled
//! ```

use vstd::prelude::*;
use crate::types::{
    same_digest, AccountId, AssetType, BlockNumber, Error, EscrowDetails, EscrowState,
    Preservation, Record, Transfer,
};

verus! {

/// A state that no edge leaves.
pub open spec fn is_terminal(state: EscrowState) -> bool {
    state is Completed || state is Cancelled
}

/// A state in which the commitment is still open.
pub open spec fn is_live(state: EscrowState) -> bool {
    state is Created || state is Active
}

/// The four edges of the lifecycle.
pub open spec fn legal_edge(from: EscrowState, to: EscrowState) -> bool {
    ||| from is Created && to is Active
    ||| from is Created && to is Cancelled
    ||| from is Active && to is Completed
    ||| from is Active && to is Cancelled
}

/// `record` moved to `state`, everything else as it was.
pub open spec fn with_state(record: Record, state: EscrowState) -> Record {
    Record { state, ..record }
}

/// Whether `timelock` lies in the window allowed for a record created at `now`.
pub open spec fn timelock_in_bounds(
    now: BlockNumber,
    min: BlockNumber,
    max: BlockNumber,
    timelock: BlockNumber,
) -> bool {
    now + min <= timelock <= now + max
}

/// The checks on the terms of a new escrow that need no store: the parties
/// differ, the amount is positive, the timelock is in its window.
pub open spec fn terms_check(
    maker: AccountId,
    taker: AccountId,
    amount: u128,
    now: BlockNumber,
    min: BlockNumber,
    max: BlockNumber,
    timelock: BlockNumber,
) -> Result<(), Error> {
    if maker == taker {
        Err(Error::InvalidTaker)
    } else if amount == 0 {
        Err(Error::InvalidAsset)
    } else if !timelock_in_bounds(now, min, max, timelock) {
        Err(Error::InvalidTimelock)
    } else {
        Ok(())
    }
}

/// Funding: the maker, on a `Created` record, before the timelock, for an
/// asset that can be moved. The move takes the amount from the maker, who
/// must be preserved, to the custodian.
pub open spec fn funding(
    record: Record,
    caller: AccountId,
    now: BlockNumber,
    custodian: AccountId,
) -> Result<Transfer, Error> {
    if caller != record.maker {
        Err(Error::NotAuthorized)
    } else if !(record.state is Created) {
        Err(Error::InvalidEscrowState)
    } else if now >= record.timelock {
        Err(Error::TimelockExpired)
    } else if record.asset_type is Nft {
        Err(Error::InvalidAsset)
    } else {
        Ok(
            Transfer {
                asset: record.asset_type,
                from: record.maker,
                to: custodian,
                amount: record.amount,
                preservation: Preservation::Preserve,
            },
        )
    }
}

/// Completion: anyone, on an `Active` record, before the timelock, with a
/// preimage whose digest `preimage_digest` is the commitment. The move
/// empties the record's amount from the custodian to the taker.
pub open spec fn completion(
    record: Record,
    now: BlockNumber,
    preimage_digest: Seq<u8>,
    custodian: AccountId,
) -> Result<Transfer, Error> {
    if !(record.state is Active) {
        Err(Error::InvalidEscrowState)
    } else if now >= record.timelock {
        Err(Error::TimelockExpired)
    } else if preimage_digest != record.secret_hash {
        Err(Error::InvalidSecret)
    } else {
        Ok(
            Transfer {
                asset: record.asset_type,
                from: custodian,
                to: record.taker,
                amount: record.amount,
                preservation: Preservation::Expendable,
            },
        )
    }
}

/// Refund: the maker, on an `Active` record, at or after the timelock. The
/// move empties the record's amount from the custodian back to the maker.
pub open spec fn refund(
    record: Record,
    caller: AccountId,
    now: BlockNumber,
    custodian: AccountId,
) -> Result<Transfer, Error> {
    if caller != record.maker {
        Err(Error::NotAuthorized)
    } else if !(record.state is Active) {
        Err(Error::InvalidEscrowState)
    } else if now < record.timelock {
        Err(Error::TimelockNotExpired)
    } else {
        Ok(
            Transfer {
                asset: record.asset_type,
                from: custodian,
                to: record.maker,
                amount: record.amount,
                preservation: Preservation::Expendable,
            },
        )
    }
}

/// Withdrawal of an unfunded escrow: the maker, on a `Created` record.
/// Nothing is in custody, so nothing moves.
pub open spec fn withdrawal(record: Record, caller: AccountId) -> Result<(), Error> {
    if caller != record.maker {
        Err(Error::NotAuthorized)
    } else if !(record.state is Created) {
        Err(Error::InvalidEscrowState)
    } else {
        Ok(())
    }
}

/// Checks the terms of a new escrow; see [`terms_check`].
pub fn check_terms(
    maker: AccountId,
    taker: AccountId,
    amount: u128,
    now: BlockNumber,
    min: BlockNumber,
    max: BlockNumber,
    timelock: BlockNumber,
) -> (r: Result<(), Error>)
    ensures
        r == terms_check(maker, taker, amount, now, min, max, timelock),
{
    if maker == taker {
        return Err(Error::InvalidTaker);
    }
    if amount == 0 {
        return Err(Error::InvalidAsset);
    }
    let earliest: u128 = now as u128 + min as u128;
    let latest: u128 = now as u128 + max as u128;
    if (timelock as u128) < earliest || (timelock as u128) > latest {
        return Err(Error::InvalidTimelock);
    }
    Ok(())
}

impl EscrowState {
    /// Whether the lifecycle has an edge from this state to `next`.
    pub fn leads_to(self, next: EscrowState) -> (edge: bool)
        ensures
            edge == legal_edge(self, next),
    {
        match (self, next) {
            (EscrowState::Created, EscrowState::Active) => true,
            (EscrowState::Created, EscrowState::Cancelled) => true,
            (EscrowState::Active, EscrowState::Completed) => true,
            (EscrowState::Active, EscrowState::Cancelled) => true,
            _ => false,
        }
    }
}

impl EscrowDetails {
    /// Moves the record to `next` if the lifecycle has that edge, and leaves
    /// it as it is otherwise. This is how a host that keeps its own ledger
    /// commits an edge once the move planned for it has been made.
    pub fn advance(&mut self, next: EscrowState) -> (r: Result<(), Error>)
        ensures
            legal_edge(old(self).state, next) ==> r is Ok && final(self)@ == with_state(
                old(self)@,
                next,
            ),
            !legal_edge(old(self).state, next) ==> r == Err::<(), Error>(
                Error::InvalidEscrowState,
            ) && final(self)@ == old(self)@,
    {
        if self.state.leads_to(next) {
            self.state = next;
            Ok(())
        } else {
            Err(Error::InvalidEscrowState)
        }
    }

    /// Decides the funding edge; see [`funding`].
    pub fn plan_funding(&self, caller: AccountId, now: BlockNumber, custodian: AccountId) -> (r:
        Result<Transfer, Error>)
        ensures
            r == funding(self@, caller, now, custodian),
    {
        if caller != self.maker {
            return Err(Error::NotAuthorized);
        }
        match self.state {
            EscrowState::Created => {},
            _ => {
                return Err(Error::InvalidEscrowState);
            },
        }
        if now >= self.timelock {
            return Err(Error::TimelockExpired);
        }
        match self.asset_type {
            AssetType::Nft(_, _) => Err(Error::InvalidAsset),
            _ => Ok(
                Transfer {
                    asset: self.asset_type,
                    from: self.maker,
                    to: custodian,
                    amount: self.amount,
                    preservation: Preservation::Preserve,
                },
            ),
        }
    }

    /// Decides the completion edge for a preimage whose digest is
    /// `preimage_digest`; see [`completion`].
    pub fn plan_completion(
        &self,
        now: BlockNumber,
        preimage_digest: &[u8; 32],
        custodian: AccountId,
    ) -> (r: Result<Transfer, Error>)
        ensures
            r == completion(self@, now, preimage_digest@, custodian),
    {
        match self.state {
            EscrowState::Active => {},
            _ => {
                return Err(Error::InvalidEscrowState);
            },
        }
        if now >= self.timelock {
            return Err(Error::TimelockExpired);
        }
        if !same_digest(preimage_digest, &self.secret_hash) {
            return Err(Error::InvalidSecret);
        }
        Ok(
            Transfer {
                asset: self.asset_type,
                from: custodian,
                to: self.taker,
                amount: self.amount,
                preservation: Preservation::Expendable,
            },
        )
    }

    /// Decides the refund edge; see [`refund`].
    pub fn plan_refund(&self, caller: AccountId, now: BlockNumber, custodian: AccountId) -> (r:
        Result<Transfer, Error>)
        ensures
            r == refund(self@, caller, now, custodian),
    {
        if caller != self.maker {
            return Err(Error::NotAuthorized);
        }
        match self.state {
            EscrowState::Active => {},
            _ => {
                return Err(Error::InvalidEscrowState);
            },
        }
        if now < self.timelock {
            return Err(Error::TimelockNotExpired);
        }
        Ok(
            Transfer {
                asset: self.asset_type,
                from: custodian,
                to: self.maker,
                amount: self.amount,
                preservation: Preservation::Expendable,
            },
        )
    }

    /// Decides the withdrawal of an unfunded escrow; see [`withdrawal`].
    pub fn check_withdrawal(&self, caller: AccountId) -> (r: Result<(), Error>)
        ensures
            r == withdrawal(self@, caller),
    {
        if caller != self.maker {
            return Err(Error::NotAuthorized);
        }
        match self.state {
            EscrowState::Created => Ok(()),
            _ => Err(Error::InvalidEscrowState),
        }
    }
}

} // verus!
