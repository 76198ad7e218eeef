//! The dispatch layer: the engine with its six entry points and its queries.
//!
//! Every entry point validates, decides the edge, drives custody, commits to
//! the store and publishes its event, all or nothing: where it answers with an
//! error, the engine is as it was.

use vstd::prelude::*;
use crate::config::Config;
use crate::custody::Ledger;
use crate::hashing::{digest, hash_with};
use crate::machine::check_terms;
use crate::model::{
    advance, cancel, cancel_before_funding, complete, create, endow, find, fund, genesis, inv,
    listed, reason_cancelled_before_funding, reason_timelock_expired, toggle_pause, State,
};
use crate::invariance::{
    lemma_advance_inv, lemma_cancel_before_funding_inv, lemma_cancel_inv, lemma_complete_inv,
    lemma_create_inv, lemma_endow_inv, lemma_fund_inv, lemma_genesis_inv,
    lemma_toggle_pause_inv,
};
use crate::store::{bounded_metadata, AccountLists, SecretIndex};
use crate::types::{
    notices, records, same_digest, AccountId, AssetType, BlockNumber, Error, EscrowDetails,
    EscrowId, EscrowState, Event, Origin,
};

verus! {

/// The escrow engine.
pub struct Pallet {
    config: Config,
    sovereign: AccountId,
    now: BlockNumber,
    paused: bool,
    next_id: EscrowId,
    escrows: Vec<EscrowDetails>,
    secrets: SecretIndex,
    by_maker: AccountLists,
    by_taker: AccountLists,
    ledger: Ledger,
    events: Vec<Event>,
}

impl View for Pallet {
    type V = State;

    closed spec fn view(&self) -> State {
        State {
            config: self.config,
            sovereign: self.sovereign,
            now: self.now,
            paused: self.paused,
            next_id: self.next_id,
            escrows: records(self.escrows@),
            by_secret: self.secrets@,
            by_maker: self.by_maker@,
            by_taker: self.by_taker@,
            balances: self.ledger.balances(),
            events: notices(self.events@),
        }
    }
}

/// The bytes of "timelock expired".
fn timelock_expired() -> (reason: Vec<u8>)
    ensures
        reason@ == reason_timelock_expired(),
{
    vec![
        0x74u8, 0x69, 0x6d, 0x65, 0x6c, 0x6f, 0x63, 0x6b, 0x20, 0x65, 0x78, 0x70, 0x69, 0x72,
        0x65, 0x64,
    ]
}

/// The bytes of "cancelled before funding".
fn cancelled_before_funding() -> (reason: Vec<u8>)
    ensures
        reason@ == reason_cancelled_before_funding(),
{
    vec![
        0x63u8, 0x61, 0x6e, 0x63, 0x65, 0x6c, 0x6c, 0x65, 0x64, 0x20, 0x62, 0x65, 0x66, 0x6f,
        0x72, 0x65, 0x20, 0x66, 0x75, 0x6e, 0x64, 0x69, 0x6e, 0x67,
    ]
}

impl Pallet {
    /// The engine's representation is consistent and its state satisfies the
    /// invariant of the model.
    pub closed spec fn wf(&self) -> bool {
        &&& self.secrets.wf()
        &&& self.ledger.floor() == self.config.existential_deposit
        &&& inv(self@)
    }

    /// A well-formed engine is in a state that satisfies the invariant.
    pub proof fn lemma_wf_inv(&self)
        requires
            self.wf(),
        ensures
            inv(self@),
    {
    }

    /// An engine at genesis.
    pub fn new(config: Config) -> (pallet: Pallet)
        ensures
            pallet.wf(),
            pallet@ == genesis(config),
    {
        let pallet = Pallet {
            config,
            sovereign: config.sovereign(),
            now: 0,
            paused: false,
            next_id: 1,
            escrows: Vec::new(),
            secrets: SecretIndex::new(),
            by_maker: AccountLists::new(),
            by_taker: AccountLists::new(),
            ledger: Ledger::new(config.existential_deposit),
            events: Vec::new(),
        };
        proof {
            assert(pallet@.escrows =~= genesis(config).escrows);
            assert(pallet@.events =~= genesis(config).events);
            lemma_genesis_inv(config);
        }
        pallet
    }

    /// Credits `amount` of `asset` to `who` from outside the engine. The
    /// custodian cannot be credited this way, a non-fungible item cannot be
    /// credited at all, and a balance cannot leave its range.
    pub fn endow(&mut self, asset: AssetType, who: AccountId, amount: u128) -> (r: Result<
        (),
        Error,
    >)
        requires
            old(self).wf(),
        ensures
            final(self).wf(),
            final(self)@ == endow(old(self)@, asset, who, amount).state,
            r == endow(old(self)@, asset, who, amount).result,
    {
        if who == self.sovereign {
            return Err(Error::NotAuthorized);
        }
        match self.ledger.credit(&asset, who, amount) {
            Err(e) => Err(e.surface()),
            Ok(()) => {
                proof {
                    lemma_endow_inv(old(self)@, asset, who, amount);
                }
                Ok(())
            },
        }
    }

    /// Moves the clock forward to block `to`; an earlier block leaves it where it is.
    pub fn advance_to(&mut self, to: BlockNumber)
        requires
            old(self).wf(),
        ensures
            final(self).wf(),
            final(self)@ == advance(old(self)@, to),
    {
        if self.now < to {
            self.now = to;
        }
        proof {
            lemma_advance_inv(old(self)@, to);
        }
    }

    /// Creates an escrow in `Created`; no asset moves.
    ///
    /// The caller must be signed and the engine not paused. Then, first
    /// failure first: maker and taker differ (`InvalidTaker`); the amount is
    /// positive (`InvalidAsset`); the timelock lies between the current block
    /// plus the minimum and plus the maximum (`InvalidTimelock`); the digest
    /// is not taken (`DuplicateSecretHash`); neither the maker's nor the
    /// taker's list is full (`TooManyEscrows`); the metadata holds at most 256
    /// bytes (`InvalidMetadata`); an identifier is left (`Overflow`).
    pub fn create_escrow(
        &mut self,
        origin: Origin,
        secret_hash: [u8; 32],
        timelock: BlockNumber,
        taker: AccountId,
        asset_type: AssetType,
        amount: u128,
        xcm_destination: Option<u32>,
        metadata: Vec<u8>,
    ) -> (r: Result<(), Error>)
        requires
            old(self).wf(),
        ensures
            final(self).wf(),
            final(self)@ == create(
                old(self)@,
                origin,
                secret_hash@,
                timelock,
                taker,
                asset_type,
                amount,
                xcm_destination,
                metadata@,
            ).state,
            r == create(
                old(self)@,
                origin,
                secret_hash@,
                timelock,
                taker,
                asset_type,
                amount,
                xcm_destination,
                metadata@,
            ).result,
    {
        let ghost given = metadata@;
        let maker = match origin {
            Origin::Signed(who) => who,
            _ => {
                return Err(Error::BadOrigin);
            },
        };
        if self.paused {
            return Err(Error::PalletPaused);
        }
        match check_terms(
            maker,
            taker,
            amount,
            self.now,
            self.config.min_timelock,
            self.config.max_timelock,
            timelock,
        ) {
            Err(e) => {
                return Err(e);
            },
            Ok(()) => {},
        }
        if self.secrets.get(&secret_hash).is_some() {
            return Err(Error::DuplicateSecretHash);
        }
        let cap = self.config.max_escrows_per_account as usize;
        if self.by_maker.count(maker) >= cap || self.by_taker.count(taker) >= cap {
            return Err(Error::TooManyEscrows);
        }
        let metadata = match bounded_metadata(metadata) {
            Some(kept) => kept,
            None => {
                return Err(Error::InvalidMetadata);
            },
        };
        if self.next_id == u32::MAX {
            return Err(Error::Overflow);
        }
        let id = self.next_id;
        self.escrows.push(
            EscrowDetails {
                secret_hash,
                maker,
                taker,
                timelock,
                asset_type,
                amount,
                state: EscrowState::Created,
                xcm_destination,
                created_block: self.now,
                metadata,
            },
        );
        self.secrets.insert(secret_hash, id);
        self.by_maker.enlist(maker, id);
        self.by_taker.enlist(taker, id);
        self.next_id = id + 1;
        self.events.push(
            Event::EscrowCreated {
                escrow_id: id,
                maker,
                taker,
                secret_hash,
                timelock,
                asset_type,
                amount,
            },
        );
        proof {
            let expected = create(
                old(self)@,
                origin,
                secret_hash@,
                timelock,
                taker,
                asset_type,
                amount,
                xcm_destination,
                given,
            );
            assert(self@.escrows =~= expected.state.escrows);
            assert(self@.events =~= expected.state.events);
            lemma_create_inv(
                old(self)@,
                origin,
                secret_hash@,
                timelock,
                taker,
                asset_type,
                amount,
                xcm_destination,
                given,
            );
        }
        Ok(())
    }

    fn slot(&self, escrow_id: EscrowId) -> (at: Option<usize>)
        ensures
            match at {
                Some(i) => i == escrow_id - 1 && i < self.escrows@.len() && find(self@, escrow_id)
                    == Some(self.escrows@[i as int]@),
                None => find(self@, escrow_id) is None,
            },
    {
        if escrow_id == 0 || escrow_id as usize > self.escrows.len() {
            None
        } else {
            Some((escrow_id - 1) as usize)
        }
    }

    /// Funds an escrow: the maker pays the amount into custody and the record
    /// becomes `Active`.
    ///
    /// The caller must be signed and the engine not paused. Then, first
    /// failure first: the record exists (`EscrowNotFound`); the caller is its
    /// maker (`NotAuthorized`); it is `Created` (`InvalidEscrowState`); the
    /// block is before the timelock (`TimelockExpired`); the asset can be
    /// moved (`InvalidAsset`); the ledger lets the maker pay and stay above
    /// the existential deposit (`InsufficientBalance`, or `Overflow` at the
    /// custodian).
    pub fn fund_escrow(&mut self, origin: Origin, escrow_id: EscrowId) -> (r: Result<(), Error>)
        requires
            old(self).wf(),
        ensures
            final(self).wf(),
            final(self)@ == fund(old(self)@, origin, escrow_id).state,
            r == fund(old(self)@, origin, escrow_id).result,
    {
        let caller = match origin {
            Origin::Signed(who) => who,
            _ => {
                return Err(Error::BadOrigin);
            },
        };
        if self.paused {
            return Err(Error::PalletPaused);
        }
        let at = match self.slot(escrow_id) {
            Some(at) => at,
            None => {
                return Err(Error::EscrowNotFound);
            },
        };
        let t = match self.escrows[at].plan_funding(caller, self.now, self.sovereign) {
            Ok(t) => t,
            Err(e) => {
                return Err(e);
            },
        };
        match self.ledger.transfer(&t) {
            Err(e) => {
                return Err(e.surface());
            },
            Ok(()) => {},
        }
        let asset_type = self.escrows[at].asset_type;
        let amount = self.escrows[at].amount;
        self.escrows[at].state = EscrowState::Active;
        self.events.push(Event::EscrowFunded { escrow_id, asset_type, amount });
        proof {
            let expected = fund(old(self)@, origin, escrow_id);
            assert(self@.escrows =~= expected.state.escrows);
            assert(self@.events =~= expected.state.events);
            lemma_fund_inv(old(self)@, origin, escrow_id);
        }
        Ok(())
    }

    /// Completes an escrow: whoever presents the preimage of the commitment
    /// sends the amount from custody to the taker; the record becomes
    /// `Completed` and the preimage is published.
    ///
    /// The caller must be signed, but need not be the taker, and the engine
    /// not paused. Then, first failure first: the record exists
    /// (`EscrowNotFound`); it is `Active` (`InvalidEscrowState`); the block
    /// is before the timelock (`TimelockExpired`); the digest of the preimage
    /// under the configured hash is the commitment (`InvalidSecret`); the
    /// ledger lets the custodian pay.
    pub fn complete_escrow(&mut self, origin: Origin, escrow_id: EscrowId, preimage: Vec<u8>) -> (r:
        Result<(), Error>)
        requires
            old(self).wf(),
        ensures
            final(self).wf(),
            final(self)@ == complete(old(self)@, origin, escrow_id, preimage@).state,
            r == complete(old(self)@, origin, escrow_id, preimage@).result,
    {
        match origin {
            Origin::Signed(_) => {},
            _ => {
                return Err(Error::BadOrigin);
            },
        }
        if self.paused {
            return Err(Error::PalletPaused);
        }
        let at = match self.slot(escrow_id) {
            Some(at) => at,
            None => {
                return Err(Error::EscrowNotFound);
            },
        };
        let preimage_digest = hash_with(self.config.hashing, preimage.as_slice());
        let t = match self.escrows[at].plan_completion(self.now, &preimage_digest, self.sovereign) {
            Ok(t) => t,
            Err(e) => {
                return Err(e);
            },
        };
        match self.ledger.transfer(&t) {
            Err(e) => {
                return Err(e.surface());
            },
            Ok(()) => {},
        }
        let taker = self.escrows[at].taker;
        let ghost revealed = preimage@;
        self.escrows[at].state = EscrowState::Completed;
        self.events.push(Event::EscrowCompleted { escrow_id, taker, secret: preimage });
        proof {
            let expected = complete(old(self)@, origin, escrow_id, revealed);
            assert(self@.escrows =~= expected.state.escrows);
            assert(self@.events =~= expected.state.events);
            lemma_complete_inv(
                old(self)@,
                origin,
                escrow_id,
                revealed,
                digest(old(self)@.config.hashing, revealed),
            );
        }
        Ok(())
    }

    /// Cancels a funded escrow after its timelock: the maker takes the amount
    /// back out of custody and the record becomes `Cancelled`.
    ///
    /// The caller must be signed and the engine not paused. Then, first
    /// failure first: the record exists (`EscrowNotFound`); the caller is its
    /// maker (`NotAuthorized`); it is `Active` (`InvalidEscrowState`); the
    /// block is at or after the timelock (`TimelockNotExpired`); the ledger
    /// lets the custodian pay.
    pub fn cancel_escrow(&mut self, origin: Origin, escrow_id: EscrowId) -> (r: Result<(), Error>)
        requires
            old(self).wf(),
        ensures
            final(self).wf(),
            final(self)@ == cancel(old(self)@, origin, escrow_id).state,
            r == cancel(old(self)@, origin, escrow_id).result,
    {
        let caller = match origin {
            Origin::Signed(who) => who,
            _ => {
                return Err(Error::BadOrigin);
            },
        };
        if self.paused {
            return Err(Error::PalletPaused);
        }
        let at = match self.slot(escrow_id) {
            Some(at) => at,
            None => {
                return Err(Error::EscrowNotFound);
            },
        };
        let t = match self.escrows[at].plan_refund(caller, self.now, self.sovereign) {
            Ok(t) => t,
            Err(e) => {
                return Err(e);
            },
        };
        match self.ledger.transfer(&t) {
            Err(e) => {
                return Err(e.surface());
            },
            Ok(()) => {},
        }
        let maker = self.escrows[at].maker;
        self.escrows[at].state = EscrowState::Cancelled;
        self.events.push(Event::EscrowCancelled { escrow_id, maker, reason: timelock_expired() });
        proof {
            let expected = cancel(old(self)@, origin, escrow_id);
            assert(self@.escrows =~= expected.state.escrows);
            assert(self@.events =~= expected.state.events);
            lemma_cancel_inv(old(self)@, origin, escrow_id);
        }
        Ok(())
    }

    /// Withdraws an escrow that was never funded: the record becomes
    /// `Cancelled` and its digest is free to be committed to again. No asset
    /// moves.
    ///
    /// The caller must be signed and the engine not paused. Then, first
    /// failure first: the record exists (`EscrowNotFound`); the caller is its
    /// maker (`NotAuthorized`); it is `Created` (`InvalidEscrowState`).
    pub fn cancel_before_funding(&mut self, origin: Origin, escrow_id: EscrowId) -> (r: Result<
        (),
        Error,
    >)
        requires
            old(self).wf(),
        ensures
            final(self).wf(),
            final(self)@ == cancel_before_funding(old(self)@, origin, escrow_id).state,
            r == cancel_before_funding(old(self)@, origin, escrow_id).result,
    {
        let caller = match origin {
            Origin::Signed(who) => who,
            _ => {
                return Err(Error::BadOrigin);
            },
        };
        if self.paused {
            return Err(Error::PalletPaused);
        }
        let at = match self.slot(escrow_id) {
            Some(at) => at,
            None => {
                return Err(Error::EscrowNotFound);
            },
        };
        match self.escrows[at].check_withdrawal(caller) {
            Ok(()) => {},
            Err(e) => {
                return Err(e);
            },
        }
        let maker = self.escrows[at].maker;
        let secret_hash = self.escrows[at].secret_hash;
        self.escrows[at].state = EscrowState::Cancelled;
        self.secrets.remove(&secret_hash);
        self.events.push(
            Event::EscrowCancelled { escrow_id, maker, reason: cancelled_before_funding() },
        );
        proof {
            let expected = cancel_before_funding(old(self)@, origin, escrow_id);
            assert(self@.escrows =~= expected.state.escrows);
            assert(self@.events =~= expected.state.events);
            lemma_cancel_before_funding_inv(old(self)@, origin, escrow_id);
        }
        Ok(())
    }

    /// Flips the circuit breaker. Only the privileged origin may; anyone else
    /// gets `BadOrigin`. No record is touched.
    pub fn toggle_pause(&mut self, origin: Origin) -> (r: Result<(), Error>)
        requires
            old(self).wf(),
        ensures
            final(self).wf(),
            final(self)@ == toggle_pause(old(self)@, origin).state,
            r == toggle_pause(old(self)@, origin).result,
    {
        match origin {
            Origin::Root => {},
            _ => {
                return Err(Error::BadOrigin);
            },
        }
        let paused = !self.paused;
        self.paused = paused;
        self.events.push(Event::EmergencyPauseToggled { paused });
        proof {
            let expected = toggle_pause(old(self)@, origin);
            assert(self@.events =~= expected.state.events);
            lemma_toggle_pause_inv(old(self)@, origin);
        }
        Ok(())
    }

    /// The parameters the engine was built with.
    pub fn config(&self) -> (config: Config)
        ensures
            config == self@.config,
    {
        self.config
    }

    /// The custodian account.
    pub fn account_id(&self) -> (account: AccountId)
        ensures
            account == self@.sovereign,
    {
        self.sovereign
    }

    /// The current block height.
    pub fn current_block(&self) -> (now: BlockNumber)
        ensures
            now == self@.now,
    {
        self.now
    }

    /// Whether the circuit breaker is on.
    pub fn is_paused(&self) -> (paused: bool)
        ensures
            paused == self@.paused,
    {
        self.paused
    }

    /// The identifier the next escrow will get.
    pub fn next_escrow_id(&self) -> (id: EscrowId)
        ensures
            id == self@.next_id,
    {
        self.next_id
    }

    /// What `who` holds of `asset` on the ledger.
    pub fn balance(&self, asset: AssetType, who: AccountId) -> (held: u128)
        ensures
            held == self@.balances[(asset, who)],
    {
        self.ledger.balance(&asset, who)
    }

    /// The events published so far, oldest first.
    pub fn events(&self) -> (published: &Vec<Event>)
        ensures
            notices(published@) == self@.events,
    {
        &self.events
    }

    /// A copy of the record with identifier `escrow_id`, if there is one.
    pub fn get_escrow(&self, escrow_id: EscrowId) -> (found: Option<EscrowDetails>)
        ensures
            match found {
                Some(record) => find(self@, escrow_id) == Some(record@),
                None => find(self@, escrow_id) is None,
            },
    {
        match self.slot(escrow_id) {
            Some(at) => Some(self.escrows[at].clone()),
            None => None,
        }
    }

    /// The identifier of the record that has taken `secret_hash`, if any.
    pub fn get_escrow_by_secret(&self, secret_hash: &[u8; 32]) -> (id: Option<EscrowId>)
        requires
            self.wf(),
        ensures
            id == (if self@.by_secret.contains_key(secret_hash@) {
                Some(self@.by_secret[secret_hash@])
            } else {
                None
            }),
    {
        self.secrets.get(secret_hash)
    }

    /// Whether the record exists and is `Active`.
    pub fn is_escrow_active(&self, escrow_id: EscrowId) -> (active: bool)
        ensures
            active == (find(self@, escrow_id) matches Some(record) && record.state is Active),
    {
        match self.slot(escrow_id) {
            Some(at) => match self.escrows[at].state {
                EscrowState::Active => true,
                _ => false,
            },
            None => false,
        }
    }

    /// The blocks left until the record's timelock, zero once it has passed;
    /// nothing where there is no such record.
    pub fn get_time_remaining(&self, escrow_id: EscrowId) -> (left: Option<BlockNumber>)
        ensures
            left == (match find(self@, escrow_id) {
                Some(record) => Some(
                    if self@.now < record.timelock {
                        (record.timelock - self@.now) as u64
                    } else {
                        0
                    },
                ),
                None => None,
            }),
    {
        match self.slot(escrow_id) {
            Some(at) => {
                let timelock = self.escrows[at].timelock;
                if self.now < timelock {
                    Some(timelock - self.now)
                } else {
                    Some(0)
                }
            },
            None => None,
        }
    }

    /// Whether the record exists and its timelock has been reached.
    pub fn is_timelock_expired(&self, escrow_id: EscrowId) -> (expired: bool)
        ensures
            expired == (find(self@, escrow_id) matches Some(record) && self@.now
                >= record.timelock),
    {
        match self.slot(escrow_id) {
            Some(at) => self.now >= self.escrows[at].timelock,
            None => false,
        }
    }

    /// Whether the record exists and `secret` hashes, under the configured
    /// hash, to its commitment.
    pub fn verify_secret(&self, escrow_id: EscrowId, secret: &[u8]) -> (matches: bool)
        ensures
            matches == (find(self@, escrow_id) matches Some(record) && digest(
                self@.config.hashing,
                secret@,
            ) == record.secret_hash),
    {
        match self.slot(escrow_id) {
            Some(at) => {
                let computed = hash_with(self.config.hashing, secret);
                same_digest(&computed, &self.escrows[at].secret_hash)
            },
            None => false,
        }
    }

    /// The escrows that `maker` has created, oldest first.
    pub fn get_escrows_by_maker(&self, maker: &AccountId) -> (ids: Vec<EscrowId>)
        ensures
            ids@ == listed(self@.by_maker, *maker),
    {
        self.by_maker.list(*maker)
    }

    /// The escrows that name `taker` as recipient, oldest first.
    pub fn get_escrows_by_taker(&self, taker: &AccountId) -> (ids: Vec<EscrowId>)
        ensures
            ids@ == listed(self@.by_taker, *taker),
    {
        self.by_taker.list(*taker)
    }
}

/// Moves the engine's clock forward to block `n`; see [`Pallet::advance_to`].
pub fn run_to_block(pallet: &mut Pallet, n: BlockNumber)
    requires
        old(pallet).wf(),
    ensures
        final(pallet).wf(),
        final(pallet)@ == advance(old(pallet)@, n),
{
    pallet.advance_to(n);
}

/// The event published last.
pub fn last_event(pallet: &Pallet) -> (event: &Event)
    requires
        pallet@.events.len() > 0,
    ensures
        event@ == pallet@.events.last(),
{
    &pallet.events[pallet.events.len() - 1]
}

} // verus!
