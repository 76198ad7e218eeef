//! The engine as mathematics: its state, what each operation does to it, and
//! the invariants that every reachable state satisfies.
//!
//! The executable engine is specified against this model: each of its
//! operations returns the model's result and leaves a state whose view is the
//! model's next state.

use vstd::prelude::*;
use crate::config::{sovereign_account, Config};
use crate::custody::{
    book_complete, credit_outcome, empty_book, surfaced, transfer_outcome, Balances,
};
use crate::hashing::digest;
use crate::machine::{
    completion, funding, is_live, refund, terms_check, timelock_in_bounds, with_state, withdrawal,
};
use crate::types::{
    AccountId, AssetType, BlockNumber, Error, EscrowId, EscrowState, Notice, Origin, Record,
    MAX_METADATA_LEN,
};

verus! {

/// An index from accounts to the escrows they take part in, oldest first.
/// An account without an entry has the empty list.
pub type AccountIndex = Map<AccountId, Seq<EscrowId>>;

/// Everything the engine holds.
pub struct State {
    /// The parameters the engine was built with.
    pub config: Config,
    /// The custodian account.
    pub sovereign: AccountId,
    /// The current block height.
    pub now: BlockNumber,
    /// The circuit breaker.
    pub paused: bool,
    /// The identifier the next record will get.
    pub next_id: EscrowId,
    /// The records; the record with identifier `id` stands at `id - 1`.
    pub escrows: Seq<Record>,
    /// Digest to identifier: the commitments that are taken.
    pub by_secret: Map<Seq<u8>, EscrowId>,
    /// Maker to identifiers.
    pub by_maker: AccountIndex,
    /// Taker to identifiers.
    pub by_taker: AccountIndex,
    /// The ledger's book.
    pub balances: Balances,
    /// The events published so far, oldest first.
    pub events: Seq<Notice>,
}

/// A state after an operation, and what the operation answered.
pub struct Outcome {
    pub state: State,
    pub result: Result<(), Error>,
}

/// The bytes of "timelock expired".
pub open spec fn reason_timelock_expired() -> Seq<u8> {
    seq![
        0x74u8, 0x69, 0x6d, 0x65, 0x6c, 0x6f, 0x63, 0x6b, 0x20, 0x65, 0x78, 0x70, 0x69, 0x72,
        0x65, 0x64,
    ]
}

/// The bytes of "cancelled before funding".
pub open spec fn reason_cancelled_before_funding() -> Seq<u8> {
    seq![
        0x63u8, 0x61, 0x6e, 0x63, 0x65, 0x6c, 0x6c, 0x65, 0x64, 0x20, 0x62, 0x65, 0x66, 0x6f,
        0x72, 0x65, 0x20, 0x66, 0x75, 0x6e, 0x64, 0x69, 0x6e, 0x67,
    ]
}

/// The state of an engine that has done nothing yet: block 0, not paused,
/// first identifier 1, no records, nobody holds anything. The custodian is
/// the account derived from the configured pallet identifier.
pub open spec fn genesis(config: Config) -> State {
    State {
        config,
        sovereign: sovereign_account(config.pallet_id@),
        now: 0,
        paused: false,
        next_id: 1,
        escrows: Seq::empty(),
        by_secret: Map::empty(),
        by_maker: Map::empty(),
        by_taker: Map::empty(),
        balances: empty_book(),
        events: Seq::empty(),
    }
}

/// The list that `index` keeps for `who`.
pub open spec fn listed(index: AccountIndex, who: AccountId) -> Seq<EscrowId> {
    if index.contains_key(who) {
        index[who]
    } else {
        Seq::empty()
    }
}

/// `index` after `id` has been appended to the list of `who`.
pub open spec fn enlisted(index: AccountIndex, who: AccountId, id: EscrowId) -> AccountIndex {
    index.insert(who, listed(index, who).push(id))
}

/// The record with identifier `id`, if one was assigned.
pub open spec fn find(s: State, id: EscrowId) -> Option<Record> {
    if 1 <= id <= s.escrows.len() {
        Some(s.escrows[id - 1])
    } else {
        None
    }
}

/// The operation was refused: nothing changes.
pub open spec fn refused(s: State, e: Error) -> Outcome {
    Outcome { state: s, result: Err(e) }
}

/// `s` with the record `id` moved to `state`, the book replaced by
/// `balances`, and `notice` published.
pub open spec fn settled(
    s: State,
    id: EscrowId,
    state: EscrowState,
    balances: Balances,
    notice: Notice,
) -> State {
    State {
        escrows: s.escrows.update(id - 1, with_state(s.escrows[id - 1], state)),
        balances,
        events: s.events.push(notice),
        ..s
    }
}

/// What stands between a signed caller and a new escrow, first failure first:
/// the terms, a digest that is already taken, a full list on either side,
/// metadata that is too long, and an exhausted identifier counter.
pub open spec fn create_check(
    s: State,
    maker: AccountId,
    secret_hash: Seq<u8>,
    timelock: BlockNumber,
    taker: AccountId,
    amount: u128,
    metadata: Seq<u8>,
) -> Result<(), Error> {
    let terms = terms_check(
        maker,
        taker,
        amount,
        s.now,
        s.config.min_timelock,
        s.config.max_timelock,
        timelock,
    );
    if terms is Err {
        terms
    } else if s.by_secret.contains_key(secret_hash) {
        Err(Error::DuplicateSecretHash)
    } else if listed(s.by_maker, maker).len() >= s.config.max_escrows_per_account || listed(
        s.by_taker,
        taker,
    ).len() >= s.config.max_escrows_per_account {
        Err(Error::TooManyEscrows)
    } else if metadata.len() > MAX_METADATA_LEN {
        Err(Error::InvalidMetadata)
    } else if s.next_id == u32::MAX {
        Err(Error::Overflow)
    } else {
        Ok(())
    }
}

/// `create_escrow`: records a new escrow in `Created`. No asset moves.
pub open spec fn create(
    s: State,
    origin: Origin,
    secret_hash: Seq<u8>,
    timelock: BlockNumber,
    taker: AccountId,
    asset_type: AssetType,
    amount: u128,
    xcm_destination: Option<u32>,
    metadata: Seq<u8>,
) -> Outcome {
    match origin {
        Origin::Signed(maker) => {
            let check = create_check(s, maker, secret_hash, timelock, taker, amount, metadata);
            if s.paused {
                refused(s, Error::PalletPaused)
            } else if check is Err {
                refused(s, check->Err_0)
            } else {
                let id = s.next_id;
                let record = Record {
                    secret_hash,
                    maker,
                    taker,
                    timelock,
                    asset_type,
                    amount,
                    state: EscrowState::Created,
                    xcm_destination,
                    created_block: s.now,
                    metadata,
                };
                Outcome {
                    state: State {
                        next_id: (id + 1) as u32,
                        escrows: s.escrows.push(record),
                        by_secret: s.by_secret.insert(secret_hash, id),
                        by_maker: enlisted(s.by_maker, maker, id),
                        by_taker: enlisted(s.by_taker, taker, id),
                        events: s.events.push(
                            Notice::EscrowCreated {
                                escrow_id: id,
                                maker,
                                taker,
                                secret_hash,
                                timelock,
                                asset_type,
                                amount,
                            },
                        ),
                        ..s
                    },
                    result: Ok(()),
                }
            }
        },
        _ => refused(s, Error::BadOrigin),
    }
}

/// `fund_escrow`: the maker pays the amount into custody; `Created` becomes `Active`.
pub open spec fn fund(s: State, origin: Origin, id: EscrowId) -> Outcome {
    match origin {
        Origin::Signed(caller) => {
            if s.paused {
                refused(s, Error::PalletPaused)
            } else {
                match find(s, id) {
                    None => refused(s, Error::EscrowNotFound),
                    Some(record) => match funding(record, caller, s.now, s.sovereign) {
                        Err(e) => refused(s, e),
                        Ok(t) => match transfer_outcome(
                            s.balances,
                            s.config.existential_deposit,
                            t,
                        ) {
                            Err(e) => refused(s, surfaced(e)),
                            Ok(balances) => Outcome {
                                state: settled(
                                    s,
                                    id,
                                    EscrowState::Active,
                                    balances,
                                    Notice::EscrowFunded {
                                        escrow_id: id,
                                        asset_type: record.asset_type,
                                        amount: record.amount,
                                    },
                                ),
                                result: Ok(()),
                            },
                        },
                    },
                }
            }
        },
        _ => refused(s, Error::BadOrigin),
    }
}

/// `complete_escrow` for a preimage whose digest is `preimage_digest`: the
/// amount leaves custody for the taker; `Active` becomes `Completed`; the
/// preimage is published.
pub open spec fn complete_with(
    s: State,
    origin: Origin,
    id: EscrowId,
    preimage: Seq<u8>,
    preimage_digest: Seq<u8>,
) -> Outcome {
    match origin {
        Origin::Signed(_) => {
            if s.paused {
                refused(s, Error::PalletPaused)
            } else {
                match find(s, id) {
                    None => refused(s, Error::EscrowNotFound),
                    Some(record) => match completion(record, s.now, preimage_digest, s.sovereign) {
                        Err(e) => refused(s, e),
                        Ok(t) => match transfer_outcome(
                            s.balances,
                            s.config.existential_deposit,
                            t,
                        ) {
                            Err(e) => refused(s, surfaced(e)),
                            Ok(balances) => Outcome {
                                state: settled(
                                    s,
                                    id,
                                    EscrowState::Completed,
                                    balances,
                                    Notice::EscrowCompleted {
                                        escrow_id: id,
                                        taker: record.taker,
                                        secret: preimage,
                                    },
                                ),
                                result: Ok(()),
                            },
                        },
                    },
                }
            }
        },
        _ => refused(s, Error::BadOrigin),
    }
}

/// `complete_escrow`: [`complete_with`] for the digest of the preimage under
/// the configured hash.
pub open spec fn complete(s: State, origin: Origin, id: EscrowId, preimage: Seq<u8>) -> Outcome {
    complete_with(s, origin, id, preimage, digest(s.config.hashing, preimage))
}

/// `cancel_escrow`: after the timelock the maker takes the amount back out of
/// custody; `Active` becomes `Cancelled`.
pub open spec fn cancel(s: State, origin: Origin, id: EscrowId) -> Outcome {
    match origin {
        Origin::Signed(caller) => {
            if s.paused {
                refused(s, Error::PalletPaused)
            } else {
                match find(s, id) {
                    None => refused(s, Error::EscrowNotFound),
                    Some(record) => match refund(record, caller, s.now, s.sovereign) {
                        Err(e) => refused(s, e),
                        Ok(t) => match transfer_outcome(
                            s.balances,
                            s.config.existential_deposit,
                            t,
                        ) {
                            Err(e) => refused(s, surfaced(e)),
                            Ok(balances) => Outcome {
                                state: settled(
                                    s,
                                    id,
                                    EscrowState::Cancelled,
                                    balances,
                                    Notice::EscrowCancelled {
                                        escrow_id: id,
                                        maker: record.maker,
                                        reason: reason_timelock_expired(),
                                    },
                                ),
                                result: Ok(()),
                            },
                        },
                    },
                }
            }
        },
        _ => refused(s, Error::BadOrigin),
    }
}

/// `cancel_before_funding`: the maker withdraws an unfunded escrow; `Created`
/// becomes `Cancelled` and the digest is free again. No asset moves.
pub open spec fn cancel_before_funding(s: State, origin: Origin, id: EscrowId) -> Outcome {
    match origin {
        Origin::Signed(caller) => {
            if s.paused {
                refused(s, Error::PalletPaused)
            } else {
                match find(s, id) {
                    None => refused(s, Error::EscrowNotFound),
                    Some(record) => match withdrawal(record, caller) {
                        Err(e) => refused(s, e),
                        Ok(_) => Outcome {
                            state: State {
                                by_secret: s.by_secret.remove(record.secret_hash),
                                ..settled(
                                    s,
                                    id,
                                    EscrowState::Cancelled,
                                    s.balances,
                                    Notice::EscrowCancelled {
                                        escrow_id: id,
                                        maker: record.maker,
                                        reason: reason_cancelled_before_funding(),
                                    },
                                )
                            },
                            result: Ok(()),
                        },
                    },
                }
            }
        },
        _ => refused(s, Error::BadOrigin),
    }
}

/// `toggle_pause`: the privileged origin flips the circuit breaker.
pub open spec fn toggle_pause(s: State, origin: Origin) -> Outcome {
    match origin {
        Origin::Root => Outcome {
            state: State {
                paused: !s.paused,
                events: s.events.push(Notice::EmergencyPauseToggled { paused: !s.paused }),
                ..s
            },
            result: Ok(()),
        },
        _ => refused(s, Error::BadOrigin),
    }
}

/// The clock moves forward to block `to`; it never moves back.
pub open spec fn advance(s: State, to: BlockNumber) -> State {
    State { now: if s.now < to { to } else { s.now }, ..s }
}

/// The world outside the engine credits `amount` of `asset` to `who`. The
/// custodian is no one's to credit but the engine's.
pub open spec fn endow(s: State, asset: AssetType, who: AccountId, amount: u128) -> Outcome {
    if who == s.sovereign {
        refused(s, Error::NotAuthorized)
    } else {
        match credit_outcome(s.balances, asset, who, amount) {
            Err(e) => refused(s, surfaced(e)),
            Ok(balances) => Outcome { state: State { balances, ..s }, result: Ok(()) },
        }
    }
}

/// One thing that can happen to the engine.
pub enum Call {
    Create {
        origin: Origin,
        secret_hash: Seq<u8>,
        timelock: BlockNumber,
        taker: AccountId,
        asset_type: AssetType,
        amount: u128,
        xcm_destination: Option<u32>,
        metadata: Seq<u8>,
    },
    Fund { origin: Origin, id: EscrowId },
    Complete { origin: Origin, id: EscrowId, preimage: Seq<u8> },
    Cancel { origin: Origin, id: EscrowId },
    CancelBeforeFunding { origin: Origin, id: EscrowId },
    TogglePause { origin: Origin },
    Advance { to: BlockNumber },
    Endow { asset: AssetType, who: AccountId, amount: u128 },
}

/// The state and answer after `call`.
pub open spec fn step(s: State, call: Call) -> Outcome {
    match call {
        Call::Create {
            origin,
            secret_hash,
            timelock,
            taker,
            asset_type,
            amount,
            xcm_destination,
            metadata,
        } => create(
            s,
            origin,
            secret_hash,
            timelock,
            taker,
            asset_type,
            amount,
            xcm_destination,
            metadata,
        ),
        Call::Fund { origin, id } => fund(s, origin, id),
        Call::Complete { origin, id, preimage } => complete(s, origin, id, preimage),
        Call::Cancel { origin, id } => cancel(s, origin, id),
        Call::CancelBeforeFunding { origin, id } => cancel_before_funding(s, origin, id),
        Call::TogglePause { origin } => toggle_pause(s, origin),
        Call::Advance { to } => Outcome { state: advance(s, to), result: Ok(()) },
        Call::Endow { asset, who, amount } => endow(s, asset, who, amount),
    }
}

/// The state after `calls`, in order, from `s`.
pub open spec fn run(s: State, calls: Seq<Call>) -> State
    decreases calls.len(),
{
    if calls.len() == 0 {
        s
    } else {
        step(run(s, calls.drop_last()), calls.last()).state
    }
}

/// Whether `call` is a dispatch that the circuit breaker gates: every
/// operation on escrows, but not the breaker itself, the clock or the world
/// outside.
pub open spec fn is_gated(call: Call) -> bool {
    call is Create || call is Fund || call is Complete || call is Cancel
        || call is CancelBeforeFunding
}

/// The origin a dispatch came with.
pub open spec fn origin_of(call: Call) -> Option<Origin> {
    match call {
        Call::Create { origin, .. } => Some(origin),
        Call::Fund { origin, .. } => Some(origin),
        Call::Complete { origin, .. } => Some(origin),
        Call::Cancel { origin, .. } => Some(origin),
        Call::CancelBeforeFunding { origin, .. } => Some(origin),
        Call::TogglePause { origin } => Some(origin),
        Call::Advance { .. } => None,
        Call::Endow { .. } => None,
    }
}

/// The custodian is the account derived from the pallet identifier.
pub open spec fn custodian_fixed(s: State) -> bool {
    s.sovereign == sovereign_account(s.config.pallet_id@)
}

/// Identifiers are unique: the records are exactly those with identifiers
/// `1 .. next_id`, so the counter exceeds every identifier assigned.
pub open spec fn ids_unique(s: State) -> bool {
    s.next_id == s.escrows.len() + 1
}

/// What holds of every record from its creation on.
pub open spec fn record_sound(s: State, r: Record) -> bool {
    &&& r.maker != r.taker
    &&& r.amount > 0
    &&& r.metadata.len() <= MAX_METADATA_LEN
    &&& r.created_block <= s.now
    &&& timelock_in_bounds(
        r.created_block,
        s.config.min_timelock,
        s.config.max_timelock,
        r.timelock,
    )
    &&& r.asset_type is Nft ==> r.state is Created || r.state is Cancelled
}

/// Every record is sound.
pub open spec fn records_sound(s: State) -> bool {
    forall|i: int| 0 <= i < s.escrows.len() ==> record_sound(s, #[trigger] s.escrows[i])
}

/// Every entry of the digest index names a record that holds that digest.
pub open spec fn secret_index_sound(s: State) -> bool {
    forall|h: Seq<u8>| #[trigger]
        s.by_secret.contains_key(h) ==> {
            let id = s.by_secret[h];
            1 <= id <= s.escrows.len() && s.escrows[id - 1].secret_hash == h
        }
}

/// Every live record is the one the digest index names for its digest.
pub open spec fn live_indexed(s: State) -> bool {
    forall|i: int|
        0 <= i < s.escrows.len() && is_live((#[trigger] s.escrows[i]).state) ==> {
            let h = s.escrows[i].secret_hash;
            s.by_secret.contains_key(h) && s.by_secret[h] == i + 1
        }
}

/// No two live records share a digest.
pub open spec fn live_digests_distinct(s: State) -> bool {
    forall|i: int, j: int|
        {
            &&& 0 <= i < s.escrows.len()
            &&& 0 <= j < s.escrows.len()
            &&& is_live((#[trigger] s.escrows[i]).state)
            &&& is_live((#[trigger] s.escrows[j]).state)
            &&& s.escrows[i].secret_hash == s.escrows[j].secret_hash
        } ==> i == j
}

/// `index` is coherent with `parties`, where `parties[i]` is the account that
/// the record with identifier `i + 1` has in the indexed role: every record is
/// in its account's list, every list entry names a record of that account,
/// lists grow in the order of creation, and none is longer than `cap`.
pub open spec fn index_coherent(parties: Seq<AccountId>, index: AccountIndex, cap: u32) -> bool {
    &&& forall|i: int|
        0 <= i < parties.len() ==> listed(index, #[trigger] parties[i]).contains((i + 1) as u32)
    &&& forall|who: AccountId, k: int|
        0 <= k < listed(index, who).len() ==> {
            let id = #[trigger] listed(index, who)[k];
            1 <= id <= parties.len() && parties[id - 1] == who
        }
    &&& forall|who: AccountId, j: int, k: int|
        0 <= j < k < listed(index, who).len() ==> (#[trigger] listed(index, who)[j]) < (
        #[trigger] listed(index, who)[k])
    &&& forall|who: AccountId| #[trigger] listed(index, who).len() <= cap
}

/// The makers of the records, in the order of their identifiers.
pub open spec fn makers(escrows: Seq<Record>) -> Seq<AccountId> {
    Seq::new(escrows.len(), |i: int| escrows[i].maker)
}

/// The takers of the records, in the order of their identifiers.
pub open spec fn takers(escrows: Seq<Record>) -> Seq<AccountId> {
    Seq::new(escrows.len(), |i: int| escrows[i].taker)
}

/// Both account indices are coherent with the records.
pub open spec fn indices_coherent(s: State) -> bool {
    &&& index_coherent(makers(s.escrows), s.by_maker, s.config.max_escrows_per_account)
    &&& index_coherent(takers(s.escrows), s.by_taker, s.config.max_escrows_per_account)
}

/// What `r` keeps in custody of `asset`: its amount while it is `Active`.
pub open spec fn held(r: Record, asset: AssetType) -> nat {
    if r.state is Active && r.asset_type == asset {
        r.amount as nat
    } else {
        0
    }
}

/// The sum, over the `Active` records of `asset`, of their amounts.
pub open spec fn custody(escrows: Seq<Record>, asset: AssetType) -> nat
    decreases escrows.len(),
{
    if escrows.len() == 0 {
        0
    } else {
        custody(escrows.drop_last(), asset) + held(escrows.last(), asset)
    }
}

/// Some record names the custodian itself as maker or taker.
pub open spec fn sovereign_is_party(s: State) -> bool {
    exists|i: int|
        0 <= i < s.escrows.len() && ((#[trigger] s.escrows[i]).maker == s.sovereign
            || s.escrows[i].taker == s.sovereign)
}

/// The custodian holds, of every asset, exactly what the `Active` records of
/// that asset amount to.
pub open spec fn custody_conserved(s: State) -> bool {
    forall|asset: AssetType|
        s.balances[(asset, s.sovereign)] == #[trigger] custody(s.escrows, asset)
}

/// Custody is conserved as long as the custodian is kept out of the escrows:
/// a move from or to the custodian on its own account cannot change what it
/// holds.
pub open spec fn custody_sound(s: State) -> bool {
    sovereign_is_party(s) || custody_conserved(s)
}

/// The invariant of the engine.
pub open spec fn inv(s: State) -> bool {
    &&& custodian_fixed(s)
    &&& ids_unique(s)
    &&& book_complete(s.balances)
    &&& records_sound(s)
    &&& secret_index_sound(s)
    &&& live_indexed(s)
    &&& indices_coherent(s)
    &&& custody_sound(s)
}

/// How a record may differ between an earlier and a later state: not at all,
/// or by its state alone, along the edges of the lifecycle.
pub open spec fn evolved(before: Record, after: Record) -> bool {
    &&& after == with_state(before, after.state)
    &&& after.state == before.state || (match before.state {
        EscrowState::Created => true,
        EscrowState::Active => after.state is Completed || after.state is Cancelled,
        EscrowState::Completed => false,
        EscrowState::Cancelled => false,
    })
}

/// No record of `before` is lost in `after`, and each has only evolved.
pub open spec fn monotone(before: State, after: State) -> bool {
    &&& before.escrows.len() <= after.escrows.len()
    &&& forall|i: int|
        0 <= i < before.escrows.len() ==> evolved(
            #[trigger] before.escrows[i],
            after.escrows[i],
        )
}

} // verus!
