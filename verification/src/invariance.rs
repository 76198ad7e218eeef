//! Every operation of the model keeps the invariant.

use vstd::prelude::*;
use crate::config::Config;
use crate::custody::{book_complete, transfer_outcome, Balances};
use crate::hashing::digest;
use crate::machine::{completion, funding, legal_edge, refund, with_state};
use crate::model::{
    advance, cancel, cancel_before_funding, complete_with, create, custody, endow, enlisted, find,
    fund, genesis, held, index_coherent, inv, listed, makers, reason_cancelled_before_funding,
    reason_timelock_expired, record_sound, settled, sovereign_is_party, step, takers,
    toggle_pause, AccountIndex, Call, State,
};
use crate::types::{
    AccountId, AssetType, BlockNumber, EscrowId, EscrowState, Notice, Origin, Record,
};

verus! {

/// Appending a record adds what it holds.
pub proof fn lemma_custody_push(escrows: Seq<Record>, r: Record, asset: AssetType)
    ensures
        custody(escrows.push(r), asset) == custody(escrows, asset) + held(r, asset),
{
    assert(escrows.push(r).drop_last() =~= escrows);
}

/// Replacing a record exchanges what the old one held for what the new one holds.
pub proof fn lemma_custody_update(escrows: Seq<Record>, i: int, r: Record, asset: AssetType)
    requires
        0 <= i < escrows.len(),
    ensures
        custody(escrows.update(i, r), asset) == custody(escrows, asset) - held(escrows[i], asset)
            + held(r, asset),
    decreases escrows.len(),
{
    let updated = escrows.update(i, r);
    if i == escrows.len() - 1 {
        assert(updated.drop_last() =~= escrows.drop_last());
    } else {
        assert(updated.drop_last() =~= escrows.drop_last().update(i, r));
        lemma_custody_update(escrows.drop_last(), i, r, asset);
    }
}

/// An index stays coherent when a new record's party is appended to both the
/// parties and that party's list.
pub proof fn lemma_index_push(
    parties: Seq<AccountId>,
    index: AccountIndex,
    cap: u32,
    who: AccountId,
)
    requires
        index_coherent(parties, index, cap),
        listed(index, who).len() < cap,
        parties.len() + 1 <= u32::MAX,
    ensures
        index_coherent(
            parties.push(who),
            enlisted(index, who, (parties.len() + 1) as u32),
            cap,
        ),
{
    let id = (parties.len() + 1) as u32;
    let after = enlisted(index, who, id);
    let longer = parties.push(who);
    assert forall|a: AccountId| #[trigger] listed(after, a) == (if a == who {
        listed(index, who).push(id)
    } else {
        listed(index, a)
    }) by {}
    assert forall|i: int| 0 <= i < longer.len() implies listed(
        after,
        #[trigger] longer[i],
    ).contains((i + 1) as u32) by {
        if i < parties.len() {
            let a = parties[i];
            let k = choose|k: int|
                0 <= k < listed(index, a).len() && listed(index, a)[k] == (i + 1) as u32;
            assert(listed(after, a)[k] == (i + 1) as u32);
        } else {
            let last = listed(index, who).len() as int;
            assert(listed(after, who)[last] == id);
        }
    }
}

/// The genesis state satisfies the invariant.
pub proof fn lemma_genesis_inv(config: Config)
    ensures
        inv(genesis(config)),
{
}

/// Moving one record along an edge of the lifecycle, with a book that
/// accounts for the move, keeps the invariant.
pub proof fn lemma_settled_inv(
    s: State,
    id: EscrowId,
    state: EscrowState,
    balances: Balances,
    notice: Notice,
)
    requires
        inv(s),
        1 <= id <= s.escrows.len(),
        legal_edge(s.escrows[id - 1].state, state),
        state is Active ==> !(s.escrows[id - 1].asset_type is Nft),
        book_complete(balances),
        sovereign_is_party(s) || forall|asset: AssetType|
            balances[(asset, s.sovereign)] == s.balances[(asset, s.sovereign)] - held(
                s.escrows[id - 1],
                asset,
            ) + #[trigger] held(with_state(s.escrows[id - 1], state), asset),
    ensures
        inv(settled(s, id, state, balances, notice)),
{
    let after = settled(s, id, state, balances, notice);
    let old_record = s.escrows[id - 1];
    let new_record = with_state(old_record, state);
    assert forall|i: int| 0 <= i < after.escrows.len() implies record_sound(
        after,
        #[trigger] after.escrows[i],
    ) by {}
    assert forall|h: Seq<u8>| #[trigger] after.by_secret.contains_key(h) implies 1
        <= after.by_secret[h] <= after.escrows.len() && after.escrows[after.by_secret[h]
        - 1].secret_hash == h by {}
    assert(makers(after.escrows) =~= makers(s.escrows));
    assert(takers(after.escrows) =~= takers(s.escrows));
    if sovereign_is_party(s) {
        let i = choose|i: int|
            0 <= i < s.escrows.len() && ((#[trigger] s.escrows[i]).maker == s.sovereign
                || s.escrows[i].taker == s.sovereign);
        assert(after.escrows[i].maker == s.sovereign || after.escrows[i].taker == s.sovereign);
    } else {
        assert forall|asset: AssetType|
            after.balances[(asset, after.sovereign)] == #[trigger] custody(
                after.escrows,
                asset,
            ) by {
            lemma_custody_update(s.escrows, id - 1, new_record, asset);
            assert(balances[(asset, s.sovereign)] == s.balances[(asset, s.sovereign)] - held(
                old_record,
                asset,
            ) + held(new_record, asset));
        }
    }
}

/// `create` keeps the invariant.
pub proof fn lemma_create_inv(
    s: State,
    origin: Origin,
    secret_hash: Seq<u8>,
    timelock: BlockNumber,
    taker: AccountId,
    asset_type: AssetType,
    amount: u128,
    xcm_destination: Option<u32>,
    metadata: Seq<u8>,
)
    requires
        inv(s),
    ensures
        inv(
            create(
                s,
                origin,
                secret_hash,
                timelock,
                taker,
                asset_type,
                amount,
                xcm_destination,
                metadata,
            ).state,
        ),
{
    let out = create(
        s,
        origin,
        secret_hash,
        timelock,
        taker,
        asset_type,
        amount,
        xcm_destination,
        metadata,
    );
    if out.result is Ok {
        let maker = origin->Signed_0;
        let after = out.state;
        let record = after.escrows.last();
        assert(makers(after.escrows) =~= makers(s.escrows).push(maker));
        assert(takers(after.escrows) =~= takers(s.escrows).push(taker));
        lemma_index_push(makers(s.escrows), s.by_maker, s.config.max_escrows_per_account, maker);
        lemma_index_push(takers(s.escrows), s.by_taker, s.config.max_escrows_per_account, taker);
        if sovereign_is_party(s) {
            let i = choose|i: int|
                0 <= i < s.escrows.len() && ((#[trigger] s.escrows[i]).maker == s.sovereign
                    || s.escrows[i].taker == s.sovereign);
            assert(after.escrows[i].maker == s.sovereign || after.escrows[i].taker
                == s.sovereign);
        } else if maker == s.sovereign || taker == s.sovereign {
            assert(record.maker == s.sovereign || record.taker == s.sovereign);
        } else {
            assert forall|asset: AssetType|
                after.balances[(asset, after.sovereign)] == #[trigger] custody(
                    after.escrows,
                    asset,
                ) by {
                lemma_custody_push(s.escrows, record, asset);
            }
        }
    }
}

/// `fund` keeps the invariant.
pub proof fn lemma_fund_inv(s: State, origin: Origin, id: EscrowId)
    requires
        inv(s),
    ensures
        inv(fund(s, origin, id).state),
{
    let out = fund(s, origin, id);
    if out.result is Ok {
        let caller = origin->Signed_0;
        let record = find(s, id)->Some_0;
        let t = funding(record, caller, s.now, s.sovereign)->Ok_0;
        let balances = transfer_outcome(s.balances, s.config.existential_deposit, t)->Ok_0;
        lemma_settled_inv(
            s,
            id,
            EscrowState::Active,
            balances,
            Notice::EscrowFunded {
                escrow_id: id,
                asset_type: record.asset_type,
                amount: record.amount,
            },
        );
    }
}

/// `complete_with` keeps the invariant, whatever digest it is given.
pub proof fn lemma_complete_inv(
    s: State,
    origin: Origin,
    id: EscrowId,
    preimage: Seq<u8>,
    preimage_digest: Seq<u8>,
)
    requires
        inv(s),
    ensures
        inv(complete_with(s, origin, id, preimage, preimage_digest).state),
{
    let out = complete_with(s, origin, id, preimage, preimage_digest);
    if out.result is Ok {
        let record = find(s, id)->Some_0;
        let t = completion(record, s.now, preimage_digest, s.sovereign)->Ok_0;
        let balances = transfer_outcome(s.balances, s.config.existential_deposit, t)->Ok_0;
        lemma_settled_inv(
            s,
            id,
            EscrowState::Completed,
            balances,
            Notice::EscrowCompleted { escrow_id: id, taker: record.taker, secret: preimage },
        );
    }
}

/// `cancel` keeps the invariant.
pub proof fn lemma_cancel_inv(s: State, origin: Origin, id: EscrowId)
    requires
        inv(s),
    ensures
        inv(cancel(s, origin, id).state),
{
    let out = cancel(s, origin, id);
    if out.result is Ok {
        let caller = origin->Signed_0;
        let record = find(s, id)->Some_0;
        let t = refund(record, caller, s.now, s.sovereign)->Ok_0;
        let balances = transfer_outcome(s.balances, s.config.existential_deposit, t)->Ok_0;
        lemma_settled_inv(
            s,
            id,
            EscrowState::Cancelled,
            balances,
            Notice::EscrowCancelled {
                escrow_id: id,
                maker: record.maker,
                reason: reason_timelock_expired(),
            },
        );
    }
}

/// `cancel_before_funding` keeps the invariant.
pub proof fn lemma_cancel_before_funding_inv(s: State, origin: Origin, id: EscrowId)
    requires
        inv(s),
    ensures
        inv(cancel_before_funding(s, origin, id).state),
{
    let out = cancel_before_funding(s, origin, id);
    if out.result is Ok {
        let record = find(s, id)->Some_0;
        let notice = Notice::EscrowCancelled {
            escrow_id: id,
            maker: record.maker,
            reason: reason_cancelled_before_funding(),
        };
        lemma_settled_inv(s, id, EscrowState::Cancelled, s.balances, notice);
    }
}

/// `toggle_pause` keeps the invariant.
pub proof fn lemma_toggle_pause_inv(s: State, origin: Origin)
    requires
        inv(s),
    ensures
        inv(toggle_pause(s, origin).state),
{
}

/// Moving the clock forward keeps the invariant.
pub proof fn lemma_advance_inv(s: State, to: BlockNumber)
    requires
        inv(s),
    ensures
        inv(advance(s, to)),
{
}

/// A credit from outside keeps the invariant.
pub proof fn lemma_endow_inv(s: State, asset: AssetType, who: AccountId, amount: u128)
    requires
        inv(s),
    ensures
        inv(endow(s, asset, who, amount).state),
{
}

/// Whatever is called, the invariant is kept.
pub proof fn lemma_step_inv(s: State, call: Call)
    requires
        inv(s),
    ensures
        inv(step(s, call).state),
{
    match call {
        Call::Create {
            origin,
            secret_hash,
            timelock,
            taker,
            asset_type,
            amount,
            xcm_destination,
            metadata,
        } => lemma_create_inv(
            s,
            origin,
            secret_hash,
            timelock,
            taker,
            asset_type,
            amount,
            xcm_destination,
            metadata,
        ),
        Call::Fund { origin, id } => lemma_fund_inv(s, origin, id),
        Call::Complete { origin, id, preimage } => lemma_complete_inv(
            s,
            origin,
            id,
            preimage,
            digest(s.config.hashing, preimage),
        ),
        Call::Cancel { origin, id } => lemma_cancel_inv(s, origin, id),
        Call::CancelBeforeFunding { origin, id } => lemma_cancel_before_funding_inv(s, origin, id),
        Call::TogglePause { origin } => lemma_toggle_pause_inv(s, origin),
        Call::Advance { to } => lemma_advance_inv(s, to),
        Call::Endow { asset, who, amount } => lemma_endow_inv(s, asset, who, amount),
    }
}

} // verus!
