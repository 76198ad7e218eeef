//! What holds of the engine, whatever is called and in whatever order.
//!
//! The laws are stated over the model; the engine's operations are specified
//! as the model's, and a well-formed engine is in a state that satisfies the
//! model's invariant, so they hold of the engine too.

use vstd::prelude::*;
use crate::config::Config;
use crate::hashing::digest;
use crate::invariance::{lemma_genesis_inv, lemma_step_inv};
use crate::machine::{completion, funding, is_terminal, legal_edge, refund, with_state};
use crate::model::{
    cancel, cancel_before_funding, complete, create, custody, find, fund, genesis, inv,
    is_gated, listed, live_digests_distinct, makers, monotone, origin_of, refused, run,
    sovereign_is_party, step, takers, toggle_pause, Call, State,
};
use crate::types::{AccountId, AssetType, BlockNumber, Error, EscrowId, Notice, Origin};

verus! {

/// From a state that satisfies the invariant, every sequence of calls ends
/// in one that does.
pub proof fn lemma_run_keeps_invariant(s: State, calls: Seq<Call>)
    requires
        inv(s),
    ensures
        inv(run(s, calls)),
    decreases calls.len(),
{
    if calls.len() > 0 {
        lemma_run_keeps_invariant(s, calls.drop_last());
        lemma_step_inv(run(s, calls.drop_last()), calls.last());
    }
}

/// Whatever is called on a fresh engine, and in whatever order, the invariant
/// holds after every single call: identifiers are unique, live commitments
/// have distinct digests, the indices agree with the records and custody is
/// sound.
pub proof fn lemma_invariant_after_every_call(config: Config, calls: Seq<Call>)
    ensures
        forall|k: int|
            0 <= k <= calls.len() ==> inv(#[trigger] run(genesis(config), calls.take(k))),
{
    assert forall|k: int| 0 <= k <= calls.len() implies inv(
        #[trigger] run(genesis(config), calls.take(k)),
    ) by {
        lemma_genesis_inv(config);
        lemma_run_keeps_invariant(genesis(config), calls.take(k));
    }
}

/// Identifier uniqueness: a record stands under exactly the identifiers from
/// 1 up to the counter, one record each, so the counter exceeds every
/// identifier that was assigned.
pub proof fn lemma_records_are_those_below_the_counter(s: State, id: EscrowId)
    requires
        inv(s),
    ensures
        find(s, id) is Some <==> 1 <= id < s.next_id,
{
}

/// A call that answers with an error has changed nothing: neither store nor
/// ledger nor the events.
pub proof fn lemma_failure_changes_nothing(s: State, call: Call)
    requires
        step(s, call).result is Err,
    ensures
        step(s, call).state == s,
{
}

/// The configuration and the custodian are the same before and after every call.
pub proof fn lemma_custodian_never_changes(s: State, call: Call)
    ensures
        step(s, call).state.config == s.config,
        step(s, call).state.sovereign == s.sovereign,
{
}

/// Custody conservation: as long as no escrow names the custodian itself as
/// maker or taker, the custodian's balance of every asset is the sum of the
/// amounts of the `Active` records of that asset.
pub proof fn lemma_custody_conservation(s: State, asset: AssetType)
    requires
        inv(s),
        !sovereign_is_party(s),
    ensures
        s.balances[(asset, s.sovereign)] == custody(s.escrows, asset),
{
}

/// Hash uniqueness: no two live records share a digest.
pub proof fn lemma_live_digests_distinct(s: State)
    requires
        inv(s),
    ensures
        live_digests_distinct(s),
{
}

/// A digest that is taken makes every further creation with it fail, and it
/// stays taken through every call but a successful withdrawal of the unfunded
/// escrow that took it: a commitment that saw funds is never reused.
pub proof fn lemma_digest_stays_taken(s: State, call: Call, digest: Seq<u8>)
    requires
        inv(s),
        s.by_secret.contains_key(digest),
        !(call is CancelBeforeFunding),
    ensures
        step(s, call).state.by_secret.contains_key(digest),
        step(s, call).state.by_secret[digest] == s.by_secret[digest],
{
}

/// After a successful withdrawal of an unfunded escrow its digest is free: a
/// creation with the same digest is not refused as a duplicate.
pub proof fn lemma_digest_free_after_withdrawal(
    s: State,
    origin: Origin,
    id: EscrowId,
    again: Origin,
    timelock: BlockNumber,
    taker: AccountId,
    asset_type: AssetType,
    amount: u128,
    xcm_destination: Option<u32>,
    metadata: Seq<u8>,
)
    requires
        inv(s),
        cancel_before_funding(s, origin, id).result is Ok,
    ensures
        !cancel_before_funding(s, origin, id).state.by_secret.contains_key(
            s.escrows[id - 1].secret_hash,
        ),
        create(
            cancel_before_funding(s, origin, id).state,
            again,
            s.escrows[id - 1].secret_hash,
            timelock,
            taker,
            asset_type,
            amount,
            xcm_destination,
            metadata,
        ).result != Err::<(), Error>(Error::DuplicateSecretHash),
{
}

/// Index coherence: a record is listed under its maker and under its taker,
/// and whatever is listed under an account is a record of that account.
pub proof fn lemma_indices_agree_with_records(s: State, id: EscrowId, who: AccountId)
    requires
        inv(s),
    ensures
        listed(s.by_maker, who).contains(id) <==> (find(s, id) matches Some(r) && r.maker == who),
        listed(s.by_taker, who).contains(id) <==> (find(s, id) matches Some(r) && r.taker == who),
        listed(s.by_maker, who).len() <= s.config.max_escrows_per_account,
        listed(s.by_taker, who).len() <= s.config.max_escrows_per_account,
{
    if find(s, id) is Some {
        assert(makers(s.escrows)[id - 1] == s.escrows[id - 1].maker);
        assert(takers(s.escrows)[id - 1] == s.escrows[id - 1].taker);
    }
}

/// State monotonicity, one call at a time: a call loses no record, and a
/// record it touches moves along one edge of the lifecycle and changes in
/// nothing but its state. A terminal record is never touched.
pub proof fn lemma_step_follows_edges(s: State, call: Call, i: int)
    requires
        0 <= i < s.escrows.len(),
    ensures
        s.escrows.len() <= step(s, call).state.escrows.len(),
        step(s, call).state.escrows[i] == s.escrows[i] || (legal_edge(
            s.escrows[i].state,
            step(s, call).state.escrows[i].state,
        ) && step(s, call).state.escrows[i] == with_state(
            s.escrows[i],
            step(s, call).state.escrows[i].state,
        )),
        is_terminal(s.escrows[i].state) ==> step(s, call).state.escrows[i] == s.escrows[i],
{
}

/// State monotonicity over any sequence of calls: every record is still
/// there, changed in nothing but its state, and its state has only moved
/// forward; once `Completed` or `Cancelled` it is as it was.
pub proof fn lemma_run_is_monotone(s: State, calls: Seq<Call>)
    ensures
        monotone(s, run(s, calls)),
    decreases calls.len(),
{
    if calls.len() > 0 {
        lemma_run_is_monotone(s, calls.drop_last());
    }
}

/// Terminal states are final: on a `Completed` or `Cancelled` record, with
/// the engine not paused, completion by any signed caller and funding,
/// cancellation and withdrawal by the maker all answer `InvalidEscrowState`
/// and change nothing.
pub proof fn lemma_terminal_is_final(s: State, caller: AccountId, id: EscrowId, preimage: Seq<u8>)
    requires
        !s.paused,
        find(s, id) matches Some(r) && is_terminal(r.state),
    ensures
        complete(s, Origin::Signed(caller), id, preimage) == refused(
            s,
            Error::InvalidEscrowState,
        ),
        caller == s.escrows[id - 1].maker ==> fund(s, Origin::Signed(caller), id) == refused(
            s,
            Error::InvalidEscrowState,
        ),
        caller == s.escrows[id - 1].maker ==> cancel(s, Origin::Signed(caller), id) == refused(
            s,
            Error::InvalidEscrowState,
        ),
        caller == s.escrows[id - 1].maker ==> cancel_before_funding(
            s,
            Origin::Signed(caller),
            id,
        ) == refused(s, Error::InvalidEscrowState),
{
}

/// A terminal record withstands every call from every origin: the call that
/// names it answers with an error and changes nothing.
pub proof fn lemma_terminal_refuses_all(s: State, origin: Origin, id: EscrowId, preimage: Seq<u8>)
    requires
        find(s, id) matches Some(r) && is_terminal(r.state),
    ensures
        fund(s, origin, id).result is Err,
        fund(s, origin, id).state == s,
        complete(s, origin, id, preimage).result is Err,
        complete(s, origin, id, preimage).state == s,
        cancel(s, origin, id).result is Err,
        cancel(s, origin, id).state == s,
        cancel_before_funding(s, origin, id).result is Err,
        cancel_before_funding(s, origin, id).state == s,
{
}

/// Origin safety: the circuit breaker answers to the privileged origin alone.
/// A signed caller, like anyone else, gets `BadOrigin` and changes nothing.
pub proof fn lemma_only_root_toggles(s: State, origin: Origin)
    ensures
        toggle_pause(s, origin).result is Ok <==> origin is Root,
        origin is Root ==> toggle_pause(s, origin).state.paused == !s.paused,
        !(origin is Root) ==> toggle_pause(s, origin) == refused(s, Error::BadOrigin),
{
}

/// Nothing but a privileged `toggle_pause` moves the circuit breaker.
pub proof fn lemma_breaker_moves_only_by_root(s: State, call: Call)
    requires
        step(s, call).state.paused != s.paused,
    ensures
        call is TogglePause,
        origin_of(call) == Some(Origin::Root),
{
}

/// The pause gate: while the engine is paused, every operation on escrows by
/// a signed caller answers `PalletPaused` and changes nothing.
pub proof fn lemma_paused_gates_dispatch(s: State, call: Call)
    requires
        s.paused,
        is_gated(call),
        origin_of(call) matches Some(Origin::Signed(_)),
    ensures
        step(s, call) == refused(s, Error::PalletPaused),
{
}

/// Pause safety: while the engine is paused no call, from whatever origin,
/// creates a record or moves one to another state, and none but the clock,
/// the breaker and a credit from outside changes anything at all.
pub proof fn lemma_paused_freezes_records(s: State, call: Call)
    requires
        s.paused,
    ensures
        step(s, call).state.escrows == s.escrows,
        step(s, call).state.by_secret == s.by_secret,
        step(s, call).state.next_id == s.next_id,
        is_gated(call) ==> step(s, call).state == s && step(s, call).result is Err,
{
}

/// A toggle does not alter any record, index or balance.
pub proof fn lemma_toggle_touches_no_record(s: State, origin: Origin)
    ensures
        toggle_pause(s, origin).state.escrows == s.escrows,
        toggle_pause(s, origin).state.by_secret == s.by_secret,
        toggle_pause(s, origin).state.by_maker == s.by_maker,
        toggle_pause(s, origin).state.by_taker == s.by_taker,
        toggle_pause(s, origin).state.balances == s.balances,
        toggle_pause(s, origin).state.next_id == s.next_id,
{
}

/// Events are only ever appended: what was published stays published, in order.
pub proof fn lemma_events_append_only(s: State, call: Call)
    ensures
        s.events.is_prefix_of(step(s, call).state.events),
        step(s, call).result is Err ==> step(s, call).state.events == s.events,
{
}

/// The clock never runs backwards.
pub proof fn lemma_clock_is_monotone(s: State, call: Call)
    ensures
        s.now <= step(s, call).state.now,
{
}

/// The identifier counter never decreases, and a successful creation is the
/// only call that raises it: by exactly one, for the identifier it assigned.
pub proof fn lemma_identifiers_are_assigned_in_order(s: State, call: Call)
    requires
        inv(s),
    ensures
        s.next_id <= step(s, call).state.next_id,
        step(s, call).state.next_id != s.next_id ==> call is Create && step(s, call).result is Ok
            && step(s, call).state.next_id == s.next_id + 1 && find(
            step(s, call).state,
            s.next_id,
        ) is Some && find(s, s.next_id) is None,
{
}

/// The hashlock: a completion succeeds only on an `Active` record, before its
/// timelock, for a preimage whose digest under the configured hash is the
/// commitment; and it publishes that preimage together with the taker.
pub proof fn lemma_completion_needs_the_preimage(
    s: State,
    origin: Origin,
    id: EscrowId,
    preimage: Seq<u8>,
)
    requires
        complete(s, origin, id, preimage).result is Ok,
    ensures
        find(s, id) matches Some(r) && r.state is Active && s.now < r.timelock && digest(
            s.config.hashing,
            preimage,
        ) == r.secret_hash,
        find(complete(s, origin, id, preimage).state, id) matches Some(r) && r.state is Completed,
        complete(s, origin, id, preimage).state.events.last() == (Notice::EscrowCompleted {
            escrow_id: id,
            taker: s.escrows[id - 1].taker,
            secret: preimage,
        }),
{
}

/// The timelock: in one and the same state a record cannot be both completed
/// and refunded. Completion needs a block before the timelock, the refund a
/// block at or after it.
pub proof fn lemma_settlement_excludes_refund(
    s: State,
    settler: Origin,
    canceller: Origin,
    id: EscrowId,
    preimage: Seq<u8>,
)
    ensures
        !(complete(s, settler, id, preimage).result is Ok && cancel(s, canceller, id).result
            is Ok),
        cancel(s, canceller, id).result is Ok ==> (find(s, id) matches Some(r) && r.state
            is Active && s.now >= r.timelock && canceller == Origin::Signed(r.maker)),
{
}

/// Funding is the maker's, and only while the window is open: it succeeds
/// only on a `Created` record, before its timelock, for the maker, and leaves
/// the record `Active`.
pub proof fn lemma_funding_is_the_makers(s: State, origin: Origin, id: EscrowId)
    requires
        fund(s, origin, id).result is Ok,
    ensures
        find(s, id) matches Some(r) && r.state is Created && s.now < r.timelock && origin
            == Origin::Signed(r.maker) && !(r.asset_type is Nft),
        find(fund(s, origin, id).state, id) matches Some(r) && r.state is Active,
{
}

/// No call creates or destroys an asset but a credit from outside: a
/// dispatch changes at most the balances of two accounts in one asset, and
/// what one loses the other gains.
pub proof fn lemma_moves_are_zero_sum(s: State, call: Call)
    requires
        !(call is Endow),
    ensures
        step(s, call).state.balances == s.balances || exists|
            asset: AssetType,
            from: AccountId,
            to: AccountId,
        |
            {
                &&& from != to
                &&& step(s, call).state.balances[(asset, from)] + step(
                    s,
                    call,
                ).state.balances[(asset, to)] == s.balances[(asset, from)] + s.balances[(
                    asset,
                    to,
                )]
                &&& forall|k: (AssetType, AccountId)|
                    k != (asset, from) && k != (asset, to) ==> #[trigger] step(
                        s,
                        call,
                    ).state.balances[k] == s.balances[k]
            },
{
    let after = step(s, call).state;
    if after.balances != s.balances {
        let (id, t) = match call {
            Call::Fund { origin, id } => (
                id,
                funding(s.escrows[id - 1], origin->Signed_0, s.now, s.sovereign)->Ok_0,
            ),
            Call::Complete { origin, id, preimage } => (
                id,
                completion(
                    s.escrows[id - 1],
                    s.now,
                    digest(s.config.hashing, preimage),
                    s.sovereign,
                )->Ok_0,
            ),
            Call::Cancel { origin, id } => (
                id,
                refund(s.escrows[id - 1], origin->Signed_0, s.now, s.sovereign)->Ok_0,
            ),
            _ => (0u32, arbitrary()),
        };
        let asset = t.asset;
        let from = t.from;
        let to = t.to;
        assert(after.balances[(asset, from)] + after.balances[(asset, to)] == s.balances[(
            asset,
            from,
        )] + s.balances[(asset, to)]);
        assert forall|k: (AssetType, AccountId)|
            k != (asset, from) && k != (asset, to) implies #[trigger] after.balances[k]
            == s.balances[k] by {}
    }
}

/// A dispatch that succeeds publishes exactly one event; the clock and a
/// credit from outside publish none.
pub proof fn lemma_one_event_per_dispatch(s: State, call: Call)
    requires
        step(s, call).result is Ok,
    ensures
        (is_gated(call) || call is TogglePause) ==> step(s, call).state.events.len()
            == s.events.len() + 1 && step(s, call).state.events.drop_last() == s.events,
        (call is Advance || call is Endow) ==> step(s, call).state.events == s.events,
{
}

/// The event reserved for cross-chain routing is never published: whatever a
/// call appends to the events, it is not `XcmTransferInitiated`.
pub proof fn lemma_reserved_event_is_never_published(s: State, call: Call, i: int)
    requires
        s.events.len() <= i < step(s, call).state.events.len(),
    ensures
        !(step(s, call).state.events[i] is XcmTransferInitiated),
{
}

/// The error reserved for cross-chain routing is never the answer.
pub proof fn lemma_reserved_error_is_never_returned(s: State, call: Call)
    ensures
        step(s, call).result != Err::<(), Error>(Error::XcmExecutionFailed),
{
}

} // verus!
