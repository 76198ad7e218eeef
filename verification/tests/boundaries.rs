//! The edges of every window and bound, and an input for every error.

use fusion_escrow::config::Config;
use fusion_escrow::custody::{asset_fields, asset_from_tag, asset_tag, CustodyError};
use fusion_escrow::hashing::{hash_with, HashAlgorithm};
use fusion_escrow::machine::check_terms;
use fusion_escrow::pallet::{run_to_block, Pallet};
use fusion_escrow::types::{AssetType, Error, EscrowState, Origin};

const MIN: u64 = 10;
const MAX: u64 = 100800;

fn engine_with(max_escrows_per_account: u32, existential_deposit: u128) -> Pallet {
    let mut pallet = Pallet::new(Config {
        max_escrows_per_account,
        min_timelock: MIN,
        max_timelock: MAX,
        pallet_id: *b"plkv/esc",
        hashing: HashAlgorithm::Blake2,
        existential_deposit,
    });
    run_to_block(&mut pallet, 1);
    pallet
}

fn engine() -> Pallet {
    let mut pallet = engine_with(100, 500);
    for who in [1u64, 2, 3] {
        assert_eq!(pallet.endow(AssetType::Native, who, 10_000_000), Ok(()));
    }
    pallet
}

fn digest(n: u32) -> [u8; 32] {
    hash_with(HashAlgorithm::Blake2, &n.to_le_bytes())
}

fn create(pallet: &mut Pallet, maker: u64, taker: u64, n: u32, timelock: u64) -> Result<(), Error> {
    pallet.create_escrow(
        Origin::Signed(maker),
        digest(n),
        timelock,
        taker,
        AssetType::Native,
        1000,
        None,
        vec![],
    )
}

#[test]
fn timelock_lower_bound_is_inclusive() {
    let mut pallet = engine();
    run_to_block(&mut pallet, 7);
    assert_eq!(create(&mut pallet, 1, 2, 0, 7 + MIN - 1), Err(Error::InvalidTimelock));
    assert_eq!(pallet.next_escrow_id(), 1);
    assert_eq!(create(&mut pallet, 1, 2, 0, 7 + MIN), Ok(()));
    assert_eq!(pallet.get_escrow(1).unwrap().timelock, 17);
    assert_eq!(pallet.get_escrow(1).unwrap().created_block, 7);
}

#[test]
fn timelock_upper_bound_is_inclusive() {
    let mut pallet = engine();
    run_to_block(&mut pallet, 7);
    assert_eq!(create(&mut pallet, 1, 2, 0, 7 + MAX + 1), Err(Error::InvalidTimelock));
    assert_eq!(create(&mut pallet, 1, 2, 0, 7 + MAX), Ok(()));
    assert_eq!(pallet.get_escrow(1).unwrap().timelock, 100807);
}

#[test]
fn timelock_window_does_not_wrap_at_the_top_of_the_range() {
    // Near the end of the block range the window is cut by the range, not wrapped.
    assert_eq!(check_terms(1, 2, 1, u64::MAX - 5, MIN, MAX, u64::MAX), Err(Error::InvalidTimelock));
    assert_eq!(check_terms(1, 2, 1, u64::MAX - 10, MIN, MAX, u64::MAX), Ok(()));
    assert_eq!(check_terms(1, 2, 1, u64::MAX - 10, MIN, MAX, 3), Err(Error::InvalidTimelock));
    assert_eq!(check_terms(1, 2, 1, 0, 0, 0, 0), Ok(()));
}

#[test]
fn terms_are_checked_in_order() {
    // Same parties, zero amount and a bad timelock: the taker is reported.
    assert_eq!(check_terms(1, 1, 0, 1, MIN, MAX, 5), Err(Error::InvalidTaker));
    // Zero amount and a bad timelock: the amount is reported.
    assert_eq!(check_terms(1, 2, 0, 1, MIN, MAX, 5), Err(Error::InvalidAsset));
    assert_eq!(check_terms(1, 2, 1, 1, MIN, MAX, 5), Err(Error::InvalidTimelock));
    assert_eq!(check_terms(1, 2, 1, 1, MIN, MAX, 11), Ok(()));
}

#[test]
fn funding_window_closes_at_the_timelock() {
    let mut pallet = engine();
    assert_eq!(create(&mut pallet, 1, 2, 0, 20), Ok(()));
    assert_eq!(create(&mut pallet, 1, 2, 1, 20), Ok(()));
    run_to_block(&mut pallet, 19);
    assert_eq!(pallet.fund_escrow(Origin::Signed(1), 1), Ok(()));
    run_to_block(&mut pallet, 20);
    assert_eq!(pallet.fund_escrow(Origin::Signed(1), 2), Err(Error::TimelockExpired));
    assert_eq!(pallet.get_escrow(2).unwrap().state, EscrowState::Created);
}

#[test]
fn completion_window_closes_at_the_timelock() {
    let mut pallet = engine();
    assert_eq!(create(&mut pallet, 1, 2, 0, 20), Ok(()));
    assert_eq!(create(&mut pallet, 1, 2, 1, 20), Ok(()));
    assert_eq!(pallet.fund_escrow(Origin::Signed(1), 1), Ok(()));
    assert_eq!(pallet.fund_escrow(Origin::Signed(1), 2), Ok(()));
    run_to_block(&mut pallet, 19);
    assert_eq!(pallet.is_timelock_expired(1), false);
    assert_eq!(pallet.get_time_remaining(1), Some(1));
    assert_eq!(pallet.complete_escrow(Origin::Signed(2), 1, 0u32.to_le_bytes().to_vec()), Ok(()));
    run_to_block(&mut pallet, 20);
    assert_eq!(pallet.is_timelock_expired(2), true);
    assert_eq!(pallet.get_time_remaining(2), Some(0));
    assert_eq!(
        pallet.complete_escrow(Origin::Signed(2), 2, 1u32.to_le_bytes().to_vec()),
        Err(Error::TimelockExpired)
    );
}

#[test]
fn refund_opens_at_the_timelock() {
    let mut pallet = engine();
    assert_eq!(create(&mut pallet, 1, 2, 0, 20), Ok(()));
    assert_eq!(pallet.fund_escrow(Origin::Signed(1), 1), Ok(()));
    run_to_block(&mut pallet, 19);
    assert_eq!(pallet.cancel_escrow(Origin::Signed(1), 1), Err(Error::TimelockNotExpired));
    assert_eq!(pallet.get_escrow(1).unwrap().state, EscrowState::Active);
    run_to_block(&mut pallet, 20);
    assert_eq!(pallet.cancel_escrow(Origin::Signed(1), 1), Ok(()));
    assert_eq!(pallet.get_escrow(1).unwrap().state, EscrowState::Cancelled);
    assert_eq!(pallet.balance(AssetType::Native, 1), 10_000_000);
}

#[test]
fn time_remaining_saturates_at_zero() {
    let mut pallet = engine();
    assert_eq!(create(&mut pallet, 1, 2, 0, 20), Ok(()));
    assert_eq!(pallet.get_time_remaining(1), Some(19));
    run_to_block(&mut pallet, 500);
    assert_eq!(pallet.get_time_remaining(1), Some(0));
    assert_eq!(pallet.get_time_remaining(0), None);
    assert_eq!(pallet.get_time_remaining(2), None);
}

#[test]
fn the_clock_does_not_run_backwards() {
    let mut pallet = engine();
    run_to_block(&mut pallet, 30);
    run_to_block(&mut pallet, 12);
    assert_eq!(pallet.current_block(), 30);
    run_to_block(&mut pallet, 30);
    assert_eq!(pallet.current_block(), 30);
}

#[test]
fn zero_amount_is_rejected() {
    let mut pallet = engine();
    assert_eq!(
        pallet.create_escrow(
            Origin::Signed(1),
            digest(0),
            50,
            2,
            AssetType::Native,
            0,
            None,
            vec![]
        ),
        Err(Error::InvalidAsset)
    );
    assert_eq!(pallet.get_escrow(1), None);
}

#[test]
fn largest_amount_is_accepted_and_moves_if_the_ledger_permits() {
    let mut pallet = engine_with(100, 0);
    let sovereign = pallet.account_id();
    assert_eq!(pallet.endow(AssetType::Native, 1, u128::MAX), Ok(()));
    assert_eq!(pallet.endow(AssetType::Native, 3, 5), Ok(()));
    assert_eq!(
        pallet.create_escrow(
            Origin::Signed(1),
            digest(0),
            50,
            2,
            AssetType::Native,
            u128::MAX,
            None,
            vec![]
        ),
        Ok(())
    );
    assert_eq!(pallet.get_escrow(1).unwrap().amount, 340282366920938463463374607431768211455);
    assert_eq!(pallet.fund_escrow(Origin::Signed(1), 1), Ok(()));
    assert_eq!(pallet.balance(AssetType::Native, sovereign), u128::MAX);
    assert_eq!(pallet.balance(AssetType::Native, 1), 0);

    // The custodian's balance is at the top of its range: one unit more does not fit.
    assert_eq!(
        pallet.create_escrow(Origin::Signed(3), digest(1), 50, 2, AssetType::Native, 1, None, vec![]),
        Ok(())
    );
    assert_eq!(pallet.fund_escrow(Origin::Signed(3), 2), Err(Error::Overflow));
    assert_eq!(pallet.get_escrow(2).unwrap().state, EscrowState::Created);
    assert_eq!(pallet.balance(AssetType::Native, 3), 5);

    assert_eq!(pallet.complete_escrow(Origin::Signed(2), 1, 0u32.to_le_bytes().to_vec()), Ok(()));
    assert_eq!(pallet.balance(AssetType::Native, 2), u128::MAX);
    assert_eq!(pallet.balance(AssetType::Native, sovereign), 0);
}

#[test]
fn same_maker_and_taker_is_rejected_first() {
    let mut pallet = engine();
    // Zero amount and a timelock out of bounds as well: the taker is what is reported.
    assert_eq!(
        pallet.create_escrow(Origin::Signed(1), digest(0), 2, 1, AssetType::Native, 0, None, vec![]),
        Err(Error::InvalidTaker)
    );
}

#[test]
fn creation_checks_come_in_order() {
    let mut pallet = engine_with(1, 500);
    assert_eq!(create(&mut pallet, 1, 2, 0, 50), Ok(()));
    let long = vec![0u8; 257];
    // Taken digest, full lists and long metadata: the digest is reported.
    assert_eq!(
        pallet.create_escrow(
            Origin::Signed(1),
            digest(0),
            50,
            2,
            AssetType::Native,
            1,
            None,
            long.clone()
        ),
        Err(Error::DuplicateSecretHash)
    );
    // Full lists and long metadata: the lists are reported.
    assert_eq!(
        pallet.create_escrow(
            Origin::Signed(1),
            digest(1),
            50,
            2,
            AssetType::Native,
            1,
            None,
            long.clone()
        ),
        Err(Error::TooManyEscrows)
    );
    // Long metadata alone.
    assert_eq!(
        pallet.create_escrow(Origin::Signed(3), digest(1), 50, 4, AssetType::Native, 1, None, long),
        Err(Error::InvalidMetadata)
    );
    assert_eq!(pallet.next_escrow_id(), 2);
}

#[test]
fn metadata_of_256_bytes_is_kept_and_257_refused() {
    let mut pallet = engine();
    let full: Vec<u8> = (0..256u32).map(|i| (i % 251) as u8).collect();
    assert_eq!(
        pallet.create_escrow(
            Origin::Signed(1),
            digest(0),
            50,
            2,
            AssetType::Native,
            1000,
            None,
            full.clone()
        ),
        Ok(())
    );
    assert_eq!(pallet.get_escrow(1).unwrap().metadata, full);
    let mut over = full;
    over.push(9);
    assert_eq!(
        pallet.create_escrow(Origin::Signed(1), digest(1), 50, 2, AssetType::Native, 1000, None, over),
        Err(Error::InvalidMetadata)
    );
    assert_eq!(pallet.get_escrow(2), None);
    assert_eq!(pallet.get_escrow_by_secret(&digest(1)), None);
}

#[test]
fn lists_are_capped_on_the_makers_side() {
    let mut pallet = engine_with(2, 500);
    assert_eq!(create(&mut pallet, 1, 2, 0, 50), Ok(()));
    assert_eq!(create(&mut pallet, 1, 3, 1, 50), Ok(()));
    assert_eq!(create(&mut pallet, 1, 4, 2, 50), Err(Error::TooManyEscrows));
    assert_eq!(pallet.get_escrows_by_maker(&1), vec![1, 2]);
    assert_eq!(pallet.get_escrows_by_taker(&4), Vec::<u32>::new());
    // A cancelled escrow still counts: the list keeps every identifier.
    assert_eq!(pallet.cancel_before_funding(Origin::Signed(1), 1), Ok(()));
    assert_eq!(create(&mut pallet, 1, 4, 2, 50), Err(Error::TooManyEscrows));
}

#[test]
fn lists_are_capped_on_the_takers_side() {
    let mut pallet = engine_with(2, 500);
    assert_eq!(create(&mut pallet, 1, 9, 0, 50), Ok(()));
    assert_eq!(create(&mut pallet, 2, 9, 1, 50), Ok(()));
    assert_eq!(create(&mut pallet, 3, 9, 2, 50), Err(Error::TooManyEscrows));
    assert_eq!(pallet.get_escrows_by_taker(&9), vec![1, 2]);
    assert_eq!(pallet.get_escrows_by_maker(&3), Vec::<u32>::new());
    assert_eq!(pallet.get_escrow_by_secret(&digest(2)), None);
    assert_eq!(create(&mut pallet, 3, 8, 2, 50), Ok(()));
}

#[test]
fn a_cap_of_zero_admits_nothing() {
    let mut pallet = engine_with(0, 500);
    assert_eq!(create(&mut pallet, 1, 2, 0, 50), Err(Error::TooManyEscrows));
}

#[test]
fn unsigned_and_root_origins_are_bad_for_escrow_operations() {
    let mut pallet = engine();
    assert_eq!(create(&mut pallet, 1, 2, 0, 50), Ok(()));
    for origin in [Origin::Root, Origin::Unsigned] {
        assert_eq!(
            pallet.create_escrow(origin, digest(1), 50, 2, AssetType::Native, 1000, None, vec![]),
            Err(Error::BadOrigin)
        );
        assert_eq!(pallet.fund_escrow(origin, 1), Err(Error::BadOrigin));
        assert_eq!(pallet.complete_escrow(origin, 1, vec![]), Err(Error::BadOrigin));
        assert_eq!(pallet.cancel_escrow(origin, 1), Err(Error::BadOrigin));
        assert_eq!(pallet.cancel_before_funding(origin, 1), Err(Error::BadOrigin));
    }
    // A bad origin is reported even while the engine is paused.
    assert_eq!(pallet.toggle_pause(Origin::Root), Ok(()));
    assert_eq!(pallet.fund_escrow(Origin::Unsigned, 1), Err(Error::BadOrigin));
    assert_eq!(pallet.fund_escrow(Origin::Signed(1), 1), Err(Error::PalletPaused));
}

#[test]
fn unknown_identifiers_are_not_found() {
    let mut pallet = engine();
    assert_eq!(create(&mut pallet, 1, 2, 0, 50), Ok(()));
    for id in [0u32, 2, 999, u32::MAX] {
        assert_eq!(pallet.fund_escrow(Origin::Signed(1), id), Err(Error::EscrowNotFound));
        assert_eq!(pallet.complete_escrow(Origin::Signed(1), id, vec![]), Err(Error::EscrowNotFound));
        assert_eq!(pallet.cancel_escrow(Origin::Signed(1), id), Err(Error::EscrowNotFound));
        assert_eq!(pallet.cancel_before_funding(Origin::Signed(1), id), Err(Error::EscrowNotFound));
        assert_eq!(pallet.get_escrow(id), None);
        assert_eq!(pallet.is_escrow_active(id), false);
        assert_eq!(pallet.is_timelock_expired(id), false);
        assert_eq!(pallet.verify_secret(id, &0u32.to_le_bytes()), false);
    }
}

#[test]
fn wrong_state_is_reported_for_each_edge() {
    let mut pallet = engine();
    assert_eq!(create(&mut pallet, 1, 2, 0, 50), Ok(()));
    // Created: neither completion nor refund.
    assert_eq!(
        pallet.complete_escrow(Origin::Signed(2), 1, 0u32.to_le_bytes().to_vec()),
        Err(Error::InvalidEscrowState)
    );
    assert_eq!(pallet.cancel_escrow(Origin::Signed(1), 1), Err(Error::InvalidEscrowState));
    assert_eq!(pallet.fund_escrow(Origin::Signed(1), 1), Ok(()));
    // Active: neither funding nor withdrawal.
    assert_eq!(pallet.fund_escrow(Origin::Signed(1), 1), Err(Error::InvalidEscrowState));
    assert_eq!(pallet.cancel_before_funding(Origin::Signed(1), 1), Err(Error::InvalidEscrowState));
    // Withdrawal is the maker's alone.
    assert_eq!(pallet.cancel_before_funding(Origin::Signed(2), 1), Err(Error::NotAuthorized));
}

#[test]
fn funding_needs_the_funds_and_keeps_the_existential_deposit() {
    let mut pallet = engine_with(100, 500);
    assert_eq!(pallet.endow(AssetType::Native, 1, 1499), Ok(()));
    assert_eq!(create(&mut pallet, 1, 2, 0, 50), Ok(()));
    // 1499 - 1000 leaves 499, below the deposit of 500.
    assert_eq!(pallet.fund_escrow(Origin::Signed(1), 1), Err(Error::InsufficientBalance));
    assert_eq!(pallet.get_escrow(1).unwrap().state, EscrowState::Created);
    assert_eq!(pallet.balance(AssetType::Native, 1), 1499);
    assert_eq!(pallet.endow(AssetType::Native, 1, 1), Ok(()));
    assert_eq!(pallet.fund_escrow(Origin::Signed(1), 1), Ok(()));
    assert_eq!(pallet.balance(AssetType::Native, 1), 500);

    // An account that holds less than the amount.
    assert_eq!(pallet.endow(AssetType::Native, 3, 999), Ok(()));
    assert_eq!(create(&mut pallet, 3, 2, 1, 50), Ok(()));
    assert_eq!(pallet.fund_escrow(Origin::Signed(3), 2), Err(Error::InsufficientBalance));
    // An asset the maker holds nothing of.
    assert_eq!(
        pallet.create_escrow(
            Origin::Signed(1),
            digest(2),
            50,
            2,
            AssetType::Asset(7),
            1,
            None,
            vec![]
        ),
        Ok(())
    );
    assert_eq!(pallet.fund_escrow(Origin::Signed(1), 3), Err(Error::InsufficientBalance));
}

#[test]
fn the_custodian_may_be_emptied() {
    let mut pallet = engine_with(100, 500);
    let sovereign = pallet.account_id();
    assert_eq!(pallet.endow(AssetType::Native, 1, 10_000), Ok(()));
    assert_eq!(create(&mut pallet, 1, 2, 0, 50), Ok(()));
    assert_eq!(pallet.fund_escrow(Origin::Signed(1), 1), Ok(()));
    // Paying out leaves the custodian below the deposit, at zero: it is expendable.
    assert_eq!(pallet.complete_escrow(Origin::Signed(2), 1, 0u32.to_le_bytes().to_vec()), Ok(()));
    assert_eq!(pallet.balance(AssetType::Native, sovereign), 0);
    assert_eq!(pallet.balance(AssetType::Native, 2), 1000);
}

#[test]
fn non_fungible_escrows_are_recorded_but_never_funded() {
    let mut pallet = engine();
    let sovereign = pallet.account_id();
    let item = AssetType::Nft(3, 42);
    assert_eq!(pallet.create_escrow(Origin::Signed(1), digest(0), 50, 2, item, 1, None, vec![]), Ok(()));
    assert_eq!(pallet.get_escrow(1).unwrap().asset_type, item);
    assert_eq!(pallet.fund_escrow(Origin::Signed(1), 1), Err(Error::InvalidAsset));
    assert_eq!(pallet.get_escrow(1).unwrap().state, EscrowState::Created);
    assert_eq!(pallet.balance(item, 1), 0);
    assert_eq!(pallet.balance(item, sovereign), 0);
    assert_eq!(pallet.endow(item, 1, 1), Err(Error::InvalidAsset));
    assert_eq!(pallet.cancel_before_funding(Origin::Signed(1), 1), Ok(()));
    assert_eq!(pallet.get_escrow(1).unwrap().state, EscrowState::Cancelled);
}

#[test]
fn credits_from_outside_have_their_limits() {
    let mut pallet = engine_with(100, 500);
    let sovereign = pallet.account_id();
    assert_eq!(pallet.endow(AssetType::Native, sovereign, 1), Err(Error::NotAuthorized));
    assert_eq!(pallet.balance(AssetType::Native, sovereign), 0);
    assert_eq!(pallet.endow(AssetType::Asset(u32::MAX), 5, u128::MAX), Ok(()));
    assert_eq!(pallet.endow(AssetType::Asset(u32::MAX), 5, 1), Err(Error::Overflow));
    assert_eq!(pallet.balance(AssetType::Asset(u32::MAX), 5), u128::MAX);
    // Balances are kept apart by asset and by account.
    assert_eq!(pallet.balance(AssetType::Asset(u32::MAX - 1), 5), 0);
    assert_eq!(pallet.balance(AssetType::Asset(u32::MAX), 6), 0);
    assert_eq!(pallet.balance(AssetType::Native, 5), 0);
    assert_eq!(pallet.endow(AssetType::Native, u64::MAX, 3), Ok(()));
    assert_eq!(pallet.balance(AssetType::Native, u64::MAX), 3);
    assert_eq!(pallet.balance(AssetType::Asset(0), 0), 0);
    assert_eq!(pallet.balance(AssetType::Asset(0), u64::MAX), 0);
}

#[test]
fn the_lifecycle_has_four_edges() {
    let (created, active) = (EscrowState::Created, EscrowState::Active);
    let (completed, cancelled) = (EscrowState::Completed, EscrowState::Cancelled);
    let all = [created, active, completed, cancelled];
    let edges = [(created, active), (created, cancelled), (active, completed), (active, cancelled)];
    for from in all {
        for to in all {
            assert_eq!(from.leads_to(to), edges.contains(&(from, to)));
        }
    }
    let mut pallet = engine();
    assert_eq!(create(&mut pallet, 1, 2, 0, 50), Ok(()));
    let mut record = pallet.get_escrow(1).unwrap();
    let before = record.clone();
    assert_eq!(record.advance(completed), Err(Error::InvalidEscrowState));
    assert_eq!(record, before);
    assert_eq!(record.advance(active), Ok(()));
    assert_eq!(record.state, active);
    assert_eq!(record.advance(created), Err(Error::InvalidEscrowState));
    assert_eq!(record.advance(completed), Ok(()));
    for to in all {
        assert_eq!(record.advance(to), Err(Error::InvalidEscrowState));
        assert_eq!(record.state, completed);
    }
    // A copy handed out is the caller's own: the stored record has not moved.
    assert_eq!(pallet.get_escrow(1).unwrap(), before);
}

#[test]
fn the_record_decides_each_edge() {
    let mut pallet = engine();
    assert_eq!(create(&mut pallet, 1, 2, 0, 20), Ok(()));
    let mut record = pallet.get_escrow(1).unwrap();
    let custodian = pallet.account_id();
    let t = record.plan_funding(1, 19, custodian).unwrap();
    assert_eq!((t.from, t.to, t.amount, t.asset), (1, custodian, 1000, AssetType::Native));
    assert_eq!(t.preservation, fusion_escrow::types::Preservation::Preserve);
    assert_eq!(record.plan_funding(2, 19, custodian), Err(Error::NotAuthorized));
    assert_eq!(record.plan_funding(1, 20, custodian), Err(Error::TimelockExpired));
    assert_eq!(record.plan_completion(1, &digest(0), custodian), Err(Error::InvalidEscrowState));
    assert_eq!(record.check_withdrawal(1), Ok(()));
    assert_eq!(record.check_withdrawal(2), Err(Error::NotAuthorized));

    assert_eq!(record.advance(EscrowState::Active), Ok(()));
    let t = record.plan_completion(19, &digest(0), custodian).unwrap();
    assert_eq!((t.from, t.to, t.amount), (custodian, 2, 1000));
    assert_eq!(t.preservation, fusion_escrow::types::Preservation::Expendable);
    assert_eq!(record.plan_completion(19, &digest(1), custodian), Err(Error::InvalidSecret));
    assert_eq!(record.plan_completion(20, &digest(0), custodian), Err(Error::TimelockExpired));
    // Out of its window and with a wrong digest: the window is reported.
    assert_eq!(record.plan_completion(20, &digest(1), custodian), Err(Error::TimelockExpired));
    let t = record.plan_refund(1, 20, custodian).unwrap();
    assert_eq!((t.from, t.to, t.amount), (custodian, 1, 1000));
    assert_eq!(record.plan_refund(1, 19, custodian), Err(Error::TimelockNotExpired));
    assert_eq!(record.plan_refund(2, 20, custodian), Err(Error::NotAuthorized));
    assert_eq!(record.plan_funding(1, 19, custodian), Err(Error::InvalidEscrowState));
    assert_eq!(record.check_withdrawal(1), Err(Error::InvalidEscrowState));
}

#[test]
fn unknown_asset_tags_are_unsupported_assets() {
    assert_eq!(asset_from_tag(0, 7, 8), Ok(AssetType::Native));
    assert_eq!(asset_from_tag(1, 7, 8), Ok(AssetType::Asset(7)));
    assert_eq!(asset_from_tag(2, 7, 8), Ok(AssetType::Nft(7, 8)));
    for tag in 3..=255u8 {
        assert_eq!(asset_from_tag(tag, 7, 8), Err(CustodyError::UnsupportedAsset));
    }
    for asset in [AssetType::Native, AssetType::Asset(u32::MAX), AssetType::Nft(5, 0)] {
        let (first, second) = asset_fields(&asset);
        assert_eq!(asset_from_tag(asset_tag(&asset), first, second), Ok(asset));
    }
    assert_eq!(CustodyError::UnsupportedAsset.surface(), Error::InvalidAsset);
    assert_eq!(CustodyError::InsufficientFunds.surface(), Error::InsufficientBalance);
    assert_eq!(CustodyError::Overflow.surface(), Error::Overflow);
}
