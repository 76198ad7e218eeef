//! What the engine has from outside: the digests, the custodian's account and
//! the bound on metadata.

use fusion_escrow::config::Config;
use fusion_escrow::hashing::{hash_with, HashAlgorithm};
use fusion_escrow::pallet::{run_to_block, Pallet};
use fusion_escrow::types::{AssetType, Error, Origin};

fn hex(bytes: &[u8]) -> String {
    bytes.iter().map(|b| format!("{:02x}", b)).collect()
}

fn engine(pallet_id: [u8; 8], hashing: HashAlgorithm) -> Pallet {
    let mut pallet = Pallet::new(Config {
        max_escrows_per_account: 100,
        min_timelock: 10,
        max_timelock: 100800,
        pallet_id,
        hashing,
        existential_deposit: 500,
    });
    run_to_block(&mut pallet, 1);
    pallet
}

#[test]
fn blake2_digests_are_the_known_ones() {
    assert_eq!(
        hex(&hash_with(HashAlgorithm::Blake2, b"")),
        "0e5751c026e543b2e8ab2eb06099daa1d1e5df47778f7787faab45cdf12fe3a8"
    );
    assert_eq!(
        hex(&hash_with(HashAlgorithm::Blake2, b"abc")),
        "bddd813c634239723171ef3fee98579b94964e3bb1cb3e427262c8c068d52319"
    );
    assert_eq!(
        hash_with(HashAlgorithm::Blake2, b"test_secret"),
        sp_crypto_hashing::blake2_256(b"test_secret")
    );
}

#[test]
fn sha2_digests_are_the_known_ones() {
    assert_eq!(
        hex(&hash_with(HashAlgorithm::Sha2, b"")),
        "e3b0c44298fc1c149afbf4c8996fb92427ae41e4649b934ca495991b7852b855"
    );
    assert_eq!(
        hex(&hash_with(HashAlgorithm::Sha2, b"abc")),
        "ba7816bf8f01cfea414140de5dae2223b00361a396177a9cb410ff61f20015ad"
    );
}

#[test]
fn a_digest_of_32_bytes_is_not_its_own_preimage() {
    // A secret of 32 bytes must be hashed, not compared as it is.
    let secret = *b"test_secret_12345678901234567890";
    for hashing in [HashAlgorithm::Blake2, HashAlgorithm::Sha2] {
        let mut pallet = engine(*b"plkv/esc", hashing);
        assert_eq!(pallet.endow(AssetType::Native, 1, 10_000), Ok(()));
        assert_eq!(
            pallet.create_escrow(Origin::Signed(1), secret, 50, 2, AssetType::Native, 1000, None, vec![]),
            Ok(())
        );
        assert_eq!(pallet.fund_escrow(Origin::Signed(1), 1), Ok(()));
        assert_eq!(pallet.verify_secret(1, &secret), false);
        assert_eq!(
            pallet.complete_escrow(Origin::Signed(2), 1, secret.to_vec()),
            Err(Error::InvalidSecret)
        );
    }
}

#[test]
fn the_two_hashes_do_not_open_each_others_commitments() {
    let mut pallet = engine(*b"plkv/esc", HashAlgorithm::Blake2);
    assert_eq!(pallet.endow(AssetType::Native, 1, 10_000), Ok(()));
    let committed = hash_with(HashAlgorithm::Sha2, b"s");
    assert_eq!(
        pallet.create_escrow(Origin::Signed(1), committed, 50, 2, AssetType::Native, 1000, None, vec![]),
        Ok(())
    );
    assert_eq!(pallet.fund_escrow(Origin::Signed(1), 1), Ok(()));
    assert_eq!(pallet.complete_escrow(Origin::Signed(2), 1, b"s".to_vec()), Err(Error::InvalidSecret));
}

#[test]
fn the_custodian_is_derived_from_the_pallet_identifier() {
    // "modl" followed by the identifier, cut to the eight bytes of an account.
    let pallet = engine(*b"plkv/esc", HashAlgorithm::Blake2);
    assert_eq!(pallet.account_id(), u64::from_le_bytes(*b"modlplkv"));
    assert_eq!(pallet.account_id(), 8533033149094195053);
    assert_eq!(pallet.config().sovereign(), pallet.account_id());

    let other = engine(*b"py/fusio", HashAlgorithm::Blake2);
    assert_eq!(other.account_id(), u64::from_le_bytes(*b"modlpy/f"));
    assert!(other.account_id() != pallet.account_id());
}

#[test]
fn the_custodian_stays_the_same_through_every_operation() {
    let mut pallet = engine(*b"plkv/esc", HashAlgorithm::Blake2);
    let sovereign = pallet.account_id();
    assert_eq!(pallet.endow(AssetType::Native, 1, 10_000), Ok(()));
    let digest = hash_with(HashAlgorithm::Blake2, b"s");
    assert_eq!(
        pallet.create_escrow(Origin::Signed(1), digest, 50, 2, AssetType::Native, 1000, None, vec![]),
        Ok(())
    );
    assert_eq!(pallet.account_id(), sovereign);
    assert_eq!(pallet.fund_escrow(Origin::Signed(1), 1), Ok(()));
    assert_eq!(pallet.account_id(), sovereign);
    assert_eq!(pallet.toggle_pause(Origin::Root), Ok(()));
    assert_eq!(pallet.toggle_pause(Origin::Root), Ok(()));
    assert_eq!(pallet.complete_escrow(Origin::Signed(2), 1, b"s".to_vec()), Ok(()));
    assert_eq!(pallet.account_id(), sovereign);
}

#[test]
fn metadata_is_bounded_by_the_container() {
    let mut pallet = engine(*b"plkv/esc", HashAlgorithm::Blake2);
    let seen: Vec<u8> = b"test metadata".to_vec();
    assert_eq!(
        pallet.create_escrow(
            Origin::Signed(1),
            [1u8; 32],
            50,
            2,
            AssetType::Native,
            1000,
            None,
            seen.clone()
        ),
        Ok(())
    );
    assert_eq!(pallet.get_escrow(1).unwrap().metadata, seen);
    assert_eq!(
        pallet.create_escrow(
            Origin::Signed(1),
            [2u8; 32],
            50,
            2,
            AssetType::Native,
            1000,
            None,
            vec![0u8; 1024]
        ),
        Err(Error::InvalidMetadata)
    );
}
