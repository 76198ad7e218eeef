//! The hashlock: the 256-bit digests a commitment can be made with.
//!
//! The digests themselves are computed outside this crate. Each is known here
//! only by name, as a function from bytes to bytes; what the engine proves, it
//! proves for whatever those functions are.

use vstd::prelude::*;

verus! {

/// The hash a host commits with. It is fixed when the engine is built: the
/// digest checked at settlement is the one the commitment was made with.
#[derive(Clone, Copy, Debug, PartialEq, Eq, Structural)]
pub enum HashAlgorithm {
    /// Blake2b with a 256-bit output.
    Blake2,
    /// SHA-256.
    Sha2,
}

/// The Blake2b-256 digest of `data`, as `sp_runtime::traits::BlakeTwo256` computes it.
pub uninterp spec fn blake2_256(data: Seq<u8>) -> Seq<u8>;

/// The SHA-256 digest of `data`, as `sp_crypto_hashing::sha2_256` computes it.
pub uninterp spec fn sha2_256(data: Seq<u8>) -> Seq<u8>;

/// The digest of `data` under `algorithm`.
pub open spec fn digest(algorithm: HashAlgorithm, data: Seq<u8>) -> Seq<u8> {
    match algorithm {
        HashAlgorithm::Blake2 => blake2_256(data),
        HashAlgorithm::Sha2 => sha2_256(data),
    }
}

/// Calls `BlakeTwo256::hash` of `sp_runtime` (its `Hash` trait), which hands
/// the bytes to `sp_io::hashing::blake2_256` and so to
/// `sp_crypto_hashing::blake2_256`. Trusted: the 32 bytes returned are the
/// Blake2b-256 digest of `data`, a function of the bytes of `data` alone.
#[verifier::external_body]
fn blake2_256_of(data: &[u8]) -> (out: [u8; 32])
    ensures
        out@ == blake2_256(data@),
{
    <sp_runtime::traits::BlakeTwo256 as sp_runtime::traits::Hash>::hash(data).0
}

/// Calls `sp_crypto_hashing::sha2_256`. Trusted: the 32 bytes returned are the
/// SHA-256 digest of `data`, a function of the bytes of `data` alone.
#[verifier::external_body]
fn sha2_256_of(data: &[u8]) -> (out: [u8; 32])
    ensures
        out@ == sha2_256(data@),
{
    sp_crypto_hashing::sha2_256(data)
}

/// Hashes `data` with `algorithm`.
pub fn hash_with(algorithm: HashAlgorithm, data: &[u8]) -> (out: [u8; 32])
    ensures
        out@ == digest(algorithm, data@),
{
    match algorithm {
        HashAlgorithm::Blake2 => blake2_256_of(data),
        HashAlgorithm::Sha2 => sha2_256_of(data),
    }
}

} // verus!
