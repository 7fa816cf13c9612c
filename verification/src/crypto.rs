//! Hashes, accounts and key pairs that the scenario takes from Substrate.

use vstd::prelude::*;

verus! {

/// A 32 byte hash.
pub type H256 = [u8; 32];

/// The bytes of an sr25519 public key.
pub type PublicKey = [u8; 32];

/// The bytes of an sr25519 signature.
pub type Signature = [u8; 64];

/// The bytes of an account id.
pub type AccountId = [u8; 32];

/// Byte `i` of the hash that stands for a number: 24 zero bytes, then the number's own bytes,
/// the least significant one first.
pub open spec fn low_u64_le_byte(val: u64, i: int) -> u8 {
    if i < 24 {
        0
    } else {
        ((val >> ((8 * (i - 24)) as u64)) & 0xff) as u8
    }
}

/// The 32 bytes that stand for a number in a hash.
pub open spec fn low_u64_le(val: u64) -> Seq<u8> {
    Seq::new(32, |i: int| low_u64_le_byte(val, i))
}

/// Calls `sp_core::H256::from_low_u64_le`.
///
/// Taken on trust: the little endian bytes of the number fill the last eight of the 32 bytes,
/// and the bytes before them are zero.
#[verifier::external_body]
pub(crate) fn h256_from_low_u64_le(val: u64) -> (res: H256)
    ensures
        res@ == low_u64_le(val),
{
    sp_core::H256::from_low_u64_le(val).0
}

/// What `frame_benchmarking::account` returns for an `AccountId32`: its 32 bytes.
pub uninterp spec fn benchmark_account(name: Seq<char>, index: u32, seed: u32) -> Seq<u8>;

/// Calls `frame_benchmarking::account` for an `AccountId32`.
///
/// Taken on trust: the account depends on the name, the index and the seed alone. The length of
/// the name in bytes is encoded in 32 bits; a name for which that fails makes the call panic and
/// is left out (a character has at most four bytes).
#[verifier::external_body]
pub(crate) fn account(name: &'static str, index: u32, seed: u32) -> (res: AccountId)
    requires
        4 * name@.len() <= u32::MAX,
    ensures
        res@ == benchmark_account(name@, index, seed),
{
    frame_benchmarking::account::<sp_runtime::AccountId32>(name, index, seed).into()
}

/// What `hash` of `sp_runtime::generic::Header<u32, BlakeTwo256>` returns for a header with an
/// empty digest.
pub uninterp spec fn blake2_header_hash(
    number: u32,
    extrinsics_root: Seq<u8>,
    state_root: Seq<u8>,
    parent_hash: Seq<u8>,
) -> Seq<u8>;

/// Calls `hash` of `sp_runtime::generic::Header<u32, BlakeTwo256>` on a header with the given
/// fields and an empty digest.
///
/// Taken on trust: the hash depends on the header's fields alone.
#[verifier::external_body]
pub(crate) fn header_hash(
    number: u32,
    extrinsics_root: H256,
    state_root: H256,
    parent_hash: H256,
) -> (res: H256)
    ensures
        res@ == blake2_header_hash(number, extrinsics_root@, state_root@, parent_hash@),
{
    sp_runtime::generic::Header::<u32, sp_runtime::traits::BlakeTwo256> {
        parent_hash: sp_core::H256(parent_hash),
        number,
        state_root: sp_core::H256(state_root),
        extrinsics_root: sp_core::H256(extrinsics_root),
        digest: sp_runtime::generic::Digest::default(),
    }.hash().0
}

/// What `public` returns for the `sp_core::sr25519::Pair` that is made from a seed.
pub uninterp spec fn sr25519_public(seed: Seq<u8>) -> Seq<u8>;

/// What `verify` of `sp_core::sr25519::Pair` returns for a signature, a message and a public
/// key.
pub uninterp spec fn sr25519_verifies(
    signature: Seq<u8>,
    message: Seq<u8>,
    public: Seq<u8>,
) -> bool;

/// Calls `generate` of `sp_core::sr25519::Pair` and keeps the seed, from which the same pair
/// can be made again.
///
/// The seed is random: nothing is claimed of it.
#[verifier::external_body]
fn sr25519_generate_seed() -> (res: [u8; 32])
{
    <sp_core::sr25519::Pair as sp_core::Pair>::generate().1
}

/// Calls `public` of the `sp_core::sr25519::Pair` made from `seed`.
///
/// Taken on trust: the public key depends on the seed alone.
#[verifier::external_body]
fn sr25519_public_of_seed(seed: &[u8; 32]) -> (res: PublicKey)
    ensures
        res@ == sr25519_public(seed@),
{
    sp_core::Pair::public(&<sp_core::sr25519::Pair as sp_core::Pair>::from_seed(seed)).0
}

/// Calls `sign` of the `sp_core::sr25519::Pair` made from `seed`.
///
/// The signature is randomised. Taken on trust: whatever comes out verifies for this message
/// under the public key of the pair. A message whose length does not fit in 32 bits makes the
/// call panic and is left out.
#[verifier::external_body]
fn sr25519_sign(seed: &[u8; 32], message: &Vec<u8>) -> (res: Signature)
    requires
        message@.len() <= u32::MAX,
    ensures
        sr25519_verifies(res@, message@, sr25519_public(seed@)),
{
    sp_core::Pair::sign(
        &<sp_core::sr25519::Pair as sp_core::Pair>::from_seed(seed),
        message.as_slice(),
    ).0
}

/// Calls `verify` of `sp_core::sr25519::Pair`.
///
/// Taken on trust: the answer depends on the signature, the message and the public key alone. A
/// message whose length does not fit in 32 bits can make the call panic and is left out.
#[verifier::external_body]
fn sr25519_verify(signature: &Signature, message: &Vec<u8>, public: &PublicKey) -> (res: bool)
    requires
        message@.len() <= u32::MAX,
    ensures
        res == sr25519_verifies(signature@, message@, public@),
{
    <sp_core::sr25519::Pair as sp_core::Pair>::verify(
        &sp_core::sr25519::Signature::from_raw(*signature),
        message.as_slice(),
        &sp_core::sr25519::Public::from_raw(*public),
    )
}

/// Whether `signature` is good for `message` under the key `public`.
pub fn verify(signature: &Signature, message: &Vec<u8>, public: &PublicKey) -> (res: bool)
    requires
        message@.len() <= u32::MAX,
    ensures
        res == sr25519_verifies(signature@, message@, public@),
{
    sr25519_verify(signature, message, public)
}

/// An sr25519 key pair, held as the seed that it is made from.
#[derive(Clone, Copy)]
pub struct KeyPair {
    pub seed: [u8; 32],
}

impl KeyPair {
    /// The bytes of the pair's public key.
    pub open spec fn public_key(self) -> Seq<u8> {
        sr25519_public(self.seed@)
    }

    /// Whether `signature` is good for `message` under this pair's public key.
    pub open spec fn signed(self, message: Seq<u8>, signature: Signature) -> bool {
        sr25519_verifies(signature@, message, self.public_key())
    }

    /// Whether the seed is one that the key generator gave out.
    pub closed spec fn drawn(self) -> bool {
        call_ensures(sr25519_generate_seed, (), self.seed)
    }

    /// A fresh random key pair. Any seed can come out; what holds is that the generator gave it.
    pub fn generate() -> (res: KeyPair)
        ensures
            res.drawn(),
    {
        let generate_seed = sr25519_generate_seed;
        KeyPair { seed: generate_seed() }
    }

    /// The pair's public key.
    pub fn public(&self) -> (res: PublicKey)
        ensures
            res@ == self.public_key(),
            res@ == sr25519_public(self.seed@),
    {
        sr25519_public_of_seed(&self.seed)
    }

    /// Signs `message`.
    pub fn sign(&self, message: &Vec<u8>) -> (res: Signature)
        requires
            message@.len() <= u32::MAX,
        ensures
            self.signed(message@, res),
            sr25519_verifies(res@, message@, sr25519_public(self.seed@)),
    {
        sr25519_sign(&self.seed, message)
    }
}

} // verus!
