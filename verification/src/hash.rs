//! Hashing an identifier's bytes.

use crate::decimal::{decimal_digits, render_decimal};
use crate::identifier::Identifier;
use std::collections::hash_map::DefaultHasher;
use std::hash::{Hash, Hasher};
use vstd::prelude::*;
use vstd::std_specs::hash::DefaultHasherAdditionalSpecFns;

verus! {

/// The seed of the hash unless another is asked for.
pub const SEED: i64 = 1234;

/// The 64-bit hash that `gxhash::gxhash64` gives to `bytes` under `seed`.
pub uninterp spec fn gxhash64_of(bytes: Seq<u8>, seed: i64) -> u64;

/// The 128-bit hash that `gxhash::gxhash128` gives to `bytes` under `seed`.
pub uninterp spec fn gxhash128_of(bytes: Seq<u8>, seed: i64) -> u128;

/// `gxhash::gxhash64` is a function of the input bytes and the seed alone: built without the
/// crate's `avx2` feature, it gives the same hash on every platform that the crate supports.
/// It takes every input and does not panic.
pub assume_specification[ gxhash::gxhash64 ](input: &[u8], seed: i64) -> (hash: u64)
    ensures
        hash == gxhash64_of(input@, seed),
;

/// `gxhash::gxhash128` is a function of the input bytes and the seed alone: built without the
/// crate's `avx2` feature, it gives the same hash on every platform that the crate supports.
/// It takes every input and does not panic.
pub assume_specification[ gxhash::gxhash128 ](input: &[u8], seed: i64) -> (hash: u128)
    ensures
        hash == gxhash128_of(input@, seed),
;

/// Feeds the identifier with the given bytes to `state` through `uuid::Uuid`'s `Hash` impl,
/// which hands the sixteen bytes to the hasher in a single `write`.
#[verifier::external_body]
fn hash_uuid(bytes: &[u8; 16], state: &mut DefaultHasher)
    ensures
        final(state)@ == old(state)@.push(bytes@),
{
    uuid::Uuid::from_bytes(*bytes).hash(state)
}

/// The width of the hash value that an identifier is reduced to.
#[derive(Clone, Copy, Debug, PartialEq, Eq, Structural)]
pub enum HashWidth {
    /// A 64-bit hash value.
    Bits64,
    /// A 128-bit hash value.
    Bits128,
}

/// The seeded hash value of `bytes` at the given width.
pub open spec fn hash_value(bytes: Seq<u8>, width: HashWidth, seed: i64) -> nat {
    match width {
        HashWidth::Bits64 => gxhash64_of(bytes, seed) as nat,
        HashWidth::Bits128 => gxhash128_of(bytes, seed) as nat,
    }
}

/// The hash value that the standard library's default hasher gives to `bytes`.
pub open spec fn default_hash_of(bytes: Seq<u8>) -> u64 {
    DefaultHasher::spec_finish(seq![bytes])
}

/// Hashes the bytes of `id` under `seed` to a value of the given width.
pub fn hash_identifier(id: &Identifier, width: HashWidth, seed: i64) -> (hash: u128)
    ensures
        hash == hash_value(id@, width, seed),
        width == HashWidth::Bits64 ==> hash <= u64::MAX,
{
    let bytes = id.as_bytes().as_slice();
    match width {
        HashWidth::Bits64 => gxhash::gxhash64(bytes, seed) as u128,
        HashWidth::Bits128 => gxhash::gxhash128(bytes, seed),
    }
}

/// The decimal form of the default hasher's 64-bit hash of `uid`.
pub fn hash_uid(uid: Identifier) -> (r: String)
    ensures
        r@ == decimal_digits(default_hash_of(uid@) as nat),
{
    let mut hasher = DefaultHasher::new();
    hash_uuid(uid.as_bytes(), &mut hasher);
    assert(hasher@ =~= seq![uid@]);
    render_decimal(hasher.finish() as u128)
}

/// The decimal form of the 64-bit hash of `uid` under [`SEED`].
pub fn gx_hash_uid64(uid: Identifier) -> (r: String)
    ensures
        r@ == decimal_digits(gxhash64_of(uid@, SEED) as nat),
{
    render_decimal(hash_identifier(&uid, HashWidth::Bits64, SEED))
}

/// The decimal form of the 128-bit hash of `uid` under [`SEED`].
pub fn gx_hash_uid128(uid: Identifier) -> (r: String)
    ensures
        r@ == decimal_digits(gxhash128_of(uid@, SEED) as nat),
{
    render_decimal(hash_identifier(&uid, HashWidth::Bits128, SEED))
}

} // verus!
