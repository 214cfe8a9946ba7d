//! The identifier encoder: hash, render in base 10, normalise the length.

use crate::decimal::{
    decimal_digits, is_decimal_digit, lemma_decimal_digits_are_digits, lemma_decimal_len_u128,
    lemma_decimal_len_u64, render_decimal,
};
use crate::hash::{hash_identifier, hash_value, HashWidth, SEED};
use crate::identifier::Identifier;
use crate::length::{lemma_normalized_digits, normalize, normalized, PadStrategy, TARGET_LENGTH};
use vstd::prelude::*;

verus! {

/// The options of the encoder.
#[derive(Clone, Copy, Debug, PartialEq, Eq, Structural)]
pub struct EncoderConfig {
    /// The width of the hash value.
    pub hash_width: HashWidth,
    /// How the decimal digits are brought to the target length.
    pub pad_strategy: PadStrategy,
    /// The number of characters asked of an encoded identifier.
    pub target_length: usize,
    /// The seed of the hash.
    pub seed: i64,
}

impl EncoderConfig {
    /// The options with [`TARGET_LENGTH`] and [`SEED`].
    pub open spec fn standard(hash_width: HashWidth, pad_strategy: PadStrategy) -> EncoderConfig {
        EncoderConfig { hash_width, pad_strategy, target_length: TARGET_LENGTH, seed: SEED }
    }

    /// The options with [`TARGET_LENGTH`] and [`SEED`].
    pub fn new(hash_width: HashWidth, pad_strategy: PadStrategy) -> (config: EncoderConfig)
        ensures
            config == EncoderConfig::standard(hash_width, pad_strategy),
    {
        EncoderConfig { hash_width, pad_strategy, target_length: TARGET_LENGTH, seed: SEED }
    }
}

/// The text that stands for the hash value `hash`.
pub open spec fn hash_encoding(hash: nat, strategy: PadStrategy, target: nat) -> Seq<char> {
    normalized(decimal_digits(hash), strategy, target)
}

/// The text that stands for the identifier with the given bytes.
pub open spec fn encoding(bytes: Seq<u8>, config: EncoderConfig) -> Seq<char> {
    hash_encoding(
        hash_value(bytes, config.hash_width, config.seed),
        config.pad_strategy,
        config.target_length as nat,
    )
}

/// An encoded hash value holds decimal digits only; filled, it has exactly the target length;
/// truncated, it has the target length or, where the hash value has fewer digits, all of them.
pub proof fn lemma_hash_encoding_shape(hash: nat, strategy: PadStrategy, target: nat)
    ensures
        forall|i: int|
            0 <= i < hash_encoding(hash, strategy, target).len() ==> is_decimal_digit(
                #[trigger] hash_encoding(hash, strategy, target)[i],
            ),
        strategy == PadStrategy::Fill ==> hash_encoding(hash, strategy, target).len() == target,
        strategy == PadStrategy::Truncate && decimal_digits(hash).len() <= target
            ==> hash_encoding(hash, strategy, target) == decimal_digits(hash),
        strategy == PadStrategy::Truncate && decimal_digits(hash).len() > target
            ==> hash_encoding(hash, strategy, target).len() == target,
{
    lemma_decimal_digits_are_digits(hash);
    lemma_normalized_digits(decimal_digits(hash), strategy, target);
}

/// Encoding is a function of the identifier's bytes and the options: two results for the
/// same bytes under the same options are the same text.
pub proof fn lemma_encoding_deterministic(
    bytes_a: Seq<u8>,
    bytes_b: Seq<u8>,
    config_a: EncoderConfig,
    config_b: EncoderConfig,
    text_a: Seq<char>,
    text_b: Seq<char>,
)
    requires
        bytes_a == bytes_b,
        config_a == config_b,
        text_a == encoding(bytes_a, config_a),
        text_b == encoding(bytes_b, config_b),
    ensures
        text_a == text_b,
{
}

/// Before it is cut or padded, a 64-bit hash value has at most twenty digits and a 128-bit
/// one at most thirty-nine.
pub proof fn lemma_natural_length(bytes: Seq<u8>, width: HashWidth, seed: i64)
    ensures
        1 <= decimal_digits(hash_value(bytes, width, seed)).len(),
        width == HashWidth::Bits64 ==> decimal_digits(hash_value(bytes, width, seed)).len() <= 20,
        width == HashWidth::Bits128 ==> decimal_digits(hash_value(bytes, width, seed)).len()
            <= 39,
{
    match width {
        HashWidth::Bits64 => lemma_decimal_len_u64(crate::hash::gxhash64_of(bytes, seed)),
        HashWidth::Bits128 => lemma_decimal_len_u128(crate::hash::gxhash128_of(bytes, seed)),
    }
}

/// Renders `hash` in base 10 and brings the digits to `target` characters.
pub fn encode_hash(hash: u128, strategy: PadStrategy, target: usize) -> (r: String)
    ensures
        r@ == hash_encoding(hash as nat, strategy, target as nat),
        strategy == PadStrategy::Fill ==> r@.len() == target,
        strategy == PadStrategy::Truncate ==> r@.len() <= target,
        forall|i: int| 0 <= i < r@.len() ==> is_decimal_digit(#[trigger] r@[i]),
{
    proof {
        lemma_hash_encoding_shape(hash as nat, strategy, target as nat);
    }
    normalize(render_decimal(hash), strategy, target)
}

/// Encodes `id` under the given options.
pub fn encode_with(id: &Identifier, config: &EncoderConfig) -> (r: String)
    ensures
        r@ == encoding(id@, *config),
        config.pad_strategy == PadStrategy::Fill ==> r@.len() == config.target_length,
        config.pad_strategy == PadStrategy::Truncate ==> r@.len() <= config.target_length,
        forall|i: int| 0 <= i < r@.len() ==> is_decimal_digit(#[trigger] r@[i]),
{
    let hash = hash_identifier(id, config.hash_width, config.seed);
    encode_hash(hash, config.pad_strategy, config.target_length)
}

/// Encodes `id` with [`TARGET_LENGTH`] and [`SEED`].
pub fn encode(id: &Identifier, hash_width: HashWidth, pad_strategy: PadStrategy) -> (r: String)
    ensures
        r@ == encoding(id@, EncoderConfig::standard(hash_width, pad_strategy)),
        pad_strategy == PadStrategy::Fill ==> r@.len() == TARGET_LENGTH,
        pad_strategy == PadStrategy::Truncate ==> r@.len() <= TARGET_LENGTH,
        forall|i: int| 0 <= i < r@.len() ==> is_decimal_digit(#[trigger] r@[i]),
{
    encode_with(id, &EncoderConfig::new(hash_width, pad_strategy))
}

} // verus!
