//! Normalising a string to a target length, counted in characters.

use crate::decimal::{decimal_digit, is_decimal_digit};
use vstd::prelude::*;

verus! {

/// The character that pads a string that is shorter than its target length.
pub const FILLER: char = '1';

/// The length of an encoded identifier unless another is asked for.
pub const TARGET_LENGTH: usize = 20;

/// How a string is brought to its target length.
#[derive(Clone, Copy, Debug, PartialEq, Eq, Structural)]
pub enum PadStrategy {
    /// Cut what exceeds the target length; a shorter string stays shorter.
    Truncate,
    /// Cut what exceeds the target length and pad a shorter string with [`FILLER`].
    Fill,
}

/// `s` cut after its first `target` characters; a shorter `s` is left as it is.
pub open spec fn truncated(s: Seq<char>, target: nat) -> Seq<char> {
    if s.len() <= target {
        s
    } else {
        s.take(target as int)
    }
}

/// `s` padded on the right with [`FILLER`] and cut to exactly `target` characters.
pub open spec fn filled(s: Seq<char>, target: nat) -> Seq<char> {
    Seq::new(
        target,
        |i: int|
            if i < s.len() {
                s[i]
            } else {
                FILLER
            },
    )
}

/// `s` brought to `target` characters by the given strategy.
pub open spec fn normalized(s: Seq<char>, strategy: PadStrategy, target: nat) -> Seq<char> {
    match strategy {
        PadStrategy::Truncate => truncated(s, target),
        PadStrategy::Fill => filled(s, target),
    }
}

/// A filled string has exactly the target length, whatever the length of `s`.
pub proof fn lemma_filled_len(s: Seq<char>, target: nat)
    ensures
        filled(s, target).len() == target,
{
}

/// Filling is padding `s` on the right with [`FILLER`] and keeping the first `target`
/// characters.
pub proof fn lemma_filled_is_padded_then_cut(s: Seq<char>, target: nat)
    ensures
        filled(s, target) == (s + Seq::new(target, |i: int| FILLER)).take(target as int),
{
    assert(filled(s, target) =~= (s + Seq::new(target, |i: int| FILLER)).take(target as int));
}

/// A truncated string is a prefix of `s`: `s` itself where `s` fits, else of exactly the
/// target length.
pub proof fn lemma_truncated_len(s: Seq<char>, target: nat)
    ensures
        truncated(s, target).is_prefix_of(s),
        truncated(s, target).len() <= target,
        s.len() <= target ==> truncated(s, target) == s,
        s.len() > target ==> truncated(s, target).len() == target,
{
}

/// Truncating a string that is shorter than the target leaves it shorter than the target.
pub proof fn lemma_truncated_short_stays_short(s: Seq<char>, target: nat)
    requires
        s.len() < target,
    ensures
        truncated(s, target) == s,
        truncated(s, target).len() < target,
{
}

/// Where `s` reaches the target length, cutting and filling give the same string.
pub proof fn lemma_filled_is_truncated_when_long(s: Seq<char>, target: nat)
    requires
        s.len() >= target,
    ensures
        filled(s, target) == truncated(s, target),
{
    assert(filled(s, target) =~= truncated(s, target));
}

/// Normalising a second time changes nothing.
pub proof fn lemma_normalized_idempotent(s: Seq<char>, strategy: PadStrategy, target: nat)
    ensures
        normalized(normalized(s, strategy, target), strategy, target) == normalized(
            s,
            strategy,
            target,
        ),
{
    let once = normalized(s, strategy, target);
    assert(normalized(once, strategy, target) =~= once);
}

/// Normalising a string of decimal digits gives a string of decimal digits.
pub proof fn lemma_normalized_digits(s: Seq<char>, strategy: PadStrategy, target: nat)
    requires
        forall|i: int| 0 <= i < s.len() ==> is_decimal_digit(#[trigger] s[i]),
    ensures
        forall|i: int|
            0 <= i < normalized(s, strategy, target).len() ==> is_decimal_digit(
                #[trigger] normalized(s, strategy, target)[i],
            ),
{
    assert(FILLER == decimal_digit(1));
}

/// Cuts `value` down to at most `target` characters.
pub fn truncate_to_length(value: String, target: usize) -> (r: String)
    ensures
        r@ == truncated(value@, target as nat),
        r@.len() <= target,
        value@.len() < target ==> r@.len() < target,
{
    let n = value.as_str().unicode_len();
    if n <= target {
        value
    } else {
        let r = value.as_str().substring_char(0, target).to_owned();
        assert(r@ =~= value@.take(target as int));
        r
    }
}

/// Cuts or pads `value` to exactly `target` characters.
pub fn fill_to_length(value: String, target: usize) -> (r: String)
    ensures
        r@ == filled(value@, target as nat),
        r@.len() == target,
{
    let n = value.as_str().unicode_len();
    let kept = if n <= target {
        n
    } else {
        target
    };
    let mut out = value.as_str().substring_char(0, kept).to_owned();
    let mut i = kept;
    while i < target
        invariant
            kept <= i <= target,
            kept <= value@.len(),
            out@.len() == i,
            forall|j: int| 0 <= j < kept ==> out@[j] == value@[j],
            forall|j: int| kept <= j < i ==> out@[j] == FILLER,
        decreases target - i,
    {
        proof {
            reveal_strlit("1");
        }
        out.append("1");
        i += 1;
    }
    assert(out@ =~= filled(value@, target as nat));
    out
}

/// Brings `value` to `target` characters by the given strategy.
pub fn normalize(value: String, strategy: PadStrategy, target: usize) -> (r: String)
    ensures
        r@ == normalized(value@, strategy, target as nat),
{
    match strategy {
        PadStrategy::Truncate => truncate_to_length(value, target),
        PadStrategy::Fill => fill_to_length(value, target),
    }
}

/// Limits `value` to [`TARGET_LENGTH`] characters; a shorter `value` stays shorter.
pub fn limit_variable_string_length_v1(value: String) -> (r: String)
    ensures
        r@ == truncated(value@, TARGET_LENGTH as nat),
        r@.len() <= TARGET_LENGTH,
        value@.len() < TARGET_LENGTH ==> r@.len() < TARGET_LENGTH,
{
    truncate_to_length(value, TARGET_LENGTH)
}

/// Brings `value` to exactly [`TARGET_LENGTH`] characters, padding with [`FILLER`].
pub fn limit_variable_string_length_v2(value: String) -> (r: String)
    ensures
        r@ == filled(value@, TARGET_LENGTH as nat),
        r@.len() == TARGET_LENGTH,
{
    fill_to_length(value, TARGET_LENGTH)
}

} // verus!
