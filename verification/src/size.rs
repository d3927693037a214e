//! Size tokens: `HEIGHTxWIDTH`, two unsigned decimal numbers around one `x`.
//!
//! The first number is the height and the second the width, for raster and
//! vector output alike. A number is read as `u32`: an optional `+`, then one
//! or more ASCII digits, the value no larger than `u32::MAX`. Each dimension
//! is then brought into `[1, 500]`.

use crate::error::SizeError;
use crate::text::{chars_of, find_from, index_from, lemma_index_from};
use vstd::prelude::*;

verus! {

/// The smallest dimension.
pub const MIN_DIMENSION: u32 = 1;

/// The largest dimension.
pub const MAX_DIMENSION: u32 = 500;

/// The dimension that the lenient reading falls back to.
pub const DEFAULT_DIMENSION: u32 = 128;

/// The value of a decimal digit, and zero for any other character.
pub open spec fn digit_value(c: char) -> nat {
    if '0' <= c && c <= '9' {
        (c as int - '0' as int) as nat
    } else {
        0
    }
}

/// Every character of `t` is a decimal digit.
pub open spec fn all_digits(t: Seq<char>) -> bool {
    forall|i: int| 0 <= i < t.len() ==> '0' <= #[trigger] t[i] && t[i] <= '9'
}

/// The number that the digits of `t` spell in base ten.
pub open spec fn decimal_value(t: Seq<char>) -> nat
    decreases t.len(),
{
    if t.len() == 0 {
        0
    } else {
        10 * decimal_value(t.drop_last()) + digit_value(t.last())
    }
}

/// `t` without its leading `+`, if it has one.
pub open spec fn unsigned_digits(t: Seq<char>) -> Seq<char> {
    if t.len() > 0 && t[0] == '+' {
        t.subrange(1, t.len() as int)
    } else {
        t
    }
}

/// The `u32` that `t` spells, if it spells one.
pub open spec fn parsed_u32(t: Seq<char>) -> Option<u32> {
    let d = unsigned_digits(t);
    if d.len() > 0 && all_digits(d) && decimal_value(d) <= u32::MAX {
        Some(decimal_value(d) as u32)
    } else {
        None
    }
}

/// The two sides of the first `x` in `t`; `None` if `t` holds no `x`.
pub open spec fn size_halves(t: Seq<char>) -> Option<(Seq<char>, Seq<char>)> {
    let at = index_from(t, 'x', 0);
    if at < t.len() {
        Some((t.subrange(0, at), t.subrange(at + 1, t.len() as int)))
    } else {
        None
    }
}

/// `t` is a size token: both sides of its first `x` spell a `u32`.
pub open spec fn valid_size_token(t: Seq<char>) -> bool {
    match size_halves(t) {
        Some((h, w)) => parsed_u32(h) is Some && parsed_u32(w) is Some,
        None => false,
    }
}

/// `v` brought into `[1, 500]`.
pub open spec fn clamp_dimension(v: u32) -> u32 {
    if v < MIN_DIMENSION {
        MIN_DIMENSION
    } else if v > MAX_DIMENSION {
        MAX_DIMENSION
    } else {
        v
    }
}

/// Both dimensions lie in `[1, 500]`.
pub open spec fn valid_size(size: (u32, u32)) -> bool {
    MIN_DIMENSION <= size.0 <= MAX_DIMENSION && MIN_DIMENSION <= size.1 <= MAX_DIMENSION
}

/// The height and width that a size token asks for, or why it asks for
/// none.
pub open spec fn size_of_token(t: Seq<char>) -> Result<(u32, u32), SizeError> {
    match size_halves(t) {
        None => Err(SizeError::MissingSeparator),
        Some((h, w)) => match (parsed_u32(h), parsed_u32(w)) {
            (Some(h), Some(w)) => Ok((clamp_dimension(h), clamp_dimension(w))),
            _ => Err(SizeError::InvalidDimension),
        },
    }
}

/// One dimension read leniently: 128 where `half` spells no number.
pub open spec fn lenient_dimension(half: Seq<char>) -> u32 {
    clamp_dimension(
        match parsed_u32(half) {
            Some(v) => v,
            None => DEFAULT_DIMENSION,
        },
    )
}

/// Height and width read leniently: 128 by 128 without an `x`, and 128 for
/// each side that spells no number.
pub open spec fn lenient_sizes(t: Seq<char>) -> (u32, u32) {
    match size_halves(t) {
        Some((h, w)) => (lenient_dimension(h), lenient_dimension(w)),
        None => (DEFAULT_DIMENSION, DEFAULT_DIMENSION),
    }
}

/// A longer digit string spells no smaller a number than its prefix.
proof fn lemma_decimal_value_grows(t: Seq<char>, k: int)
    requires
        0 <= k <= t.len(),
    ensures
        decimal_value(t.take(k)) <= decimal_value(t),
    decreases t.len() - k,
{
    if k < t.len() {
        lemma_decimal_value_grows(t.drop_last(), k);
        assert(t.drop_last().take(k) == t.take(k));
    } else {
        assert(t.take(k) == t);
    }
}

/// Reads `t[from..to]` as a `u32`.
fn parse_u32(t: &Vec<char>, from: usize, to: usize) -> (out: Option<u32>)
    requires
        from <= to <= t.len(),
    ensures
        out == parsed_u32(t@.subrange(from as int, to as int)),
{
    let ghost whole = t@.subrange(from as int, to as int);
    let start: usize = if from < to && t[from] == '+' {
        from + 1
    } else {
        from
    };
    let ghost d = unsigned_digits(whole);
    if start == to {
        return None;
    }
    let mut value: u64 = 0;
    let mut i: usize = start;
    while i < to
        invariant
            from <= start <= i <= to <= t.len(),
            d == t@.subrange(start as int, to as int),
            d == unsigned_digits(t@.subrange(from as int, to as int)),
            all_digits(d.take(i - start)),
            value == decimal_value(d.take(i - start)),
            value <= u32::MAX,
        decreases to - i,
    {
        let c: char = t[i];
        let ghost before = d.take(i - start);
        let ghost after = d.take(i - start + 1);
        proof {
            assert(after.drop_last() == before);
            assert(d[i - start] == c);
        }
        if !('0' <= c && c <= '9') {
            return None;
        }
        value = 10 * value + (c as u8 - '0' as u8) as u64;
        if value > u32::MAX as u64 {
            proof {
                lemma_decimal_value_grows(d, i - start + 1);
            }
            return None;
        }
        i += 1;
    }
    proof {
        assert(d.take(to - start) == d);
    }
    Some(value as u32)
}

/// Brings `v` into `[1, 500]`.
pub fn clamp(v: u32) -> (out: u32)
    ensures
        out == clamp_dimension(v),
        MIN_DIMENSION <= out <= MAX_DIMENSION,
{
    if v < MIN_DIMENSION {
        MIN_DIMENSION
    } else if v > MAX_DIMENSION {
        MAX_DIMENSION
    } else {
        v
    }
}

/// Whether `size` is a size token: two `u32` numbers around the first `x`.
/// Values out of `[1, 500]` are no fault; a missing `x`, an empty side, a
/// sign other than `+`, a character that is no digit, or a value over
/// `u32::MAX` is.
pub fn validate_size(size: &&str) -> (out: bool)
    ensures
        out == valid_size_token(size@),
{
    let t: Vec<char> = chars_of(*size);
    let at: usize = find_from(&t, 'x', 0);
    if at >= t.len() {
        return false;
    }
    let h: Option<u32> = parse_u32(&t, 0, at);
    let w: Option<u32> = parse_u32(&t, at + 1, t.len());
    h.is_some() && w.is_some()
}

/// Reads a size token and brings both dimensions into `[1, 500]`. A token
/// that is no size token is refused, with the reason.
pub fn parse_size(token: &str) -> (out: Result<(u32, u32), SizeError>)
    ensures
        out == size_of_token(token@),
        out matches Ok(size) ==> valid_size(size),
{
    let t: Vec<char> = chars_of(token);
    let at: usize = find_from(&t, 'x', 0);
    if at >= t.len() {
        return Err(SizeError::MissingSeparator);
    }
    let h: Option<u32> = parse_u32(&t, 0, at);
    let w: Option<u32> = parse_u32(&t, at + 1, t.len());
    match (h, w) {
        (Some(h), Some(w)) => Ok((clamp(h), clamp(w))),
        _ => Err(SizeError::InvalidDimension),
    }
}

/// Reads a size token leniently: where it cannot be read, 128 takes the
/// place of what is missing. Never fails. The strict reading, `parse_size`,
/// is the rule; this one serves callers that have validated the token and
/// want plain numbers.
pub fn sizes_or_default(token: &str) -> (out: (u32, u32))
    ensures
        out == lenient_sizes(token@),
        valid_size(out),
{
    let t: Vec<char> = chars_of(token);
    let at: usize = find_from(&t, 'x', 0);
    if at >= t.len() {
        return (DEFAULT_DIMENSION, DEFAULT_DIMENSION);
    }
    let h: u32 = match parse_u32(&t, 0, at) {
        Some(v) => v,
        None => DEFAULT_DIMENSION,
    };
    let w: u32 = match parse_u32(&t, at + 1, t.len()) {
        Some(v) => v,
        None => DEFAULT_DIMENSION,
    };
    (clamp(h), clamp(w))
}

/// Whatever the token, the lenient reading lies in `[1, 500]` on both axes,
/// and so does every size that the strict reading accepts.
pub proof fn lemma_sizes_in_range(t: Seq<char>)
    ensures
        valid_size(lenient_sizes(t)),
        size_of_token(t) matches Ok(size) ==> valid_size(size),
{
}

/// The strict reading succeeds exactly on size tokens, and on those the
/// lenient reading gives the same size.
pub proof fn lemma_readings_agree(t: Seq<char>)
    ensures
        size_of_token(t) is Ok <==> valid_size_token(t),
        valid_size_token(t) ==> size_of_token(t) == Ok::<(u32, u32), SizeError>(lenient_sizes(t)),
{
}

/// A size token holds exactly one `x`: what follows the first `x` holds no
/// other, and neither does what precedes it.
pub proof fn lemma_size_token_has_one_separator(t: Seq<char>)
    requires
        valid_size_token(t),
    ensures
        forall|i: int| 0 <= i < t.len() && i != index_from(t, 'x', 0) ==> t[i] != 'x',
{
    let at = index_from(t, 'x', 0);
    lemma_index_from(t, 'x', 0);
    let w = t.subrange(at + 1, t.len() as int);
    let d = unsigned_digits(w);
    assert forall|i: int| 0 <= i < t.len() && i != at implies t[i] != 'x' by {
        if i > at {
            let j = i - at - 1;
            if w[0] == '+' {
                if j > 0 {
                    assert(d[j - 1] == w[j]);
                }
            } else {
                assert(d[j] == w[j]);
            }
        }
    }
}

} // verus!
