//! Colour tokens: six-digit hexadecimal notation, read here, and every
//! other notation (names, abbreviations, short and long hexadecimal forms,
//! functional notation such as `rgb(..)` and `hsl(..)`), read by the
//! `color_processing` crate.
//!
//! That crate's reader stops the program on some malformed functional
//! notation. Such tokens are recognised beforehand and refused as
//! `InvalidCssFunction`, so that it is never handed one.

use crate::colors::{colors_of, Colors, Rgb};
use crate::error::ColorError;
use crate::hex::{hex6_rgb, hex_text, is_hex6_token, lemma_hex_round_trip, parse_hex6};
use crate::text::{
    chars_of, find_from, first_solid, first_solid_char, index_from, last_solid_before,
    last_solid_char_before, lemma_index_from,
};
use vstd::prelude::*;

verus! {

/// What `color_processing::Color::new_string` makes of a token: the red,
/// green and blue of the colour it reads, or the reason it gives for
/// reading none.
pub uninterp spec fn parsed_color(token: Seq<char>) -> Result<Rgb, ColorError>;

/// The degree sign, the one character beyond ASCII that functional
/// notation may hold.
pub const DEGREE: char = '\u{b0}';

/// `c` is an ASCII character or the degree sign.
pub open spec fn is_plain(c: char) -> bool {
    c <= '\u{7f}' || c == DEGREE
}

/// Every character of `t` is ASCII or the degree sign.
pub open spec fn all_plain(t: Seq<char>) -> bool {
    forall|i: int| 0 <= i < t.len() ==> is_plain(#[trigger] t[i])
}

/// `t` holds an opening parenthesis, the mark of functional notation.
pub open spec fn has_parenthesis(t: Seq<char>) -> bool {
    index_from(t, '(', 0) < t.len()
}

/// Where the argument that starts at `from` ends: at the next comma or
/// closing parenthesis, whichever comes first, or at the end of `t`.
pub open spec fn argument_end(t: Seq<char>, from: int) -> int {
    let comma = index_from(t, ',', from);
    let close = index_from(t, ')', from);
    if comma <= close {
        comma
    } else {
        close
    }
}

/// `t` starts, after white space, with `c` or `C`, and its first argument
/// is followed by another but carries neither `%` nor the degree sign: a
/// `cmyk(..)` whose first component lacks its unit.
pub open spec fn cmyk_lacks_unit(t: Seq<char>) -> bool {
    let first = index_from(t, ',', 0);
    &&& first_solid(t) == Some('c') || first_solid(t) == Some('C')
    &&& first < t.len()
    &&& last_solid_before(t, first) != Some('%')
    &&& last_solid_before(t, first) != Some(DEGREE)
}

/// `t` starts, after white space, with `r` or `R`, its first argument ends
/// in `%`, a third argument follows, and the second or the third does not
/// end in `%`: an `rgb(..)` that mixes percentages with plain numbers.
pub open spec fn rgb_mixes_percent(t: Seq<char>) -> bool {
    let first = index_from(t, ',', 0);
    let second = index_from(t, ',', first + 1);
    let third = argument_end(t, second + 1);
    &&& first_solid(t) == Some('r') || first_solid(t) == Some('R')
    &&& first < t.len()
    &&& last_solid_before(t, first) == Some('%')
    &&& second < t.len()
    &&& (last_solid_before(t, second) != Some('%') || last_solid_before(t, third) != Some('%'))
}

/// `t` is functional notation that is refused unread: it holds an opening
/// parenthesis, and a character that is neither ASCII nor the degree sign,
/// or a `cmyk(..)` without the unit of its first component, or an
/// `rgb(..)` that mixes percentages with plain numbers.
pub open spec fn functional_notation_refused(t: Seq<char>) -> bool {
    has_parenthesis(t) && (!all_plain(t) || cmyk_lacks_unit(t) || rgb_mixes_percent(t))
}

/// The colour that a token resolves to, or why it resolves to none.
///
/// The empty token is an `EmptyString` error. Six hexadecimal digits, with
/// or without `#`, are the colour they spell. Refused functional notation
/// is an `InvalidCssFunction` error. Every other token is what
/// `parsed_color` makes of it.
pub open spec fn color_of_token(t: Seq<char>) -> Result<Rgb, ColorError> {
    if t.len() == 0 {
        Err(ColorError::EmptyString)
    } else if is_hex6_token(t) {
        Ok(hex6_rgb(t))
    } else if functional_notation_refused(t) {
        Err(ColorError::InvalidCssFunction)
    } else {
        parsed_color(t)
    }
}

/// Calls `color_processing::Color::new_string` and keeps the red, green and
/// blue of the colour it returns, or the reason of its error. The result
/// depends on the token alone; the contract gives it a name and says
/// nothing else of it.
///
/// `new_string` panics on some functional notation: where a matched number
/// holds a digit beyond ASCII, where `cmyk(..)` has four components and the
/// first has no unit, and where `rgb(..)` has a first component in percent
/// and a second or third that is not. The precondition leaves all of these
/// out.
#[verifier::external_body]
fn parse_color(token: &str) -> (out: Result<Rgb, ColorError>)
    requires
        !functional_notation_refused(token@),
    ensures
        out == parsed_color(token@),
{
    match color_processing::Color::new_string(token) {
        Ok(color) => Ok(Rgb { r: color.red, g: color.green, b: color.blue }),
        Err(e) => Err(match e.reason {
            color_processing::ParseErrorEnum::EmptyString => ColorError::EmptyString,
            color_processing::ParseErrorEnum::InvalidCssFunction => ColorError::InvalidCssFunction,
            color_processing::ParseErrorEnum::Unknown => ColorError::Unknown,
            color_processing::ParseErrorEnum::InvalidHexValue => ColorError::InvalidHexValue,
            color_processing::ParseErrorEnum::InvalidColorName => ColorError::InvalidColorName,
            color_processing::ParseErrorEnum::InvalidAbbreviation => ColorError::InvalidAbbreviation,
        }),
    }
}

/// Whether every character is ASCII or the degree sign.
fn is_all_plain(t: &Vec<char>) -> (out: bool)
    ensures
        out == all_plain(t@),
{
    let mut i: usize = 0;
    while i < t.len()
        invariant
            i <= t.len(),
            forall|j: int| 0 <= j < i ==> is_plain(#[trigger] t[j]),
        decreases t.len() - i,
    {
        let c: char = t[i];
        if !(c <= '\u{7f}' || c == DEGREE) {
            return false;
        }
        i += 1;
    }
    true
}

/// Whether an optional character is `c`.
fn holds(found: Option<char>, c: char) -> (out: bool)
    ensures
        out == (found == Some(c)),
{
    match found {
        Some(f) => f == c,
        None => false,
    }
}

/// Whether `t` is functional notation that is refused unread.
pub fn refuses_functional_notation(t: &Vec<char>) -> (out: bool)
    ensures
        out == functional_notation_refused(t@),
{
    if find_from(t, '(', 0) >= t.len() {
        return false;
    }
    if !is_all_plain(t) {
        return true;
    }
    let lead: Option<char> = first_solid_char(t);
    let first: usize = find_from(t, ',', 0);
    if first >= t.len() {
        return false;
    }
    let unit: Option<char> = last_solid_char_before(t, first);
    if holds(lead, 'c') || holds(lead, 'C') {
        return !holds(unit, '%') && !holds(unit, DEGREE);
    }
    if !(holds(lead, 'r') || holds(lead, 'R')) || !holds(unit, '%') {
        return false;
    }
    let second: usize = find_from(t, ',', first + 1);
    if second >= t.len() {
        return false;
    }
    let comma: usize = find_from(t, ',', second + 1);
    let close: usize = find_from(t, ')', second + 1);
    let third: usize = if comma <= close {
        comma
    } else {
        close
    };
    !holds(last_solid_char_before(t, second), '%') || !holds(last_solid_char_before(t, third), '%')
}

/// Resolves a colour token to its red, green and blue.
///
/// Six hexadecimal digits, with or without a leading `#` and in either
/// case, always resolve, to the three bytes that the digits spell in pairs.
/// The empty token is always an `EmptyString` error. Functional notation
/// that `functional_notation_refused` describes is always an
/// `InvalidCssFunction` error. For every other token the answer is that of
/// the `color_processing` crate.
pub fn hex_to_color(hex: &str) -> (out: Result<Rgb, ColorError>)
    ensures
        out == color_of_token(hex@),
        is_hex6_token(hex@) ==> out == Ok::<Rgb, ColorError>(hex6_rgb(hex@)),
        hex@.len() == 0 ==> out == Err::<Rgb, ColorError>(ColorError::EmptyString),
{
    let t: Vec<char> = chars_of(hex);
    if t.len() == 0 {
        return Err(ColorError::EmptyString);
    }
    match parse_hex6(&t) {
        Some(rgb) => Ok(rgb),
        None => if refuses_functional_notation(&t) {
            Err(ColorError::InvalidCssFunction)
        } else {
            parse_color(hex)
        },
    }
}

/// The colour that a token resolves to, in every exact model.
pub open spec fn report_of_token(t: Seq<char>) -> Result<Colors, ColorError> {
    match color_of_token(t) {
        Ok(rgb) => Ok(colors_of(rgb)),
        Err(e) => Err(e),
    }
}

/// Resolves a colour token and derives every exact model from the colour.
/// Fails only where the token resolves to no colour, and then with the
/// reason; no model is ever missing from a report.
pub fn resolve_color_report(token: &str) -> (out: Result<Colors, ColorError>)
    ensures
        out == report_of_token(token@),
{
    match hex_to_color(token) {
        Ok(rgb) => Ok(Colors::new(&rgb)),
        Err(e) => Err(e),
    }
}

/// The notation that `Rgb::to_hex_string` writes resolves to the colour it
/// was written for.
pub proof fn lemma_hex_text_resolves(rgb: Rgb)
    ensures
        color_of_token(hex_text(rgb)) == Ok::<Rgb, ColorError>(rgb),
{
    lemma_hex_round_trip(rgb);
}

/// A token without an opening parenthesis is never refused unread.
pub proof fn lemma_plain_tokens_are_read(t: Seq<char>)
    requires
        forall|i: int| 0 <= i < t.len() ==> t[i] != '(',
    ensures
        !functional_notation_refused(t),
{
    lemma_index_from(t, '(', 0);
}

} // verus!
