//! Six-digit hexadecimal colour notation: `RRGGBB`, with or without a
//! leading `#`, in either case.

use crate::colors::Rgb;
use crate::text::{ascii_lower, lowercased};
use vstd::prelude::*;

verus! {

/// The value of a hexadecimal digit; `None` for any other character.
pub open spec fn hex_value(c: char) -> Option<int> {
    if '0' <= c && c <= '9' {
        Some(c as int - '0' as int)
    } else if 'a' <= c && c <= 'f' {
        Some(c as int - 'a' as int + 10)
    } else if 'A' <= c && c <= 'F' {
        Some(c as int - 'A' as int + 10)
    } else {
        None
    }
}

/// Every character of `t` is a hexadecimal digit.
pub open spec fn all_hex(t: Seq<char>) -> bool {
    forall|i: int| 0 <= i < t.len() ==> (#[trigger] hex_value(t[i])) is Some
}

/// `t` without its leading `#`, if it has one.
pub open spec fn hex_digits(t: Seq<char>) -> Seq<char> {
    if t.len() > 0 && t[0] == '#' {
        t.subrange(1, t.len() as int)
    } else {
        t
    }
}

/// `t` is six hexadecimal digits, with or without a leading `#`.
pub open spec fn is_hex6_token(t: Seq<char>) -> bool {
    hex_digits(t).len() == 6 && all_hex(hex_digits(t))
}

/// The byte that two hexadecimal digits spell.
pub open spec fn hex_pair(hi: char, lo: char) -> u8 {
    (16 * hex_value(hi).unwrap() + hex_value(lo).unwrap()) as u8
}

/// The colour that a six-digit token spells: its digits split into three
/// groups of two, red first.
pub open spec fn hex6_rgb(t: Seq<char>) -> Rgb {
    let d = hex_digits(t);
    Rgb { r: hex_pair(d[0], d[1]), g: hex_pair(d[2], d[3]), b: hex_pair(d[4], d[5]) }
}

/// The upper-case hexadecimal digit of value `n`.
pub open spec fn hex_char(n: int) -> char {
    if n < 10 {
        ((48 + n) as u8) as char
    } else {
        ((55 + n) as u8) as char
    }
}

/// The six-digit upper-case notation of `rgb`, with its `#`.
pub open spec fn hex_text(rgb: Rgb) -> Seq<char> {
    seq![
        '#',
        hex_char(rgb.r as int / 16),
        hex_char(rgb.r as int % 16),
        hex_char(rgb.g as int / 16),
        hex_char(rgb.g as int % 16),
        hex_char(rgb.b as int / 16),
        hex_char(rgb.b as int % 16),
    ]
}

/// The value of a hexadecimal digit.
pub fn hex_digit(c: char) -> (out: Option<u8>)
    ensures
        out is Some <==> hex_value(c) is Some,
        out matches Some(v) ==> v == hex_value(c).unwrap() && v < 16,
{
    if '0' <= c && c <= '9' {
        Some(c as u8 - '0' as u8)
    } else if 'a' <= c && c <= 'f' {
        Some(c as u8 - 'a' as u8 + 10)
    } else if 'A' <= c && c <= 'F' {
        Some(c as u8 - 'A' as u8 + 10)
    } else {
        None
    }
}

/// The byte spelled by the two characters at `at` and `at + 1`, if both are
/// hexadecimal digits.
fn hex_byte(t: &Vec<char>, at: usize) -> (out: Option<u8>)
    requires
        at + 1 < t.len(),
    ensures
        out is Some <==> hex_value(t[at as int]) is Some && hex_value(t[at + 1]) is Some,
        out matches Some(v) ==> v == hex_pair(t[at as int], t[at + 1]),
{
    match hex_digit(t[at]) {
        Some(hi) => match hex_digit(t[at + 1]) {
            Some(lo) => Some(16 * hi + lo),
            None => None,
        },
        None => None,
    }
}

/// Reads a six-digit hexadecimal colour. Succeeds exactly on the tokens of
/// six hexadecimal digits with an optional leading `#`, and then yields the
/// three bytes that the digits spell in pairs.
pub fn parse_hex6(t: &Vec<char>) -> (out: Option<Rgb>)
    ensures
        out == if is_hex6_token(t@) {
            Some(hex6_rgb(t@))
        } else {
            None::<Rgb>
        },
{
    let start: usize = if t.len() > 0 && t[0] == '#' {
        1
    } else {
        0
    };
    if t.len() - start != 6 {
        return None;
    }
    let ghost d = hex_digits(t@);
    let r: Option<u8> = hex_byte(t, start);
    let g: Option<u8> = hex_byte(t, start + 2);
    let b: Option<u8> = hex_byte(t, start + 4);
    match (r, g, b) {
        (Some(r), Some(g), Some(b)) => {
            assert(all_hex(d)) by {
                assert forall|i: int| 0 <= i < d.len() implies (#[trigger] hex_value(d[i])) is Some by {
                    assert(d[i] == t[start + i]);
                }
            }
            Some(Rgb { r, g, b })
        },
        _ => {
            assert(!all_hex(d)) by {
                assert(hex_value(d[0]) is None || hex_value(d[1]) is None || hex_value(d[2]) is None
                    || hex_value(d[3]) is None || hex_value(d[4]) is None || hex_value(d[5]) is None);
            }
            None
        },
    }
}

/// The one-character text of the upper-case hexadecimal digit of value `n`.
fn hex_digit_text(n: u8) -> (out: &'static str)
    requires
        n < 16,
    ensures
        out@ == seq![hex_char(n as int)],
{
    proof {
        reveal_strlit("0");
        reveal_strlit("1");
        reveal_strlit("2");
        reveal_strlit("3");
        reveal_strlit("4");
        reveal_strlit("5");
        reveal_strlit("6");
        reveal_strlit("7");
        reveal_strlit("8");
        reveal_strlit("9");
        reveal_strlit("A");
        reveal_strlit("B");
        reveal_strlit("C");
        reveal_strlit("D");
        reveal_strlit("E");
        reveal_strlit("F");
    }
    match n {
        0 => "0",
        1 => "1",
        2 => "2",
        3 => "3",
        4 => "4",
        5 => "5",
        6 => "6",
        7 => "7",
        8 => "8",
        9 => "9",
        10 => "A",
        11 => "B",
        12 => "C",
        13 => "D",
        14 => "E",
        _ => "F",
    }
}

impl Rgb {
    /// The colour in six-digit upper-case hexadecimal notation, `#RRGGBB`.
    pub fn to_hex_string(&self) -> (out: String)
        ensures
            out@ == hex_text(*self),
    {
        proof {
            reveal_strlit("#");
        }
        let mut out: String = String::from_str("#");
        out.append(hex_digit_text(self.r / 16));
        out.append(hex_digit_text(self.r % 16));
        out.append(hex_digit_text(self.g / 16));
        out.append(hex_digit_text(self.g % 16));
        out.append(hex_digit_text(self.b / 16));
        out.append(hex_digit_text(self.b % 16));
        out
    }
}

/// Reading the notation that `to_hex_string` writes gives the colour back.
pub proof fn lemma_hex_round_trip(rgb: Rgb)
    ensures
        is_hex6_token(hex_text(rgb)),
        hex6_rgb(hex_text(rgb)) == rgb,
{
    assert(hex_digits(hex_text(rgb)) =~= hex_text(rgb).subrange(1, 7));
    lemma_hex_char_value(rgb.r as int / 16);
    lemma_hex_char_value(rgb.r as int % 16);
    lemma_hex_char_value(rgb.g as int / 16);
    lemma_hex_char_value(rgb.g as int % 16);
    lemma_hex_char_value(rgb.b as int / 16);
    lemma_hex_char_value(rgb.b as int % 16);
}

/// `hex_char` writes the digit that `hex_value` reads.
pub proof fn lemma_hex_char_value(n: int)
    requires
        0 <= n < 16,
    ensures
        hex_value(hex_char(n)) == Some(n),
{
}

/// Case does not matter: a token and its lower-case form are six-digit
/// tokens together, and then spell the same colour.
pub proof fn lemma_hex6_ignores_case(t: Seq<char>)
    ensures
        is_hex6_token(lowercased(t)) <==> is_hex6_token(t),
        is_hex6_token(t) ==> hex6_rgb(lowercased(t)) == hex6_rgb(t),
{
    let d = hex_digits(t);
    let dl = hex_digits(lowercased(t));
    assert(dl =~= lowercased(d));
    assert forall|i: int| 0 <= i < d.len() implies hex_value(dl[i]) == hex_value(d[i]) by {
        assert(dl[i] == ascii_lower(d[i]));
    }
}

} // verus!
