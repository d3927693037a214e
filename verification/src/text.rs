//! Scanning helpers over character sequences, shared by the token parsers.

use vstd::prelude::*;

verus! {

/// ASCII white space: tab, line feed, vertical tab, form feed, carriage
/// return and space.
pub open spec fn is_space(c: char) -> bool {
    c == ' ' || ('\u{9}' <= c && c <= '\u{d}')
}

/// `c` with an upper-case ASCII letter replaced by its lower-case form.
pub open spec fn ascii_lower(c: char) -> char {
    if 'A' <= c && c <= 'Z' {
        ((c as u8) + 32) as char
    } else {
        c
    }
}

/// `t` with every upper-case ASCII letter replaced by its lower-case form.
pub open spec fn lowercased(t: Seq<char>) -> Seq<char> {
    t.map_values(|c: char| ascii_lower(c))
}

/// The least index at or after `from` at which `t` holds `c`; `t.len()` if
/// there is none.
pub open spec fn index_from(t: Seq<char>, c: char, from: int) -> int
    decreases t.len() - from,
{
    if from >= t.len() {
        t.len() as int
    } else if t[from] == c {
        from
    } else {
        index_from(t, c, from + 1)
    }
}

/// The first character of `t` at or after index `from` that is not white
/// space.
pub open spec fn solid_from(t: Seq<char>, from: int) -> Option<char>
    decreases t.len() - from,
{
    if from < 0 || from >= t.len() {
        None
    } else if !is_space(t[from]) {
        Some(t[from])
    } else {
        solid_from(t, from + 1)
    }
}

/// The first character of `t` that is not white space.
pub open spec fn first_solid(t: Seq<char>) -> Option<char> {
    solid_from(t, 0)
}

/// The last character of `t` before index `end` that is not white space.
pub open spec fn last_solid_before(t: Seq<char>, end: int) -> Option<char>
    decreases end,
{
    if end <= 0 || end > t.len() {
        None
    } else if !is_space(t[end - 1]) {
        Some(t[end - 1])
    } else {
        last_solid_before(t, end - 1)
    }
}

/// `index_from` finds an occurrence of `c`, and none lies between `from` and
/// it.
pub proof fn lemma_index_from(t: Seq<char>, c: char, from: int)
    requires
        0 <= from <= t.len(),
    ensures
        from <= index_from(t, c, from) <= t.len(),
        index_from(t, c, from) < t.len() ==> t[index_from(t, c, from)] == c,
        forall|i: int| from <= i < index_from(t, c, from) ==> t[i] != c,
    decreases t.len() - from,
{
    if from < t.len() && t[from] != c {
        lemma_index_from(t, c, from + 1);
    }
}

/// The characters of `s`, in order.
pub fn chars_of(s: &str) -> (out: Vec<char>)
    ensures
        out@ == s@,
{
    let mut out: Vec<char> = Vec::new();
    for c in it: s.chars()
        invariant
            out@ == it.seq().take(it.index()),
            it.seq() == s@,
    {
        out.push(c);
    }
    out
}

/// Whether `c` is ASCII white space.
pub fn char_is_space(c: char) -> (out: bool)
    ensures
        out == is_space(c),
{
    c == ' ' || ('\u{9}' <= c && c <= '\u{d}')
}

/// The first index at or after `from` that holds `c`, or the length.
pub fn find_from(t: &Vec<char>, c: char, from: usize) -> (out: usize)
    requires
        from <= t.len(),
    ensures
        out == index_from(t@, c, from as int),
        from <= out <= t.len(),
{
    let mut i: usize = from;
    while i < t.len() && t[i] != c
        invariant
            from <= i <= t.len(),
            index_from(t@, c, from as int) == index_from(t@, c, i as int),
        decreases t.len() - i,
    {
        i += 1;
    }
    proof {
        lemma_index_from(t@, c, i as int);
    }
    i
}

/// The first character that is not white space.
pub fn first_solid_char(t: &Vec<char>) -> (out: Option<char>)
    ensures
        out == first_solid(t@),
{
    let mut i: usize = 0;
    while i < t.len()
        invariant
            i <= t.len(),
            first_solid(t@) == solid_from(t@, i as int),
        decreases t.len() - i,
    {
        let c: char = t[i];
        if !char_is_space(c) {
            return Some(c);
        }
        i += 1;
    }
    None
}

/// The last character before `end` that is not white space.
pub fn last_solid_char_before(t: &Vec<char>, end: usize) -> (out: Option<char>)
    requires
        end <= t.len(),
    ensures
        out == last_solid_before(t@, end as int),
{
    let mut i: usize = end;
    while i > 0
        invariant
            i <= end <= t.len(),
            last_solid_before(t@, end as int) == last_solid_before(t@, i as int),
        decreases i,
    {
        let c: char = t[i - 1];
        if !char_is_space(c) {
            return Some(c);
        }
        i -= 1;
    }
    None
}

} // verus!
