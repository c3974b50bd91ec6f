//! Text as bytes: ASCII, and the white space at the ends of a field.

use vstd::prelude::*;

verus! {

/// The text whose characters are the bytes of `b`, which holds ASCII only.
pub open spec fn ascii_text(b: Seq<u8>) -> Seq<char> {
    Seq::new(b.len(), |i: int| b[i] as char)
}

/// The bytes of a text that holds ASCII only.
pub open spec fn ascii_bytes(s: Seq<char>) -> Seq<u8> {
    Seq::new(s.len(), |i: int| s[i] as u8)
}

/// A byte that counts as white space at the ends of a field.
pub open spec fn is_space(b: u8) -> bool {
    b == 32 || (9 <= b && b <= 13)
}

/// The place of the first byte of `s[from..to]` that is no white space.
pub open spec fn skip_spaces(s: Seq<u8>, from: int, to: int) -> int
    decreases to - from,
{
    if from < to && is_space(s[from]) {
        skip_spaces(s, from + 1, to)
    } else {
        from
    }
}

/// The place behind the last byte of `s[from..to]` that is no white space.
pub open spec fn drop_spaces(s: Seq<u8>, from: int, to: int) -> int
    decreases to - from,
{
    if from < to && is_space(s[to - 1]) {
        drop_spaces(s, from, to - 1)
    } else {
        to
    }
}

/// `s` without the white space at its ends.
pub open spec fn trimmed(s: Seq<u8>) -> Seq<u8> {
    let a = skip_spaces(s, 0, s.len() as int);
    let b = drop_spaces(s, a, s.len() as int);
    s.subrange(a, b)
}

/// Finds the field `s[from..to]` without the white space at its ends.
pub fn trim(s: &[u8], from: usize, to: usize) -> (r: (usize, usize))
    requires
        from <= to <= s.len(),
    ensures
        from <= r.0 <= r.1 <= to,
        s@.subrange(r.0 as int, r.1 as int) == trimmed(s@.subrange(from as int, to as int)),
{
    let ghost part = s@.subrange(from as int, to as int);
    let mut a: usize = from;
    while a < to && (s[a] == 32 || (9 <= s[a] && s[a] <= 13))
        invariant
            from <= a <= to <= s.len(),
            part == s@.subrange(from as int, to as int),
            skip_spaces(part, 0, part.len() as int) == skip_spaces(part, a - from, part.len() as int),
        decreases to - a,
    {
        a = a + 1;
    }
    let mut b: usize = to;
    while a < b && (s[b - 1] == 32 || (9 <= s[b - 1] && s[b - 1] <= 13))
        invariant
            from <= a <= b <= to <= s.len(),
            part == s@.subrange(from as int, to as int),
            drop_spaces(part, a - from, part.len() as int) == drop_spaces(part, a - from, b - from),
        decreases b - a,
    {
        b = b - 1;
    }
    assert(part.subrange(a - from, b - from) =~= s@.subrange(a as int, b as int));
    (a, b)
}

} // verus!
