//! The `Forwarded` header, read by the `forwarded-header-value` crate.

use crate::ascii::{ascii_bytes, trim, trimmed};
use crate::headers::all_visible;
use forwarded_header_value::ForwardedHeaderValue;
use vstd::prelude::*;

verus! {

/// A lower-case letter, or the same letter in upper case.
pub open spec fn is_letter(b: u8, lower: u8) -> bool {
    b == lower || b == lower - 32
}

/// A field that reads `host="` and nothing more, in any case of its letters.
pub open spec fn is_bare_quote_host(field: Seq<u8>) -> bool {
    &&& field.len() == 6
    &&& is_letter(field[0], 104)
    &&& is_letter(field[1], 111)
    &&& is_letter(field[2], 115)
    &&& is_letter(field[3], 116)
    &&& field[4] == 61
    &&& field[5] == 34
}

/// The place of the first comma or semicolon in `s` at or after `from`, or the
/// length of `s` where there is none.
pub open spec fn field_end(s: Seq<u8>, from: int) -> int
    decreases s.len() - from,
{
    if from >= s.len() {
        s.len() as int
    } else if s[from] == 44 || s[from] == 59 {
        from
    } else {
        field_end(s, from + 1)
    }
}

/// Whether one of the fields of `s`, which commas and semicolons part, reads
/// `host="` once the white space at its ends is dropped.
pub open spec fn has_bare_quote_host(s: Seq<u8>) -> bool
    decreases s.len(),
{
    let i = field_end(s, 0);
    if 0 <= i < s.len() {
        is_bare_quote_host(trimmed(s.subrange(0, i))) || has_bare_quote_host(
            s.subrange(i + 1, s.len() as int),
        )
    } else {
        is_bare_quote_host(trimmed(s))
    }
}

/// What the `Forwarded` header value `s` says of the clients: `None` where the value
/// is not well-formed, and else for each of its stanzas the text of the address in
/// its `for` field, where that field is there and holds an IP address, with or
/// without a port.
pub uninterp spec fn forwarded_for_texts(s: Seq<char>) -> Option<Seq<Option<Seq<u8>>>>;

/// The stanzas as sequences.
pub open spec fn stanzas_of(r: Option<Vec<Option<Vec<u8>>>>) -> Option<Seq<Option<Seq<u8>>>> {
    match r {
        Some(v) => Some(
            v@.map_values(
                |t: Option<Vec<u8>>|
                    match t {
                        Some(b) => Some(b@),
                        None => None,
                    },
            ),
        ),
        None => None,
    }
}

/// `ForwardedHeaderValue::from_forwarded`, and of each stanza `forwarded_for_ip`
/// written out as text. The crate panics on a `host` field that holds one double
/// quote and nothing else; a value with such a field is left out.
#[verifier::external_body]
pub(crate) fn forwarded_for(header_value: &str) -> (r: Option<Vec<Option<Vec<u8>>>>)
    requires
        all_visible(ascii_bytes(header_value@)),
        !has_bare_quote_host(ascii_bytes(header_value@)),
    ensures
        stanzas_of(r) == forwarded_for_texts(header_value@),
{
    match ForwardedHeaderValue::from_forwarded(header_value) {
        Ok(value) => Some(
            value.iter().map(
                |stanza| stanza.forwarded_for_ip().map(|ip| ip.to_string().into_bytes()),
            ).collect(),
        ),
        Err(_) => None,
    }
}

fn is_bare_quote_host_at(s: &[u8], from: usize, to: usize) -> (r: bool)
    requires
        from <= to <= s.len(),
    ensures
        r == is_bare_quote_host(s@.subrange(from as int, to as int)),
{
    to - from == 6 && (s[from] == 104 || s[from] == 72) && (s[from + 1] == 111 || s[from + 1] == 79)
        && (s[from + 2] == 115 || s[from + 2] == 83) && (s[from + 3] == 116 || s[from + 3] == 84)
        && s[from + 4] == 61 && s[from + 5] == 34
}

fn find_field_end(s: &[u8], from: usize) -> (i: usize)
    requires
        from <= s.len(),
    ensures
        from <= i <= s.len(),
        i - from == field_end(s@.subrange(from as int, s.len() as int), 0),
{
    let ghost part = s@.subrange(from as int, s.len() as int);
    let mut i: usize = from;
    while i < s.len()
        invariant
            from <= i <= s.len(),
            part == s@.subrange(from as int, s.len() as int),
            field_end(part, 0) == field_end(part, i - from),
        decreases s.len() - i,
    {
        if s[i] == 44 || s[i] == 59 {
            return i;
        }
        i = i + 1;
    }
    i
}

/// Tells whether a header value holds a field that the `Forwarded` reader cannot take.
pub fn check_bare_quote_host(s: &[u8]) -> (r: bool)
    ensures
        r == has_bare_quote_host(s@),
{
    let mut pos: usize = 0;
    assert(s@.subrange(0, s.len() as int) =~= s@);
    loop
        invariant
            pos <= s.len(),
            has_bare_quote_host(s@) == has_bare_quote_host(s@.subrange(pos as int, s.len() as int)),
        decreases s.len() - pos,
    {
        let ghost rest = s@.subrange(pos as int, s.len() as int);
        let i: usize = find_field_end(s, pos);
        let (a, b) = trim(s, pos, i);
        assert(rest.subrange(0, i - pos) =~= s@.subrange(pos as int, i as int));
        if is_bare_quote_host_at(s, a, b) {
            proof {
                if i == s.len() {
                    assert(rest.subrange(0, i - pos) =~= rest);
                }
            }
            return true;
        }
        if i >= s.len() {
            assert(rest.subrange(0, i - pos) =~= rest);
            return false;
        }
        assert(rest.subrange(i - pos + 1, rest.len() as int) =~= s@.subrange(
            i + 1,
            s.len() as int,
        ));
        pos = i + 1;
    }
}

} // verus!
