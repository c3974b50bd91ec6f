//! The header collection of the `http` crate, as the library's contracts see it.
//!
//! Nothing in this file is proved: it states, for each function of `http` that the
//! library calls, what that function does to the names and values a map holds.

use crate::ascii::ascii_text;
use crate::decimal::decimal_bytes;
use http::header::{HeaderMap, HeaderValue, ToStrError};
use vstd::prelude::*;
use vstd::string::*;

verus! {

/// `http::HeaderMap`, seen through `entries`.
#[verifier::external_type_specification]
#[verifier::external_body]
#[verifier::reject_recursive_types(T)]
pub struct ExHeaderMap<T>(HeaderMap<T>);

/// `http::HeaderValue`, seen through `value_bytes`.
#[verifier::external_type_specification]
#[verifier::external_body]
pub struct ExHeaderValue(HeaderValue);

/// `http::header::ToStrError`: a header value is no text. It holds nothing.
#[verifier::external_type_specification]
#[verifier::external_body]
pub struct ExToStrError(ToStrError);

/// The bytes that a header value holds.
pub uninterp spec fn value_bytes(v: HeaderValue) -> Seq<u8>;

/// What a header map holds: under each lower-case name the values stored for it, in
/// the order in which they were added.
pub uninterp spec fn entries(m: HeaderMap) -> Map<Seq<char>, Seq<Seq<u8>>>;

/// A number of distinct names up to which `http` never refuses to store one more.
/// `http` panics where the index table of a map would have to grow past 32768 slots.
/// It grows a full table, which holds 24576 names, and it grows the table of a map
/// that has seen many hash collisions as soon as five times its names fill it, which
/// for the largest table is at 6554 names.
pub const NAME_LIMIT: usize = 6553;

/// A character that a lower-case header name may hold.
pub open spec fn is_name_char(c: char) -> bool {
    ('a' <= c && c <= 'z') || ('0' <= c && c <= '9') || c == '-'
}

/// A header name as this library writes them: lower-case letters, digits and hyphens.
pub open spec fn is_name(s: Seq<char>) -> bool {
    &&& 0 < s.len() <= 64
    &&& forall|i: int| 0 <= i < s.len() ==> is_name_char(#[trigger] s[i])
}

/// A byte that `http` lets a header value show as text: printable ASCII or a tab.
pub open spec fn is_visible(b: u8) -> bool {
    (32 <= b && b < 127) || b == 9
}

/// Every byte of `s` is printable ASCII or a tab.
pub open spec fn all_visible(s: Seq<u8>) -> bool {
    forall|i: int| 0 <= i < s.len() ==> is_visible(#[trigger] s[i])
}

/// The map has room for `n` more names.
pub open spec fn has_room(m: HeaderMap, n: nat) -> bool {
    &&& entries(m).dom().finite()
    &&& entries(m).dom().len() + n <= NAME_LIMIT
}

/// The first value stored under `name`, if there is one.
pub open spec fn first_value(m: HeaderMap, name: Seq<char>) -> Option<Seq<u8>> {
    if entries(m).dom().contains(name) && entries(m)[name].len() > 0 {
        Some(entries(m)[name][0])
    } else {
        None
    }
}

/// All values stored under `name`, oldest first; empty where the name is absent.
pub open spec fn all_values(m: HeaderMap, name: Seq<char>) -> Seq<Seq<u8>> {
    if entries(m).dom().contains(name) {
        entries(m)[name]
    } else {
        Seq::empty()
    }
}

/// `HeaderMap::new`: the new map holds nothing.
pub assume_specification[ HeaderMap::<HeaderValue>::new ]() -> (m: HeaderMap<HeaderValue>)
    ensures
        entries(m) =~= Map::empty(),
;

/// `HeaderValue::as_bytes`: the value's bytes, as they are.
pub assume_specification[ HeaderValue::as_bytes ](v: &HeaderValue) -> (b: &[u8])
    ensures
        b@ == value_bytes(*v),
;

/// `HeaderValue::to_str`: the value as text, which `http` grants exactly when each of
/// its bytes is printable ASCII or a tab; the text then has one character for each
/// byte of the value.
pub assume_specification<'a>[ HeaderValue::to_str ](v: &'a HeaderValue) -> (r: Result<
    &'a str,
    ToStrError,
>)
    ensures
        r is Ok <==> all_visible(value_bytes(*v)),
        r matches Ok(s) ==> s@ == ascii_text(value_bytes(*v)),
;

/// `HeaderMap::get` with a name given as text: the first value stored under that
/// name, or `None` where the map has none.
#[verifier::external_body]
pub(crate) fn get<'a>(m: &'a HeaderMap, name: &str) -> (r: Option<&'a HeaderValue>)
    requires
        is_name(name@),
    ensures
        r matches Some(v) ==> first_value(*m, name@) == Some(value_bytes(*v)),
        r is None ==> !entries(*m).dom().contains(name@),
{
    m.get(name)
}

/// `HeaderMap::get_all` with a name given as text: every value stored under that
/// name, oldest first.
#[verifier::external_body]
pub(crate) fn get_all<'a>(m: &'a HeaderMap, name: &str) -> (r: Vec<&'a HeaderValue>)
    requires
        is_name(name@),
    ensures
        r@.len() == all_values(*m, name@).len(),
        forall|i: int| 0 <= i < r@.len() ==> value_bytes(*#[trigger] r@[i]) == all_values(*m, name@)[i],
{
    m.get_all(name).iter().collect()
}

/// `HeaderMap::insert` with a name given as text: afterwards the name holds the new
/// value alone, and every other name holds what it held. `http` panics on a name
/// that is no lower-case token and on a map that cannot grow; both are left out.
#[verifier::external_body]
pub(crate) fn insert(m: &mut HeaderMap, name: &'static str, value: HeaderValue)
    requires
        is_name(name@),
        has_room(*old(m), 1),
    ensures
        entries(*final(m)) == entries(*old(m)).insert(name@, seq![value_bytes(value)]),
{
    m.insert(name, value);
}

/// The map holds values under exactly `n` names.
pub open spec fn holds_names(m: HeaderMap, n: nat) -> bool {
    &&& entries(m).dom().finite()
    &&& entries(m).dom().len() == n
}

/// `HeaderMap::keys_len`: the number of names that the map holds values under.
#[verifier::external_body]
pub(crate) fn keys_len(m: &HeaderMap) -> (n: usize)
    ensures
        holds_names(*m, n as nat),
{
    m.keys_len()
}

/// `HeaderMap::clone`: a map that holds what this one holds.
#[verifier::external_body]
pub(crate) fn clone_map(m: &HeaderMap) -> (r: HeaderMap)
    ensures
        entries(r) == entries(*m),
{
    m.clone()
}

/// `HeaderValue::from` for a `u64`: the number in decimal notation.
#[verifier::external_body]
pub(crate) fn value_from_u64(n: u64) -> (v: HeaderValue)
    ensures
        value_bytes(v) == decimal_bytes(n as nat),
{
    HeaderValue::from(n)
}

/// `HeaderValue::from_static`: the text's bytes. `http` panics on a byte that is not
/// printable ASCII or a tab; such text is left out.
#[verifier::external_body]
pub(crate) fn value_from_static(text: &'static str) -> (v: HeaderValue)
    requires
        all_visible(text.spec_bytes()),
    ensures
        value_bytes(v) == text.spec_bytes(),
{
    HeaderValue::from_static(text)
}

} // verus!
