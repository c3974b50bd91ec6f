//! How a request is given the key that its quota is kept under.

use crate::ascii::{ascii_bytes, ascii_text, trim, trimmed};
use crate::errors::{text_of, GovernorError};
use crate::forwarded::{
    check_bare_quote_host, forwarded_for, forwarded_for_texts, has_bare_quote_host, stanzas_of,
};
use crate::headers::{all_values, all_visible, first_value, get, get_all, value_bytes};
use crate::ip::{find, find_byte, ip_of, parse_ip, IpKey};
use crate::ip_text::ip_text;
use http::header::{HeaderMap, HeaderValue};
use http::Method;
use std::fmt::Debug;
use std::hash::Hash;
use vstd::prelude::*;
use vstd::slice::*;
use vstd::string::*;

verus! {

/// What the limiter reads of a request: its method, its headers, and the address of
/// the peer where the server has attached one.
#[derive(Clone, Copy, Debug)]
pub struct RequestParts<'a> {
    pub method: &'a Method,
    pub headers: &'a HeaderMap,
    /// The peer address that the server attached as connection information.
    pub connect_info: Option<IpKey>,
    /// The peer address that was attached as a bare socket address.
    pub socket_addr: Option<IpKey>,
}

/// Generic structure of what is needed to extract a rate-limiting key from an
/// incoming request.
pub trait KeyExtractor: Clone {
    /// The type of the key.
    type Key: Hash + Eq + Debug;

    /// Whether `out` is a result that `extract` may give for `req`. An extractor that
    /// says nothing of itself may give any.
    open spec fn extracts(&self, req: RequestParts, out: Result<Self::Key, GovernorError>) -> bool {
        true
    }

    /// Name of this extractor (only used for logging). An extractor that does not
    /// name itself is called `custom`.
    fn name(&self) -> (name: &'static str) {
        "custom"
    }

    /// Extraction method: the key of the request, or the error that is answered in
    /// place of the request.
    fn extract(&self, req: &RequestParts) -> (out: Result<Self::Key, GovernorError>)
        ensures
            self.extracts(*req, out),
    ;

    /// Value of the extracted key (only used for logging). An extractor that does not
    /// write its keys gives none.
    fn key_name(&self, key: &Self::Key) -> (label: Option<String>) {
        None
    }
}

/// A [KeyExtractor] that allow to do rate limiting for all incoming requests. This is
/// useful if you want to hard-limit the HTTP load your app can handle.
#[derive(Debug, Clone, Copy, PartialEq, Eq)]
pub struct GlobalKeyExtractor;

impl KeyExtractor for GlobalKeyExtractor {
    type Key = ();

    open spec fn extracts(&self, req: RequestParts, out: Result<(), GovernorError>) -> bool {
        out == Ok::<(), GovernorError>(())
    }

    fn name(&self) -> (name: &'static str)
        ensures
            name@ == "global"@,
    {
        "global"
    }

    fn extract(&self, req: &RequestParts) -> (out: Result<(), GovernorError>) {
        Ok(())
    }

    fn key_name(&self, key: &()) -> (label: Option<String>)
        ensures
            label is None,
    {
        None
    }
}

/// A [KeyExtractor] that uses peer IP as key. This is the default key extractor.
///
/// Behind a reverse proxy the peer is the proxy, and all requests share its quota.
#[derive(Debug, Clone, Copy, PartialEq, Eq)]
pub struct PeerIpKeyExtractor;

impl KeyExtractor for PeerIpKeyExtractor {
    type Key = IpKey;

    open spec fn extracts(&self, req: RequestParts, out: Result<IpKey, GovernorError>) -> bool {
        match req.connect_info {
            Some(ip) => out == Ok::<IpKey, GovernorError>(ip),
            None => out == Err::<IpKey, GovernorError>(GovernorError::UnableToExtractKey),
        }
    }

    fn name(&self) -> (name: &'static str)
        ensures
            name@ == "peer IP"@,
    {
        "peer IP"
    }

    fn extract(&self, req: &RequestParts) -> (out: Result<IpKey, GovernorError>) {
        match maybe_connect_info(req) {
            Some(ip) => Ok(ip),
            None => Err(GovernorError::UnableToExtractKey),
        }
    }

    fn key_name(&self, key: &IpKey) -> (label: Option<String>)
        ensures
            text_of(label) == Some(ip_text(*key)),
    {
        Some(key.to_string())
    }
}

/// Looks at the connection information.
pub fn maybe_connect_info(req: &RequestParts) -> (r: Option<IpKey>)
    ensures
        r == req.connect_info,
{
    req.connect_info
}

/// Looks at the bare socket address.
pub fn maybe_socket_addr(req: &RequestParts) -> (r: Option<IpKey>)
    ensures
        r == req.socket_addr,
{
    req.socket_addr
}

/// The first value of the header `name`, where it is there and is text.
pub open spec fn text_value(m: HeaderMap, name: Seq<char>) -> Option<Seq<u8>> {
    match first_value(m, name) {
        Some(v) => if all_visible(v) {
            Some(v)
        } else {
            None
        },
        None => None,
    }
}

/// The first address in a list whose items commas part. White space around an item
/// is dropped, and items that write no address are passed over.
pub open spec fn first_in_list(s: Seq<u8>) -> Option<IpKey>
    decreases s.len(),
{
    let i = find(s, 0, 44);
    if 0 <= i < s.len() {
        match ip_of(trimmed(s.subrange(0, i))) {
            Some(ip) => Some(ip),
            None => first_in_list(s.subrange(i + 1, s.len() as int)),
        }
    } else {
        ip_of(trimmed(s))
    }
}

/// The key that the header `x-forwarded-for` gives.
pub open spec fn x_forwarded_for_key(m: HeaderMap) -> Option<IpKey> {
    match text_value(m, "x-forwarded-for"@) {
        Some(v) => first_in_list(v),
        None => None,
    }
}

/// The key that the header `x-real-ip` gives.
pub open spec fn x_real_ip_key(m: HeaderMap) -> Option<IpKey> {
    match text_value(m, "x-real-ip"@) {
        Some(v) => ip_of(v),
        None => None,
    }
}

/// The address of the first stanza that names one.
pub open spec fn first_address(stanzas: Seq<Option<Seq<u8>>>) -> Option<IpKey>
    decreases stanzas.len(),
{
    if stanzas.len() == 0 {
        None
    } else {
        match stanzas[0] {
            Some(text) => ip_of(text),
            None => first_address(stanzas.drop_first()),
        }
    }
}

/// The key that one value of the header `forwarded` gives.
pub open spec fn forwarded_value_key(v: Seq<u8>) -> Option<IpKey> {
    if all_visible(v) && !has_bare_quote_host(v) {
        match forwarded_for_texts(ascii_text(v)) {
            Some(stanzas) => first_address(stanzas),
            None => None,
        }
    } else {
        None
    }
}

/// The key of the first value that gives one.
pub open spec fn first_forwarded(values: Seq<Seq<u8>>) -> Option<IpKey>
    decreases values.len(),
{
    if values.len() == 0 {
        None
    } else {
        match forwarded_value_key(values[0]) {
            Some(ip) => Some(ip),
            None => first_forwarded(values.drop_first()),
        }
    }
}

/// The key that the headers `forwarded` give.
pub open spec fn forwarded_key(m: HeaderMap) -> Option<IpKey> {
    first_forwarded(all_values(m, "forwarded"@))
}

/// The first of two keys that is there.
pub open spec fn or_else(a: Option<IpKey>, b: Option<IpKey>) -> Option<IpKey> {
    match a {
        Some(ip) => Some(ip),
        None => b,
    }
}

/// The key that a request gives to the smart extractor: the first that is there of
/// `x-forwarded-for`, `x-real-ip`, `forwarded`, and the peer address.
pub open spec fn smart_key(req: RequestParts) -> Option<IpKey> {
    or_else(
        x_forwarded_for_key(*req.headers),
        or_else(
            x_real_ip_key(*req.headers),
            or_else(forwarded_key(*req.headers), or_else(req.connect_info, req.socket_addr)),
        ),
    )
}

/// Finds the first address in a list whose items commas part.
pub fn first_ip_in_list(s: &[u8]) -> (r: Option<IpKey>)
    ensures
        r == first_in_list(s@),
{
    let mut pos: usize = 0;
    assert(s@.subrange(0, s.len() as int) =~= s@);
    loop
        invariant
            pos <= s.len(),
            first_in_list(s@) == first_in_list(s@.subrange(pos as int, s.len() as int)),
        decreases s.len() - pos,
    {
        let ghost rest = s@.subrange(pos as int, s.len() as int);
        let i: usize = find_byte(s, pos, s.len(), 44);
        let (a, b) = trim(s, pos, i);
        assert(rest.subrange(0, i - pos) =~= s@.subrange(pos as int, i as int));
        let found = parse_ip(slice_subrange(s, a, b));
        if i >= s.len() {
            assert(rest.subrange(0, i - pos) =~= rest);
            return found;
        }
        if found.is_some() {
            return found;
        }
        assert(rest.subrange(i - pos + 1, rest.len() as int) =~= s@.subrange(
            i + 1,
            s.len() as int,
        ));
        pos = i + 1;
    }
}

/// Tries to parse the `x-forwarded-for` header
pub fn maybe_x_forwarded_for(headers: &HeaderMap) -> (r: Option<IpKey>)
    ensures
        r == x_forwarded_for_key(*headers),
{
    proof {
        reveal_strlit("x-forwarded-for");
    }
    match get(headers, "x-forwarded-for") {
        Some(value) => match value.to_str() {
            Ok(_) => first_ip_in_list(value.as_bytes()),
            Err(_) => None,
        },
        None => None,
    }
}

/// Tries to parse the `x-real-ip` header
pub fn maybe_x_real_ip(headers: &HeaderMap) -> (r: Option<IpKey>)
    ensures
        r == x_real_ip_key(*headers),
{
    proof {
        reveal_strlit("x-real-ip");
    }
    match get(headers, "x-real-ip") {
        Some(value) => match value.to_str() {
            Ok(_) => parse_ip(value.as_bytes()),
            Err(_) => None,
        },
        None => None,
    }
}

/// Finds the address of the first stanza that names one.
pub fn first_stanza_address(stanzas: &Vec<Option<Vec<u8>>>) -> (r: Option<IpKey>)
    ensures
        r == first_address(stanzas_of(Some(*stanzas))->Some_0),
{
    let ghost all = stanzas_of(Some(*stanzas))->Some_0;
    let mut k: usize = 0;
    assert(all.subrange(0, all.len() as int) =~= all);
    while k < stanzas.len()
        invariant
            k <= stanzas.len(),
            all == stanzas_of(Some(*stanzas))->Some_0,
            all.len() == stanzas.len(),
            first_address(all) == first_address(all.subrange(k as int, all.len() as int)),
        decreases stanzas.len() - k,
    {
        let ghost rest = all.subrange(k as int, all.len() as int);
        assert(rest.drop_first() =~= all.subrange(k + 1, all.len() as int));
        match &stanzas[k] {
            Some(text) => {
                return parse_ip(text.as_slice());
            },
            None => {},
        }
        k = k + 1;
    }
    None
}

/// Reads one value of the `forwarded` header.
pub fn forwarded_value(value: &HeaderValue) -> (r: Option<IpKey>)
    ensures
        r == forwarded_value_key(value_bytes(*value)),
{
    match value.to_str() {
        Ok(text) => {
            let bytes = value.as_bytes();
            assert(ascii_bytes(text@) =~= bytes@);
            if check_bare_quote_host(bytes) {
                None
            } else {
                match forwarded_for(text) {
                    Some(stanzas) => first_stanza_address(&stanzas),
                    None => None,
                }
            }
        },
        Err(_) => None,
    }
}

/// Tries to parse `forwarded` headers
pub fn maybe_forwarded(headers: &HeaderMap) -> (r: Option<IpKey>)
    ensures
        r == forwarded_key(*headers),
{
    proof {
        reveal_strlit("forwarded");
    }
    let values = get_all(headers, "forwarded");
    let ghost all = all_values(*headers, "forwarded"@);
    let mut k: usize = 0;
    assert(all.subrange(0, all.len() as int) =~= all);
    while k < values.len()
        invariant
            k <= values.len(),
            all == all_values(*headers, "forwarded"@),
            values@.len() == all.len(),
            forall|i: int| 0 <= i < values@.len() ==> value_bytes(*#[trigger] values@[i]) == all[i],
            first_forwarded(all) == first_forwarded(all.subrange(k as int, all.len() as int)),
        decreases values.len() - k,
    {
        let ghost rest = all.subrange(k as int, all.len() as int);
        assert(rest.drop_first() =~= all.subrange(k + 1, all.len() as int));
        assert(rest[0] == value_bytes(*values@[k as int]));
        let found = forwarded_value(values[k]);
        if found.is_some() {
            return found;
        }
        k = k + 1;
    }
    None
}

/// A [KeyExtractor] that tries to get the client IP address from the x-forwarded-for,
/// x-real-ip, and forwarded headers in that order. Falls back to the peer IP address.
///
/// **Warning:** Only use this key extractor if you can ensure these headers are being
/// set by a trusted provider.
#[derive(Debug, Clone, Copy, PartialEq, Eq)]
pub struct SmartIpKeyExtractor;

impl KeyExtractor for SmartIpKeyExtractor {
    type Key = IpKey;

    open spec fn extracts(&self, req: RequestParts, out: Result<IpKey, GovernorError>) -> bool {
        match smart_key(req) {
            Some(ip) => out == Ok::<IpKey, GovernorError>(ip),
            None => out == Err::<IpKey, GovernorError>(GovernorError::UnableToExtractKey),
        }
    }

    fn name(&self) -> (name: &'static str)
        ensures
            name@ == "smart IP"@,
    {
        "smart IP"
    }

    fn key_name(&self, key: &IpKey) -> (label: Option<String>)
        ensures
            text_of(label) == Some(ip_text(*key)),
    {
        Some(key.to_string())
    }

    fn extract(&self, req: &RequestParts) -> (out: Result<IpKey, GovernorError>) {
        let headers = req.headers;
        let found = match maybe_x_forwarded_for(headers) {
            Some(ip) => Some(ip),
            None => match maybe_x_real_ip(headers) {
                Some(ip) => Some(ip),
                None => match maybe_forwarded(headers) {
                    Some(ip) => Some(ip),
                    None => match maybe_connect_info(req) {
                        Some(ip) => Some(ip),
                        None => maybe_socket_addr(req),
                    },
                },
            },
        };
        match found {
            Some(ip) => Ok(ip),
            None => Err(GovernorError::UnableToExtractKey),
        }
    }
}

} // verus!
