//! What is done with a request, and the headers that say so.

use crate::ascii::ascii_bytes;
use crate::decimal::decimal_bytes;
use crate::duration::{nanos_of, NANOS_PER_SEC};
use crate::errors::{ErrorModel, GovernorError};
use crate::headers::{
    entries, has_room, insert, keys_len, value_from_static, value_from_u64, NAME_LIMIT,
};
use http::header::HeaderMap;
use std::time::Duration;
use vstd::prelude::*;
use vstd::string::*;

verus! {

/// What is done with a request: it is passed on as it is, passed on with headers to
/// add to the answer, or answered at once with an error.
#[derive(Debug)]
pub enum Admission<R> {
    /// Pass the request on and leave the answer as it is.
    Passthrough,
    /// Pass the request on and write the quota into the answer.
    RateLimitHeader { burst_size: u32, remaining_burst_capacity: u32 },
    /// Pass the request on and mark the answer as exempt from limiting.
    WhitelistedHeader,
    /// Do not pass the request on; answer with this response.
    Error { error_response: R },
}

/// The whole seconds of a wait, the rest dropped.
pub open spec fn wait_seconds(wait: Duration) -> u64 {
    (nanos_of(wait) / (NANOS_PER_SEC as nat)) as u64
}

/// The headers of a denial: the wait in `x-ratelimit-after`, and where the quota is
/// reported also in `retry-after`, with the burst size in `x-ratelimit-limit` and a
/// zero in `x-ratelimit-remaining`.
pub open spec fn denial_headers(reporting: bool, wait_time: u64, burst_size: u32) -> Map<
    Seq<char>,
    Seq<Seq<u8>>,
> {
    let base = Map::<Seq<char>, Seq<Seq<u8>>>::empty().insert(
        "x-ratelimit-after"@,
        seq![decimal_bytes(wait_time as nat)],
    );
    if reporting {
        base.insert("retry-after"@, seq![decimal_bytes(wait_time as nat)]).insert(
            "x-ratelimit-limit"@,
            seq![decimal_bytes(burst_size as nat)],
        ).insert("x-ratelimit-remaining"@, seq![decimal_bytes(0)])
    } else {
        base
    }
}

/// The error that stands for a denial.
pub open spec fn denial(reporting: bool, wait_time: u64, burst_size: u32) -> ErrorModel {
    ErrorModel::TooManyRequests {
        wait_time,
        headers: Some(denial_headers(reporting, wait_time, burst_size)),
    }
}

/// Builds the error for a request that found no token: the wait is cut down to whole
/// seconds and written into the error and its headers.
pub fn denial_error(reporting: bool, wait: Duration, burst_size: u32) -> (e: GovernorError)
    ensures
        e@ == denial(reporting, wait_seconds(wait), burst_size),
{
    let wait_time: u64 = wait.as_secs();
    let mut headers = HeaderMap::new();
    proof {
        reveal_strlit("x-ratelimit-after");
        reveal_strlit("retry-after");
        reveal_strlit("x-ratelimit-limit");
        reveal_strlit("x-ratelimit-remaining");
    }
    insert(&mut headers, "x-ratelimit-after", value_from_u64(wait_time));
    if reporting {
        insert(&mut headers, "retry-after", value_from_u64(wait_time));
        insert(&mut headers, "x-ratelimit-limit", value_from_u64(burst_size as u64));
        insert(&mut headers, "x-ratelimit-remaining", value_from_u64(0));
    }
    GovernorError::TooManyRequests { wait_time, headers: Some(headers) }
}

impl<R> Admission<R> {
    /// What the headers of the answer hold once this admission has been written into
    /// them: the quota, the mark of an exempt request, or nothing new.
    pub open spec fn annotated(self, before: Map<Seq<char>, Seq<Seq<u8>>>) -> Map<
        Seq<char>,
        Seq<Seq<u8>>,
    > {
        match self {
            Admission::RateLimitHeader { burst_size, remaining_burst_capacity } => before.insert(
                "x-ratelimit-limit"@,
                seq![decimal_bytes(burst_size as nat)],
            ).insert("x-ratelimit-remaining"@, seq![decimal_bytes(remaining_burst_capacity as nat)]),
            Admission::WhitelistedHeader => before.insert(
                "x-ratelimit-whitelisted"@,
                seq![ascii_bytes("true"@)],
            ),
            _ => before,
        }
    }

    /// The number of headers that `annotate` writes.
    pub open spec fn headers_written(self) -> nat {
        match self {
            Admission::RateLimitHeader { .. } => 2,
            Admission::WhitelistedHeader => 1,
            _ => 0,
        }
    }

    /// Whether the request is passed on to the inner service.
    pub open spec fn forwards(self) -> bool {
        !(self is Error)
    }

    /// Tells how many headers `annotate` writes.
    pub fn count_headers_written(&self) -> (n: usize)
        ensures
            n == self.headers_written(),
    {
        match self {
            Admission::RateLimitHeader { .. } => 2,
            Admission::WhitelistedHeader => 1,
            _ => 0,
        }
    }

    /// The headers that `annotate` writes, in a map of their own.
    pub fn headers(&self) -> (written: HeaderMap)
        ensures
            entries(written) == self.annotated(Map::empty()),
    {
        let mut written = HeaderMap::new();
        self.annotate(&mut written);
        written
    }

    /// Writes the admission into the headers of the answer where the header map has
    /// room for the headers to write, and tells whether it did. A map without room
    /// is left as it is.
    pub fn try_annotate(&self, headers: &mut HeaderMap) -> (done: bool)
        ensures
            done == (self.headers_written() == 0 || has_room(*old(headers), self.headers_written())),
            done ==> entries(*final(headers)) == self.annotated(entries(*old(headers))),
            !done ==> *final(headers) == *old(headers),
    {
        let wanted: usize = self.count_headers_written();
        if wanted == 0 {
            self.annotate(headers);
            return true;
        }
        let held: usize = keys_len(headers);
        if held <= NAME_LIMIT - wanted {
            self.annotate(headers);
            true
        } else {
            false
        }
    }

    /// Writes the admission into the headers of the answer that the inner service
    /// gave. Each header written replaces what the answer held under that name. The
    /// header map must have room for the headers to write; `try_annotate` looks
    /// whether it has.
    pub fn annotate(&self, headers: &mut HeaderMap)
        requires
            self.headers_written() > 0 ==> has_room(*old(headers), self.headers_written()),
        ensures
            entries(*final(headers)) == self.annotated(entries(*old(headers))),
    {
        match self {
            Admission::RateLimitHeader { burst_size, remaining_burst_capacity } => {
                proof {
                    reveal_strlit("x-ratelimit-limit");
                    reveal_strlit("x-ratelimit-remaining");
                }
                insert(headers, "x-ratelimit-limit", value_from_u64(*burst_size as u64));
                insert(
                    headers,
                    "x-ratelimit-remaining",
                    value_from_u64(*remaining_burst_capacity as u64),
                );
            },
            Admission::WhitelistedHeader => {
                proof {
                    reveal_strlit("x-ratelimit-whitelisted");
                    reveal_strlit("true");
                }
                let text: &'static str = "true";
                proof {
                    is_ascii_spec_bytes(text);
                    assert(text.spec_bytes() =~= ascii_bytes("true"@));
                }
                insert(headers, "x-ratelimit-whitelisted", value_from_static(text));
            },
            _ => {},
        }
    }
}

/// The names of the headers that the middleware writes differ from one another.
pub proof fn header_names_differ()
    ensures
        "x-ratelimit-after"@ != "retry-after"@,
        "x-ratelimit-after"@ != "x-ratelimit-limit"@,
        "x-ratelimit-after"@ != "x-ratelimit-remaining"@,
        "x-ratelimit-after"@ != "x-ratelimit-whitelisted"@,
        "retry-after"@ != "x-ratelimit-limit"@,
        "retry-after"@ != "x-ratelimit-remaining"@,
        "retry-after"@ != "x-ratelimit-whitelisted"@,
        "x-ratelimit-limit"@ != "x-ratelimit-remaining"@,
        "x-ratelimit-limit"@ != "x-ratelimit-whitelisted"@,
        "x-ratelimit-remaining"@ != "x-ratelimit-whitelisted"@,
{
    reveal_strlit("x-ratelimit-after");
    reveal_strlit("retry-after");
    reveal_strlit("x-ratelimit-limit");
    reveal_strlit("x-ratelimit-remaining");
    reveal_strlit("x-ratelimit-whitelisted");
    assert("x-ratelimit-after"@.len() == 17);
    assert("retry-after"@.len() == 11);
    assert("x-ratelimit-limit"@.len() == 17);
    assert("x-ratelimit-remaining"@.len() == 21);
    assert("x-ratelimit-whitelisted"@.len() == 23);
    assert("x-ratelimit-after"@[12] != "x-ratelimit-limit"@[12]);
}

/// The wait written into a denial is the wait cut down to whole seconds: it is the
/// largest number of seconds that is no longer than the wait.
pub proof fn wait_is_cut_to_seconds(wait: Duration)
    requires
        nanos_of(wait) / (NANOS_PER_SEC as nat) <= u64::MAX,
    ensures
        wait_seconds(wait) * NANOS_PER_SEC <= nanos_of(wait),
        nanos_of(wait) < (wait_seconds(wait) + 1) * NANOS_PER_SEC,
{
}

/// A denial always carries the wait in `x-ratelimit-after`. Where the quota is
/// reported it carries the same wait in `retry-after`, the burst size in
/// `x-ratelimit-limit` and a zero in `x-ratelimit-remaining`; where it is not, it
/// carries no other header.
pub proof fn denial_carries_wait(reporting: bool, wait_time: u64, burst_size: u32)
    ensures
        denial_headers(reporting, wait_time, burst_size).dom().contains("x-ratelimit-after"@),
        denial_headers(reporting, wait_time, burst_size)["x-ratelimit-after"@]
            == seq![decimal_bytes(wait_time as nat)],
        reporting ==> denial_headers(reporting, wait_time, burst_size).dom().contains("retry-after"@),
        reporting ==> denial_headers(reporting, wait_time, burst_size)["retry-after"@]
            == seq![decimal_bytes(wait_time as nat)],
        reporting ==> denial_headers(reporting, wait_time, burst_size).dom().contains(
            "x-ratelimit-limit"@,
        ),
        reporting ==> denial_headers(reporting, wait_time, burst_size)["x-ratelimit-limit"@]
            == seq![decimal_bytes(burst_size as nat)],
        reporting ==> denial_headers(reporting, wait_time, burst_size).dom().contains(
            "x-ratelimit-remaining"@,
        ),
        reporting ==> denial_headers(reporting, wait_time, burst_size)["x-ratelimit-remaining"@]
            == seq![seq![48u8]],
        !reporting ==> denial_headers(reporting, wait_time, burst_size).dom() =~= set![
            "x-ratelimit-after"@,
        ],
{
    header_names_differ();
    assert(decimal_bytes(0) =~= seq![48u8]);
}

} // verus!
