//! The configuration of the limiter and the decision it takes on each request.

use crate::admission::{
    denial, denial_error, denial_headers, header_names_differ, wait_seconds, Admission,
};
use crate::ascii::ascii_bytes;
use crate::decimal::{decimal_bytes, decimal_text};
use crate::duration::{nanos_of, NANOS_PER_MILLI, NANOS_PER_SEC};
use crate::errors::{ErrorModel, GovernorError};
use crate::handler::{clone_answers_alike, DefaultErrorHandler, ErrorHandler, FnErrorHandler};
use crate::key_extractor::{KeyExtractor, PeerIpKeyExtractor, RequestParts};
use crate::limiter::{CheckOutcome, KeyedLimiter, MAX_BURST_NANOS};
use crate::method::{method_name, method_names, same_method};
use crate::middleware::{MiddlewareMode, NoOpMiddleware, StateInformationMiddleware};
use crate::response::{body_of, headers_of, status_of};
use http::{Method, Response};
use std::marker::PhantomData;
use std::time::Duration;
use vstd::prelude::*;
use vstd::string::*;

verus! {

/// The period of the default quota, in milliseconds.
pub const DEFAULT_PERIOD_MILLIS: u64 = 500;

/// The burst size of the default quota.
pub const DEFAULT_BURST_SIZE: u32 = 8;

/// The names of the methods of an allow-list, where there is one.
pub open spec fn names_of(methods: Option<Vec<Method>>) -> Option<Seq<Seq<char>>> {
    match methods {
        Some(list) => Some(method_names(list@)),
        None => None,
    }
}

/// Helper struct for building a configuration for the governor middleware.
///
/// It starts from a period of 500 milliseconds, a burst of eight, the peer address
/// as key, every method limited, the base headers and the default responses.
#[derive(Debug, PartialEq, Eq)]
pub struct GovernorConfigBuilder<K: KeyExtractor, M: MiddlewareMode, H: ErrorHandler> {
    period: Duration,
    burst_size: u32,
    methods: Option<Vec<Method>>,
    key_extractor: K,
    error_handler: H,
    middleware: PhantomData<M>,
}

impl<K: KeyExtractor, M: MiddlewareMode, H: ErrorHandler> GovernorConfigBuilder<K, M, H> {
    /// The period set, in nanoseconds.
    pub closed spec fn period_nanos(self) -> nat {
        nanos_of(self.period)
    }

    /// The burst size set.
    pub closed spec fn burst(self) -> u32 {
        self.burst_size
    }

    /// The names of the methods that are limited; `None` stands for all.
    pub closed spec fn method_filter(self) -> Option<Seq<Seq<char>>> {
        names_of(self.methods)
    }

    /// The key extractor set.
    pub closed spec fn extractor(self) -> K {
        self.key_extractor
    }

    /// The error handler set.
    pub closed spec fn handler(self) -> H {
        self.error_handler
    }

    /// This builder with another period, all else alike.
    pub open spec fn with_period(self, nanos: nat, before: Self) -> bool {
        &&& self.period_nanos() == nanos
        &&& self.burst() == before.burst()
        &&& self.method_filter() == before.method_filter()
        &&& self.extractor() == before.extractor()
        &&& self.handler() == before.handler()
    }

    /// This builder with another burst size, all else alike.
    pub open spec fn with_burst(self, burst_size: u32, before: Self) -> bool {
        &&& self.period_nanos() == before.period_nanos()
        &&& self.burst() == burst_size
        &&& self.method_filter() == before.method_filter()
        &&& self.extractor() == before.extractor()
        &&& self.handler() == before.handler()
    }

    /// This builder with another list of limited methods, all else alike.
    pub open spec fn with_methods(self, names: Seq<Seq<char>>, before: Self) -> bool {
        &&& self.period_nanos() == before.period_nanos()
        &&& self.burst() == before.burst()
        &&& self.method_filter() == Some(names)
        &&& self.extractor() == before.extractor()
        &&& self.handler() == before.handler()
    }

    /// Whether the limiter can keep the quota set: it adds the time of a whole burst to
    /// its running time in 64 bits of nanoseconds at every check, so a whole burst
    /// must replenish within `MAX_BURST_NANOS`.
    pub open spec fn quota_fits(self) -> bool {
        self.period_nanos() * self.burst() <= MAX_BURST_NANOS
    }

    /// Tells whether the limiter can keep the quota set, which `finish` asks for.
    pub fn check_quota_fits(&self) -> (fits: bool)
        ensures
            fits == self.quota_fits(),
    {
        let nanos: u128 = self.period.as_nanos();
        let burst: u128 = self.burst_size as u128;
        match nanos.checked_mul(burst) {
            Some(whole) => whole <= MAX_BURST_NANOS as u128,
            None => {
                assert(nanos * burst > MAX_BURST_NANOS);
                false
            },
        }
    }

    /// Set the interval after which one element of the quota is replenished.
    ///
    /// **The interval must not be zero.**
    pub fn period(&mut self, duration: Duration) -> (ret: &mut Self)
        ensures
            ret.with_period(nanos_of(duration), *old(self)),
            *final(self) == *final(ret),
    {
        self.period = duration;
        self
    }

    /// Set the interval after which one element of the quota is replenished in seconds.
    ///
    /// **The interval must not be zero.**
    pub fn per_second(&mut self, seconds: u64) -> (ret: &mut Self)
        ensures
            ret.with_period(seconds as nat * NANOS_PER_SEC as nat, *old(self)),
            *final(self) == *final(ret),
    {
        self.period = Duration::from_secs(seconds);
        self
    }

    /// Set the interval after which one element of the quota is replenished in milliseconds.
    ///
    /// **The interval must not be zero.**
    pub fn per_millisecond(&mut self, milliseconds: u64) -> (ret: &mut Self)
        ensures
            ret.with_period(milliseconds as nat * NANOS_PER_MILLI as nat, *old(self)),
            *final(self) == *final(ret),
    {
        self.period = Duration::from_millis(milliseconds);
        self
    }

    /// Set the interval after which one element of the quota is replenished in nanoseconds.
    ///
    /// **The interval must not be zero.**
    pub fn per_nanosecond(&mut self, nanoseconds: u64) -> (ret: &mut Self)
        ensures
            ret.with_period(nanoseconds as nat, *old(self)),
            *final(self) == *final(ret),
    {
        self.period = Duration::from_nanos(nanoseconds);
        self
    }

    /// Set quota size that defines how many requests can occur before the governor
    /// middleware starts blocking requests from a key and clients have to wait until
    /// the elements of the quota are replenished.
    ///
    /// **The burst_size must not be zero.**
    pub fn burst_size(&mut self, burst_size: u32) -> (ret: &mut Self)
        ensures
            ret.with_burst(burst_size, *old(self)),
            *final(self) == *final(ret),
    {
        self.burst_size = burst_size;
        self
    }

    /// Set the HTTP methods this configuration should apply to.
    /// By default this is all methods.
    pub fn methods(&mut self, methods: Vec<Method>) -> (ret: &mut Self)
        ensures
            ret.with_methods(method_names(methods@), *old(self)),
            *final(self) == *final(ret),
    {
        self.methods = Some(methods);
        self
    }

    /// Set the key extractor this configuration should use.
    /// By default this is using the [PeerIpKeyExtractor].
    ///
    /// The key type changes with the extractor, so this gives a new builder.
    pub fn key_extractor<K2: KeyExtractor>(&mut self, key_extractor: K2) -> (ret:
        GovernorConfigBuilder<K2, M, H>)
        ensures
            ret.period_nanos() == old(self).period_nanos(),
            ret.burst() == old(self).burst(),
            ret.method_filter() == old(self).method_filter(),
            ret.extractor() == key_extractor,
            cloned(old(self).handler(), ret.handler()),
            *final(self) == *old(self),
    {
        GovernorConfigBuilder {
            period: self.period,
            burst_size: self.burst_size,
            methods: clone_methods(&self.methods),
            key_extractor,
            error_handler: self.error_handler.clone(),
            middleware: PhantomData,
        }
    }

    /// Set handler function for handling [GovernorError].
    ///
    /// The response type changes with the handler, so this gives a new builder.
    pub fn error_handler<H2: ErrorHandler>(&mut self, handler: H2) -> (ret: GovernorConfigBuilder<
        K,
        M,
        H2,
    >)
        ensures
            ret.period_nanos() == old(self).period_nanos(),
            ret.burst() == old(self).burst(),
            ret.method_filter() == old(self).method_filter(),
            cloned(old(self).extractor(), ret.extractor()),
            ret.handler() == handler,
            *final(self) == *old(self),
    {
        GovernorConfigBuilder {
            period: self.period,
            burst_size: self.burst_size,
            methods: clone_methods(&self.methods),
            key_extractor: self.key_extractor.clone(),
            error_handler: handler,
            middleware: PhantomData,
        }
    }

    /// Set ratelimit headers to response, the headers is
    /// - `x-ratelimit-limit`       - Request limit
    /// - `x-ratelimit-remaining`   - The number of requests left for the time window
    /// - `x-ratelimit-after`       - Number of seconds in which the API will become available after its rate limit has been exceeded
    /// - `retry-after`             - Same value as `x-ratelimit-after`
    /// - `x-ratelimit-whitelisted` - If the request method not in methods, this header will be add it, use [`methods`] to add methods
    ///
    /// By default only `x-ratelimit-after` is written.
    ///
    /// [`methods`]: GovernorConfigBuilder::methods()
    pub fn use_headers(&mut self) -> (ret: GovernorConfigBuilder<K, StateInformationMiddleware, H>)
        ensures
            ret.period_nanos() == old(self).period_nanos(),
            ret.burst() == old(self).burst(),
            ret.method_filter() == old(self).method_filter(),
            cloned(old(self).extractor(), ret.extractor()),
            cloned(old(self).handler(), ret.handler()),
            *final(self) == *old(self),
    {
        GovernorConfigBuilder {
            period: self.period,
            burst_size: self.burst_size,
            methods: clone_methods(&self.methods),
            key_extractor: self.key_extractor.clone(),
            error_handler: self.error_handler.clone(),
            middleware: PhantomData,
        }
    }
}

impl<K: KeyExtractor, M: MiddlewareMode, H: ErrorHandler> GovernorConfigBuilder<K, M, H> where
    K::Key: Clone,
 {
    /// Finish building the configuration and return the configuration for the middleware.
    /// Returns `None` if either burst size or period interval are zero.
    ///
    /// The limiter counts time in 64 bits of nanoseconds, so a whole burst must
    /// replenish within `MAX_BURST_NANOS`; `check_quota_fits` tells whether it does, and
    /// `try_finish` looks before it builds.
    pub fn finish(&mut self) -> (r: Option<GovernorConfig<K, M, H>>)
        requires
            old(self).quota_fits(),
        ensures
            r is Some <==> old(self).burst() != 0 && old(self).period_nanos() != 0,
            r matches Some(config) ==> config.built_from(*old(self)),
            *final(self) == *old(self),
    {
        if self.burst_size != 0 && self.period.as_nanos() != 0 {
            Some(
                GovernorConfig {
                    period: self.period,
                    burst_size: self.burst_size,
                    key_extractor: self.key_extractor.clone(),
                    limiter: KeyedLimiter::keyed(self.period, self.burst_size),
                    methods: clone_methods(&self.methods),
                    error_handler: self.error_handler.clone(),
                    middleware: PhantomData,
                },
            )
        } else {
            None
        }
    }
}

impl<K: KeyExtractor, M: MiddlewareMode, H: ErrorHandler> GovernorConfigBuilder<K, M, H> where
    K::Key: Clone,
 {
    /// Finish building the configuration where the limiter can keep the quota set.
    /// Returns `None` if either burst size or period interval are zero, and if a
    /// whole burst takes longer than `MAX_BURST_NANOS` to replenish.
    pub fn try_finish(&mut self) -> (r: Option<GovernorConfig<K, M, H>>)
        ensures
            r is Some <==> old(self).burst() != 0 && old(self).period_nanos() != 0 && old(
                self,
            ).quota_fits(),
            r matches Some(config) ==> config.built_from(*old(self)),
            *final(self) == *old(self),
    {
        if self.check_quota_fits() {
            self.finish()
        } else {
            None
        }
    }
}

/// Sets the default Governor Config and defines all the different configuration functions
/// This one is used when the default PeerIpKeyExtractor is used
impl<M: MiddlewareMode> GovernorConfigBuilder<PeerIpKeyExtractor, M, DefaultErrorHandler> {
    /// The defaults: one request each 500 milliseconds, eight at once, keyed by the
    /// peer address, every method limited.
    pub fn const_default() -> (ret: Self)
        ensures
            ret.period_nanos() == DEFAULT_PERIOD_MILLIS * NANOS_PER_MILLI,
            ret.burst() == DEFAULT_BURST_SIZE,
            ret.method_filter() is None,
    {
        GovernorConfigBuilder {
            period: Duration::from_millis(DEFAULT_PERIOD_MILLIS),
            burst_size: DEFAULT_BURST_SIZE,
            methods: None,
            key_extractor: PeerIpKeyExtractor,
            error_handler: DefaultErrorHandler,
            middleware: PhantomData,
        }
    }

    /// Set the interval after which one element of the quota is replenished.
    ///
    /// **The interval must not be zero.**
    pub fn const_period(self, duration: Duration) -> (ret: Self)
        ensures
            ret.with_period(nanos_of(duration), self),
    {
        let mut ret = self;
        ret.period = duration;
        ret
    }

    /// Set the interval after which one element of the quota is replenished in seconds.
    ///
    /// **The interval must not be zero.**
    pub fn const_per_second(self, seconds: u64) -> (ret: Self)
        ensures
            ret.with_period(seconds as nat * NANOS_PER_SEC as nat, self),
    {
        let mut ret = self;
        ret.period = Duration::from_secs(seconds);
        ret
    }

    /// Set the interval after which one element of the quota is replenished in milliseconds.
    ///
    /// **The interval must not be zero.**
    pub fn const_per_millisecond(self, milliseconds: u64) -> (ret: Self)
        ensures
            ret.with_period(milliseconds as nat * NANOS_PER_MILLI as nat, self),
    {
        let mut ret = self;
        ret.period = Duration::from_millis(milliseconds);
        ret
    }

    /// Set the interval after which one element of the quota is replenished in nanoseconds.
    ///
    /// **The interval must not be zero.**
    pub fn const_per_nanosecond(self, nanoseconds: u64) -> (ret: Self)
        ensures
            ret.with_period(nanoseconds as nat, self),
    {
        let mut ret = self;
        ret.period = Duration::from_nanos(nanoseconds);
        ret
    }

    /// Set quota size that defines how many requests can occur
    /// before the governor middleware starts blocking requests from an IP address and
    /// clients have to wait until the elements of the quota are replenished.
    ///
    /// **The burst_size must not be zero.**
    pub fn const_burst_size(self, burst_size: u32) -> (ret: Self)
        ensures
            ret.with_burst(burst_size, self),
    {
        let mut ret = self;
        ret.burst_size = burst_size;
        ret
    }
}

impl Default for GovernorConfigBuilder<PeerIpKeyExtractor, NoOpMiddleware, DefaultErrorHandler> {
    /// The default configuration which is suitable for most services.
    /// Allows burst with up to eight requests and replenishes one element after 500ms, based on peer IP.
    /// The values can be modified by calling other methods on this struct.
    fn default() -> (ret: Self)
        ensures
            ret.period_nanos() == DEFAULT_PERIOD_MILLIS * NANOS_PER_MILLI,
            ret.burst() == DEFAULT_BURST_SIZE,
            ret.method_filter() is None,
    {
        Self::const_default()
    }
}

impl<K: KeyExtractor, M: MiddlewareMode, H: ErrorHandler> Clone for GovernorConfigBuilder<K, M, H> {
    /// A builder with the same settings.
    fn clone(&self) -> (r: Self)
        ensures
            r.period_nanos() == self.period_nanos(),
            r.burst() == self.burst(),
            r.method_filter() == self.method_filter(),
            cloned(self.extractor(), r.extractor()),
            cloned(self.handler(), r.handler()),
    {
        GovernorConfigBuilder {
            period: self.period,
            burst_size: self.burst_size,
            methods: clone_methods(&self.methods),
            key_extractor: self.key_extractor.clone(),
            error_handler: self.error_handler.clone(),
            middleware: PhantomData,
        }
    }
}

/// A copy of an allow-list: the same method names in the same order.
pub fn clone_methods(methods: &Option<Vec<Method>>) -> (r: Option<Vec<Method>>)
    ensures
        names_of(r) == names_of(*methods),
{
    match methods {
        Some(list) => {
            let copy = list.clone();
            assert(method_names(copy@) =~= method_names(list@));
            Some(copy)
        },
        None => None,
    }
}

/// Configuration for the Governor middleware.
#[derive(Debug)]
pub struct GovernorConfig<K: KeyExtractor, M: MiddlewareMode, H: ErrorHandler> where K::Key: Clone {
    period: Duration,
    burst_size: u32,
    key_extractor: K,
    limiter: KeyedLimiter<K::Key>,
    methods: Option<Vec<Method>>,
    error_handler: H,
    middleware: PhantomData<M>,
}

impl<K: KeyExtractor, M: MiddlewareMode, H: ErrorHandler> GovernorConfig<K, M, H> where
    K::Key: Clone,
 {
    /// The period of the quota, in nanoseconds.
    pub closed spec fn period_nanos(self) -> nat {
        nanos_of(self.period)
    }

    /// The burst size of the quota.
    pub closed spec fn burst(self) -> u32 {
        self.burst_size
    }

    /// The names of the methods that are limited; `None` stands for all.
    pub closed spec fn method_filter(self) -> Option<Seq<Seq<char>>> {
        names_of(self.methods)
    }

    /// The key extractor of the configuration.
    pub closed spec fn extractor(self) -> K {
        self.key_extractor
    }

    /// The error handler of the configuration.
    pub closed spec fn handler(self) -> H {
        self.error_handler
    }

    /// The configuration has the builder's quota and method filter, a limiter made for
    /// that quota, and clones of the builder's key extractor and error handler.
    pub open spec fn built_from(self, builder: GovernorConfigBuilder<K, M, H>) -> bool {
        &&& self.period_nanos() == builder.period_nanos()
        &&& self.burst() == builder.burst()
        &&& self.shared_limiter().period_nanos() == builder.period_nanos()
        &&& self.shared_limiter().burst() == builder.burst()
        &&& self.method_filter() == builder.method_filter()
        &&& cloned(builder.extractor(), self.extractor())
        &&& cloned(builder.handler(), self.handler())
    }

    /// The interval after which one element of the quota is replenished.
    pub fn period(&self) -> (period: Duration)
        ensures
            nanos_of(period) == self.period_nanos(),
    {
        self.period
    }

    /// The number of requests that the quota allows at once.
    pub fn burst_size(&self) -> (burst_size: u32)
        ensures
            burst_size == self.burst(),
    {
        self.burst_size
    }

    /// The limiter of the configuration.
    pub closed spec fn shared_limiter(self) -> KeyedLimiter<K::Key> {
        self.limiter
    }

    /// The limiter that all middleware made from this configuration shares.
    pub fn limiter(&self) -> (limiter: &KeyedLimiter<K::Key>)
        ensures
            *limiter == self.shared_limiter(),
    {
        &self.limiter
    }
}

impl<K: KeyExtractor, M: MiddlewareMode, H: ErrorHandler> Clone for GovernorConfig<K, M, H> where
    K::Key: Clone,
 {
    /// A configuration that shares the limiter with this one.
    fn clone(&self) -> (r: Self)
        ensures
            r.shared_limiter().buckets() == self.shared_limiter().buckets(),
            r.shared_limiter().period_nanos() == self.shared_limiter().period_nanos(),
            r.shared_limiter().burst() == self.shared_limiter().burst(),
            r.period_nanos() == self.period_nanos(),
            r.burst() == self.burst(),
            r.method_filter() == self.method_filter(),
            cloned(self.extractor(), r.extractor()),
            cloned(self.handler(), r.handler()),
    {
        GovernorConfig {
            period: self.period,
            burst_size: self.burst_size,
            key_extractor: self.key_extractor.clone(),
            limiter: self.limiter.clone(),
            methods: clone_methods(&self.methods),
            error_handler: self.error_handler.clone(),
            middleware: PhantomData,
        }
    }
}

impl Default for GovernorConfig<PeerIpKeyExtractor, NoOpMiddleware, DefaultErrorHandler> {
    /// The default configuration which is suitable for most services.
    /// Allows bursts with up to eight requests and replenishes one element after 500ms, based on peer IP.
    fn default() -> (ret: Self)
        ensures
            ret.period_nanos() == DEFAULT_PERIOD_MILLIS * NANOS_PER_MILLI,
            ret.burst() == DEFAULT_BURST_SIZE,
            ret.shared_limiter().period_nanos() == DEFAULT_PERIOD_MILLIS * NANOS_PER_MILLI,
            ret.shared_limiter().burst() == DEFAULT_BURST_SIZE,
            ret.method_filter() is None,
    {
        let mut builder = GovernorConfigBuilder::<
            PeerIpKeyExtractor,
            NoOpMiddleware,
            DefaultErrorHandler,
        >::const_default();
        builder.finish().unwrap()
    }
}

impl<M: MiddlewareMode> GovernorConfig<PeerIpKeyExtractor, M, DefaultErrorHandler> {
    /// A default configuration for security related services.
    /// Allows bursts with up to two requests and replenishes one element after four seconds, based on peer IP.
    ///
    /// This prevents brute-forcing passwords or security tokens
    /// yet allows to quickly retype a wrong password once before the quota is exceeded.
    pub fn secure() -> (ret: Self)
        ensures
            ret.period_nanos() == 4 * NANOS_PER_SEC,
            ret.burst() == 2,
            ret.shared_limiter().period_nanos() == 4 * NANOS_PER_SEC,
            ret.shared_limiter().burst() == 2,
            ret.method_filter() is None,
    {
        let mut builder = GovernorConfigBuilder::<PeerIpKeyExtractor, M, DefaultErrorHandler> {
            period: Duration::from_secs(4),
            burst_size: 2,
            methods: None,
            key_extractor: PeerIpKeyExtractor,
            error_handler: DefaultErrorHandler,
            middleware: PhantomData,
        };
        assert(builder.period_nanos() == 4 * NANOS_PER_SEC);
        assert(builder.burst() == 2);
        builder.finish().unwrap()
    }
}

/// What there is to log of a request that found no token: the name of the key
/// extractor, the key as the extractor writes it, and the wait in whole seconds.
#[derive(Debug)]
pub struct DenialNote {
    pub extractor: &'static str,
    pub key_name: Option<String>,
    pub wait_time: u64,
}

/// Whether `note` is what is noted of the limiter's answer: of a token missed the
/// wait in whole seconds, of a token taken nothing.
pub open spec fn notes(outcome: CheckOutcome, note: Option<DenialNote>) -> bool {
    match outcome {
        CheckOutcome::Denied { wait, .. } => note is Some && note->Some_0.wait_time == wait_seconds(
            wait,
        ),
        CheckOutcome::Allowed { .. } => note is None,
    }
}

/// Governor middleware factory. Hand this a GovernorConfig and it'll create this struct, which
/// contains everything needed to implement a middleware
#[derive(Debug)]
pub struct Governor<K: KeyExtractor, M: MiddlewareMode, S, H: ErrorHandler> where K::Key: Clone {
    pub key_extractor: K,
    pub limiter: KeyedLimiter<K::Key>,
    pub methods: Option<Vec<Method>>,
    pub inner: S,
    error_handler: H,
    middleware: PhantomData<M>,
}

/// Whether the allow-list leaves requests of this method alone: there is a list, and
/// the method is not on it.
pub open spec fn exempts(filter: Option<Seq<Seq<char>>>, method: Seq<char>) -> bool {
    match filter {
        Some(names) => !names.contains(method),
        None => false,
    }
}

/// What is done with a request that the allow-list leaves alone.
pub open spec fn exempt_admission<R>(reporting: bool) -> Admission<R> {
    if reporting {
        Admission::WhitelistedHeader
    } else {
        Admission::Passthrough
    }
}

/// What is done with a request that took a token.
pub open spec fn allowed_admission<R>(
    reporting: bool,
    burst_size: u32,
    remaining_burst_capacity: u32,
) -> Admission<R> {
    if reporting {
        Admission::RateLimitHeader { burst_size, remaining_burst_capacity }
    } else {
        Admission::Passthrough
    }
}

/// Tells whether the allow-list leaves requests of this method alone.
pub fn is_exempt(methods: &Option<Vec<Method>>, method: &Method) -> (b: bool)
    ensures
        b == exempts(names_of(*methods), method_name(*method)),
{
    match methods {
        Some(list) => {
            let mut i: usize = 0;
            while i < list.len()
                invariant
                    i <= list.len(),
                    *methods == Some(*list),
                    forall|j: int| 0 <= j < i ==> method_name(#[trigger] list@[j]) != method_name(*method),
                decreases list.len() - i,
            {
                if same_method(&list[i], method) {
                    proof {
                        assert(method_names(list@)[i as int] == method_name(*method));
                        assert(method_names(list@).contains(method_name(*method)));
                    }
                    return false;
                }
                i = i + 1;
            }
            proof {
                assert forall|j: int| 0 <= j < method_names(list@).len() implies method_names(
                    list@,
                )[j] != method_name(*method) by {
                    assert(method_name(list@[j]) != method_name(*method));
                }
            }
            true
        },
        None => false,
    }
}

impl<K: KeyExtractor, M: MiddlewareMode, S, H: ErrorHandler> Governor<K, M, S, H> where
    K::Key: Clone,
 {
    /// The key extractor of the middleware.
    pub closed spec fn extractor(self) -> K {
        self.key_extractor
    }

    /// The names of the methods that are limited; `None` stands for all.
    pub closed spec fn method_filter(self) -> Option<Seq<Seq<char>>> {
        names_of(self.methods)
    }

    /// The limiter of the middleware.
    pub closed spec fn shared_limiter(self) -> KeyedLimiter<K::Key> {
        self.limiter
    }

    /// The service that requests are passed on to.
    pub closed spec fn service(self) -> S {
        self.inner
    }

    /// The error handler of the middleware.
    pub closed spec fn handler(self) -> H {
        self.error_handler
    }

    /// Whether `r` answers `e` by the error handler: `r` is an error response that the
    /// handler may give for an error that holds what `e` holds.
    pub open spec fn answers(self, e: ErrorModel, r: Admission<H::Response>) -> bool {
        r matches Admission::Error { error_response } && exists|error: GovernorError|
            error@ == e && #[trigger] self.handler().renders(error, error_response)
    }

    /// Whether `r` is what is done with a request once the limiter has given `outcome`.
    pub open spec fn settles(self, outcome: CheckOutcome, r: Admission<H::Response>) -> bool {
        match outcome {
            CheckOutcome::Allowed { burst_size, remaining_burst_capacity } => r
                == allowed_admission::<H::Response>(
                M::reports_quota(),
                burst_size,
                remaining_burst_capacity,
            ),
            CheckOutcome::Denied { wait, burst_size } => self.answers(
                denial(M::reports_quota(), wait_seconds(wait), burst_size),
                r,
            ),
        }
    }

    /// Whether `r` is what is done with a request whose key extraction gave `extracted`:
    /// an error is answered by the handler, and with a key some answer that the
    /// limiter may give for its burst size is settled.
    pub open spec fn follows(
        self,
        extracted: Result<K::Key, GovernorError>,
        r: Admission<H::Response>,
    ) -> bool {
        match extracted {
            Ok(_) => exists|outcome: CheckOutcome|
                outcome.of_burst(self.shared_limiter().burst()) && #[trigger] self.settles(
                    outcome,
                    r,
                ),
            Err(e) => r matches Admission::Error { error_response } && self.handler().renders(
                e,
                error_response,
            ),
        }
    }

    /// Whether `r` with `note` is what is done with a request whose key extraction
    /// gave `extracted`: as `follows` says, and a note is made where the limiter
    /// denied, and there alone.
    pub open spec fn follows_noted(
        self,
        extracted: Result<K::Key, GovernorError>,
        r: Admission<H::Response>,
        note: Option<DenialNote>,
    ) -> bool {
        match extracted {
            Ok(_) => exists|outcome: CheckOutcome|
                outcome.of_burst(self.shared_limiter().burst()) && #[trigger] self.settles(
                    outcome,
                    r,
                ) && notes(outcome, note),
            Err(e) => r matches Admission::Error { error_response } && self.handler().renders(
                e,
                error_response,
            ) && note is None,
        }
    }

    /// Whether `r` with `note` is what may be done with the request `req`: as
    /// `decides` says, and a note is made where the limiter denied, and there alone.
    pub open spec fn decides_noted(
        self,
        req: RequestParts,
        r: Admission<H::Response>,
        note: Option<DenialNote>,
    ) -> bool {
        if exempts(self.method_filter(), method_name(*req.method)) {
            note is None && r == exempt_admission::<H::Response>(M::reports_quota())
        } else {
            exists|extracted: Result<K::Key, GovernorError>|
                self.extractor().extracts(req, extracted) && #[trigger] self.follows_noted(
                    extracted,
                    r,
                    note,
                )
        }
    }

    /// Whether `r` is what may be done with the request `req`.
    pub open spec fn decides(self, req: RequestParts, r: Admission<H::Response>) -> bool {
        if exempts(self.method_filter(), method_name(*req.method)) {
            r == exempt_admission::<H::Response>(M::reports_quota())
        } else {
            exists|extracted: Result<K::Key, GovernorError>|
                self.extractor().extracts(req, extracted) && #[trigger] self.follows(extracted, r)
        }
    }

    /// Create new governor middleware factory from configuration. The middleware takes
    /// its tokens from the buckets of the configuration.
    pub fn new(inner: S, config: &GovernorConfig<K, M, H>) -> (governor: Self)
        ensures
            governor.shared_limiter().buckets() == config.shared_limiter().buckets(),
            governor.shared_limiter().period_nanos() == config.shared_limiter().period_nanos(),
            governor.shared_limiter().burst() == config.shared_limiter().burst(),
            governor.service() == inner,
            cloned(config.extractor(), governor.extractor()),
            governor.method_filter() == config.method_filter(),
            cloned(config.handler(), governor.handler()),
    {
        Governor {
            key_extractor: config.key_extractor.clone(),
            limiter: config.limiter.clone(),
            methods: clone_methods(&config.methods),
            inner,
            error_handler: config.error_handler.clone(),
            middleware: PhantomData,
        }
    }

    /// Replaces the error handler.
    pub fn set_error_handler(&mut self, handler: H)
        ensures
            final(self).handler() == handler,
            final(self).shared_limiter() == old(self).shared_limiter(),
            final(self).extractor() == old(self).extractor(),
            final(self).method_filter() == old(self).method_filter(),
            final(self).service() == old(self).service(),
    {
        self.error_handler = handler;
    }

    /// Decides what is done with a request, given what the limiter said of its key:
    /// a request that took a token is passed on, with the quota for the answer where
    /// the quota is reported; one that found none is answered by the error handler.
    pub fn settle(&self, outcome: CheckOutcome) -> (r: Admission<H::Response>)
        ensures
            self.settles(outcome, r),
    {
        match outcome {
            CheckOutcome::Allowed { burst_size, remaining_burst_capacity } => {
                let r = if M::use_quota_headers() {
                    Admission::RateLimitHeader { burst_size, remaining_burst_capacity }
                } else {
                    Admission::Passthrough
                };
                assert(r == allowed_admission::<H::Response>(
                    M::reports_quota(),
                    burst_size,
                    remaining_burst_capacity,
                ));
                r
            },
            CheckOutcome::Denied { wait, burst_size } => {
                let error = denial_error(M::use_quota_headers(), wait, burst_size);
                let ghost shown = error;
                let error_response = self.error_handler.handle(error);
                let r = Admission::Error { error_response };
                assert(shown@ == denial(M::reports_quota(), wait_seconds(wait), burst_size));
                assert(r matches Admission::Error { error_response: x } && self.handler().renders(shown, x));
                assert(self.answers(denial(M::reports_quota(), wait_seconds(wait), burst_size), r));
                r
            },
        }
    }

    /// Decides what is done with a request, given what the key extractor said of it:
    /// with a key the limiter is asked, and an error is answered by the error handler.
    pub fn follow(&self, extracted: Result<K::Key, GovernorError>) -> (r: Admission<H::Response>)
        ensures
            self.follows(extracted, r),
    {
        match extracted {
            Ok(key) => {
                let outcome = self.limiter.check_key(&key);
                let r = self.settle(outcome);
                assert(self.settles(outcome, r));
                r
            },
            Err(e) => Admission::Error { error_response: self.error_handler.handle(e) },
        }
    }

    /// Decides as `follow` does, and notes of a request that found no token what there
    /// is to log: the extractor's name, the key as the extractor writes it, and the
    /// wait.
    pub fn follow_noted(&self, extracted: Result<K::Key, GovernorError>) -> (r: (
        Admission<H::Response>,
        Option<DenialNote>,
    ))
        ensures
            self.follows(extracted, r.0),
            self.follows_noted(extracted, r.0, r.1),
    {
        match extracted {
            Ok(key) => {
                let outcome = self.limiter.check_key(&key);
                let note = match &outcome {
                    CheckOutcome::Denied { wait, .. } => Some(
                        DenialNote {
                            extractor: self.key_extractor.name(),
                            key_name: self.key_extractor.key_name(&key),
                            wait_time: wait.as_secs(),
                        },
                    ),
                    CheckOutcome::Allowed { .. } => None,
                };
                let ghost shown = outcome;
                let admission = self.settle(outcome);
                assert(self.settles(shown, admission) && notes(shown, note));
                (admission, note)
            },
            Err(e) => (Admission::Error { error_response: self.error_handler.handle(e) }, None),
        }
    }

    /// Decides as `decide` does, and notes of a request that found no token what there
    /// is to log.
    pub fn decide_noted(&self, req: &RequestParts) -> (r: (
        Admission<H::Response>,
        Option<DenialNote>,
    ))
        ensures
            self.decides(*req, r.0),
            self.decides_noted(*req, r.0, r.1),
    {
        if is_exempt(&self.methods, req.method) {
            if M::use_quota_headers() {
                (Admission::WhitelistedHeader, None)
            } else {
                (Admission::Passthrough, None)
            }
        } else {
            let extracted = self.key_extractor.extract(req);
            let r = self.follow_noted(extracted);
            assert(self.follows(extracted, r.0));
            assert(self.follows_noted(extracted, r.0, r.1));
            r
        }
    }

    /// Decides what is done with a request. A request whose method is not on the
    /// allow-list is passed on without a look at its key. Of any other the key is
    /// extracted and the limiter asked: the request is passed on if it took a token,
    /// and answered by the error handler if it found none or has no key.
    pub fn decide(&self, req: &RequestParts) -> (r: Admission<H::Response>)
        ensures
            self.decides(*req, r),
    {
        if is_exempt(&self.methods, req.method) {
            if M::use_quota_headers() {
                Admission::WhitelistedHeader
            } else {
                Admission::Passthrough
            }
        } else {
            let extracted = self.key_extractor.extract(req);
            let r = self.follow(extracted);
            assert(self.follows(extracted, r));
            r
        }
    }
}

impl<K: KeyExtractor, M: MiddlewareMode, S: Clone, H: ErrorHandler> Clone for Governor<
    K,
    M,
    S,
    H,
> where K::Key: Clone {
    /// A middleware that shares the limiter with this one.
    fn clone(&self) -> (r: Self)
        ensures
            r.shared_limiter().buckets() == self.shared_limiter().buckets(),
            r.shared_limiter().period_nanos() == self.shared_limiter().period_nanos(),
            r.shared_limiter().burst() == self.shared_limiter().burst(),
            cloned(self.extractor(), r.extractor()),
            r.method_filter() == self.method_filter(),
            cloned(self.service(), r.service()),
            cloned(self.handler(), r.handler()),
    {
        Governor {
            key_extractor: self.key_extractor.clone(),
            limiter: self.limiter.clone(),
            methods: clone_methods(&self.methods),
            inner: self.inner.clone(),
            error_handler: self.error_handler.clone(),
            middleware: PhantomData,
        }
    }
}

/// With the default error handler a request that found no token is answered with
/// status 429, the headers of a denial, and a body that names the wait.
pub proof fn denial_by_default<K: KeyExtractor, M: MiddlewareMode, S>(
    governor: Governor<K, M, S, DefaultErrorHandler>,
    wait: Duration,
    burst_size: u32,
    r: Admission<Response<String>>,
) where K::Key: Clone
    requires
        governor.settles((CheckOutcome::Denied { wait, burst_size }), r),
    ensures
        r is Error,
        status_of(r->error_response) == 429,
        headers_of(r->error_response) == denial_headers(
            M::reports_quota(),
            wait_seconds(wait),
            burst_size,
        ),
        body_of(r->error_response) == "Too Many Requests! Wait for "@ + decimal_text(
            wait_seconds(wait) as nat,
        ) + "s"@,
{
}

/// A request whose method is not on the allow-list is never answered with an error.
/// Where the quota is reported, its answer gets the header `x-ratelimit-whitelisted`
/// with the value `true` and keeps every other header as the inner service set it;
/// where it is not, the answer is left as it is.
pub proof fn exempt_requests_pass<K: KeyExtractor, M: MiddlewareMode, S, H: ErrorHandler>(
    governor: Governor<K, M, S, H>,
    req: RequestParts,
    r: Admission<H::Response>,
    before: Map<Seq<char>, Seq<Seq<u8>>>,
) where K::Key: Clone
    requires
        governor.decides(req, r),
        exempts(governor.method_filter(), method_name(*req.method)),
    ensures
        r.forwards(),
        M::reports_quota() ==> r.annotated(before) == before.insert(
            "x-ratelimit-whitelisted"@,
            seq![ascii_bytes("true"@)],
        ),
        M::reports_quota() ==> forall|name: Seq<char>|
            name != "x-ratelimit-whitelisted"@ ==> (#[trigger] r.annotated(before).dom().contains(name)
                <==> before.dom().contains(name)) && (before.dom().contains(name) ==> r.annotated(
                before,
            )[name] == before[name]),
        !M::reports_quota() ==> r.annotated(before) == before,
{
}

/// Every error response comes from the error handler: whatever the middleware
/// answers in place of a request is a response that its handler gave for an error.
pub proof fn errors_go_through_handler<K: KeyExtractor, M: MiddlewareMode, S, H: ErrorHandler>(
    governor: Governor<K, M, S, H>,
    req: RequestParts,
    r: Admission<H::Response>,
) where K::Key: Clone
    requires
        governor.decides(req, r),
        r is Error,
    ensures
        exists|e: GovernorError| #[trigger] governor.handler().renders(e, r->error_response),
{
    let extracted = choose|extracted: Result<K::Key, GovernorError>|
        governor.extractor().extracts(req, extracted) && #[trigger] governor.follows(extracted, r);
    match extracted {
        Ok(_) => {
            let outcome = choose|outcome: CheckOutcome|
                outcome.of_burst(governor.shared_limiter().burst()) && #[trigger] governor.settles(
                    outcome,
                    r,
                );
            assert(governor.settles(outcome, r));
        },
        Err(e) => {
            assert(governor.handler().renders(e, r->error_response));
        },
    }
}

/// A request that the limiter was asked about and that took a token is passed on.
/// Where the quota is reported, the answer gets the burst size in
/// `x-ratelimit-limit` and what is left of the burst in `x-ratelimit-remaining`.
pub proof fn allowed_requests_pass<K: KeyExtractor, M: MiddlewareMode, S, H: ErrorHandler>(
    governor: Governor<K, M, S, H>,
    burst_size: u32,
    remaining_burst_capacity: u32,
    r: Admission<H::Response>,
    before: Map<Seq<char>, Seq<Seq<u8>>>,
) where K::Key: Clone
    requires
        governor.settles((CheckOutcome::Allowed { burst_size, remaining_burst_capacity }), r),
    ensures
        r.forwards(),
        M::reports_quota() ==> r.annotated(before).dom().contains("x-ratelimit-limit"@)
            && r.annotated(before)["x-ratelimit-limit"@] == seq![decimal_bytes(burst_size as nat)],
        M::reports_quota() ==> r.annotated(before).dom().contains("x-ratelimit-remaining"@)
            && r.annotated(before)["x-ratelimit-remaining"@] == seq![
            decimal_bytes(remaining_burst_capacity as nat),
        ],
        !M::reports_quota() ==> r.annotated(before) == before,
{
    header_names_differ();
}

/// A function that was set as error handler in the builder is the function that
/// answers for the middleware: through `finish` and `Governor::new` the handler is
/// cloned, and every clone gives the responses that the function gives.
pub proof fn installed_function_answers<
    K: KeyExtractor,
    M: MiddlewareMode,
    S,
    R,
    F: Fn(GovernorError) -> R,
>(
    builder: GovernorConfigBuilder<K, M, FnErrorHandler<R, F>>,
    config: GovernorConfig<K, M, FnErrorHandler<R, F>>,
    governor: Governor<K, M, S, FnErrorHandler<R, F>>,
    e: GovernorError,
    r: R,
) where K::Key: Clone
    requires
        config.built_from(builder),
        cloned(config.handler(), governor.handler()),
    ensures
        governor.handler().renders(e, r) == call_ensures(builder.handler().function(), (e,), r),
{
    clone_answers_alike(builder.handler(), config.handler(), e, r);
    clone_answers_alike(config.handler(), governor.handler(), e, r);
}

/// A request is passed on with the quota only where the quota is reported. The limit
/// it is passed on with, which `x-ratelimit-limit` then says, is the burst size of
/// the middleware's limiter, and what `x-ratelimit-remaining` says is less than that.
pub proof fn reported_limit_is_the_burst<K: KeyExtractor, M: MiddlewareMode, S, H: ErrorHandler>(
    governor: Governor<K, M, S, H>,
    req: RequestParts,
    r: Admission<H::Response>,
) where K::Key: Clone
    requires
        governor.decides(req, r),
        r is RateLimitHeader,
    ensures
        M::reports_quota(),
        r->burst_size == governor.shared_limiter().burst(),
        r->remaining_burst_capacity < governor.shared_limiter().burst(),
{
    if exempts(governor.method_filter(), method_name(*req.method)) {
    } else {
        let extracted = choose|extracted: Result<K::Key, GovernorError>|
            governor.extractor().extracts(req, extracted) && #[trigger] governor.follows(extracted, r);
        match extracted {
            Ok(_) => {
                let outcome = choose|outcome: CheckOutcome|
                    outcome.of_burst(governor.shared_limiter().burst())
                        && #[trigger] governor.settles(outcome, r);
                assert(governor.settles(outcome, r));
            },
            Err(e) => {},
        }
    }
}

} // verus!
