use http::header::HeaderMap;
use http::{Method, Response, StatusCode};
use std::sync::Arc;
use std::time::{Duration, Instant};
use tower_governor::admission::Admission;
use tower_governor::governor::{
    clone_methods, is_exempt, Governor, GovernorConfig, GovernorConfigBuilder, DEFAULT_BURST_SIZE,
    DEFAULT_PERIOD_MILLIS,
};
use tower_governor::handler::{DefaultErrorHandler, ErrorHandler};
use tower_governor::middleware::{MiddlewareMode, NoOpMiddleware, StateInformationMiddleware};
use tower_governor::ip::IpKey;
use tower_governor::key_extractor::{KeyExtractor, PeerIpKeyExtractor, RequestParts};
use tower_governor::limiter::{CheckOutcome, MAX_BURST_NANOS};
use tower_governor::GovernorLayer;

fn passes<K, M, H>(governor: &Governor<K, M, (), H>, peer: u32) -> bool
where
    K: KeyExtractor,
    K::Key: Clone,
    M: MiddlewareMode,
    H: ErrorHandler,
{
    let method = Method::GET;
    let headers = HeaderMap::new();
    let parts = RequestParts {
        method: &method,
        headers: &headers,
        connect_info: Some(IpKey::V4(peer)),
        socket_addr: None,
    };
    !matches!(governor.decide(&parts), Admission::Error { .. })
}

/// How many requests of one peer pass in a row.
fn burst_of<K, M, H>(governor: &Governor<K, M, (), H>, peer: u32) -> u32
where
    K: KeyExtractor,
    K::Key: Clone,
    M: MiddlewareMode,
    H: ErrorHandler,
{
    let mut passed = 0;
    while passed < 1000 && passes(governor, peer) {
        passed += 1;
    }
    passed
}

fn wait_for(time: Duration) {
    let start = Instant::now();
    while start.elapsed() < time {
        std::hint::spin_loop();
    }
}

#[test]
fn builder_test() {
    let mut builder = GovernorConfigBuilder::default();
    builder.period(Duration::from_millis(DEFAULT_PERIOD_MILLIS)).burst_size(DEFAULT_BURST_SIZE);

    assert_eq!(GovernorConfigBuilder::default(), builder);

    let mut builder1 = builder.clone();
    builder1.per_millisecond(5000);
    let builder2 = builder.per_second(5);

    assert_eq!(&builder1, builder2);
    assert_ne!(*builder1.burst_size(9), GovernorConfigBuilder::default());
    assert!(format!("{:?}", builder1).contains("GovernorConfigBuilder"));
}

#[test]
fn configurations_and_middleware_can_be_shown() {
    let config = GovernorConfigBuilder::default().finish().unwrap();
    assert!(format!("{:?}", config).contains("GovernorConfig"));
    let governor = Governor::new((), &config);
    assert!(format!("{:?}", governor).contains("Governor"));
    assert!(format!("{:?}", config.limiter()).contains("KeyedLimiter"));
}

#[test]
fn try_finish_refuses_what_finish_cannot_take() {
    assert!(GovernorConfigBuilder::default().try_finish().is_some());
    assert!(GovernorConfigBuilder::default().burst_size(0).try_finish().is_none());
    assert!(GovernorConfigBuilder::default().per_second(0).try_finish().is_none());
    assert!(GovernorConfigBuilder::default().per_second(u64::MAX).try_finish().is_none());
    assert!(GovernorConfigBuilder::default().period(Duration::MAX).try_finish().is_none());
    assert!(GovernorConfigBuilder::default()
        .per_nanosecond(MAX_BURST_NANOS)
        .burst_size(1)
        .try_finish()
        .is_some());
    assert!(GovernorConfigBuilder::default()
        .per_nanosecond(MAX_BURST_NANOS + 1)
        .burst_size(1)
        .try_finish()
        .is_none());
    assert!(GovernorConfigBuilder::default()
        .per_nanosecond(MAX_BURST_NANOS)
        .burst_size(2)
        .try_finish()
        .is_none());
    let config = GovernorConfigBuilder::default()
        .per_second(7)
        .burst_size(3)
        .try_finish()
        .unwrap();
    assert_eq!(config.period(), Duration::from_secs(7));
    assert_eq!(config.burst_size(), 3);
    assert_eq!(config.limiter().burst_size(), 3);
}

#[test]
fn finish_refuses_a_zero_burst() {
    assert!(GovernorConfigBuilder::default().burst_size(0).finish().is_none());
    assert!(GovernorConfigBuilder::default().per_second(1).burst_size(0).finish().is_none());
}

#[test]
fn finish_refuses_a_zero_period() {
    assert!(GovernorConfigBuilder::default().per_second(0).finish().is_none());
    assert!(GovernorConfigBuilder::default().per_millisecond(0).finish().is_none());
    assert!(GovernorConfigBuilder::default().per_nanosecond(0).finish().is_none());
    assert!(GovernorConfigBuilder::default().period(Duration::ZERO).finish().is_none());
    assert!(GovernorConfigBuilder::default().period(Duration::ZERO).burst_size(0).finish().is_none());
}

#[test]
fn quotas_fit_up_to_the_largest_burst() {
    assert!(GovernorConfigBuilder::default().check_quota_fits());
    assert!(GovernorConfigBuilder::default().per_second(0).burst_size(0).check_quota_fits());
    assert!(GovernorConfigBuilder::default().per_second(u64::MAX).burst_size(0).check_quota_fits());
    assert!(GovernorConfigBuilder::default()
        .per_nanosecond(MAX_BURST_NANOS)
        .burst_size(1)
        .check_quota_fits());
    assert!(!GovernorConfigBuilder::default()
        .per_nanosecond(MAX_BURST_NANOS)
        .burst_size(2)
        .check_quota_fits());
    assert!(!GovernorConfigBuilder::default()
        .per_nanosecond(MAX_BURST_NANOS + 1)
        .burst_size(1)
        .check_quota_fits());
    assert!(GovernorConfigBuilder::default()
        .per_second(9_223_372_036)
        .burst_size(1)
        .check_quota_fits());
    assert!(!GovernorConfigBuilder::default()
        .per_second(9_223_372_037)
        .burst_size(1)
        .check_quota_fits());
    assert!(!GovernorConfigBuilder::default().per_second(u64::MAX).burst_size(1).check_quota_fits());
    assert!(!GovernorConfigBuilder::default()
        .period(Duration::MAX)
        .burst_size(u32::MAX)
        .check_quota_fits());
    assert!(GovernorConfigBuilder::default()
        .per_nanosecond(2_147_483_648)
        .burst_size(u32::MAX)
        .check_quota_fits());
    assert!(!GovernorConfigBuilder::default()
        .per_nanosecond(2_147_483_649)
        .burst_size(u32::MAX)
        .check_quota_fits());
}

#[test]
fn finish_accepts_the_smallest_and_the_largest_quota() {
    assert!(GovernorConfigBuilder::default().per_nanosecond(1).burst_size(1).finish().is_some());
    assert!(GovernorConfigBuilder::default()
        .per_nanosecond(MAX_BURST_NANOS)
        .burst_size(1)
        .finish()
        .is_some());
    assert!(GovernorConfigBuilder::default()
        .per_nanosecond(MAX_BURST_NANOS / (u32::MAX as u64))
        .burst_size(u32::MAX)
        .finish()
        .is_some());
}

/// How many requests of one peer pass in a row through a fresh middleware, counted
/// in less time than a token needs to come back.
fn quick_burst_of<M>(
    config: impl Fn() -> GovernorConfig<PeerIpKeyExtractor, M, DefaultErrorHandler>,
    period: Duration,
) -> u32
where
    M: MiddlewareMode,
{
    for _ in 0..200 {
        let governor = Governor::new((), &config());
        let start = Instant::now();
        let passed = burst_of(&governor, 1);
        if start.elapsed() < period {
            return passed;
        }
    }
    panic!("the machine never counted a burst without a pause");
}

#[test]
fn default_allows_a_burst_of_eight() {
    assert_eq!(DEFAULT_BURST_SIZE, 8);
    assert_eq!(DEFAULT_PERIOD_MILLIS, 500);
    let period = Duration::from_millis(500);
    assert_eq!(quick_burst_of(|| GovernorConfigBuilder::default().finish().unwrap(), period), 8);
    assert_eq!(quick_burst_of(GovernorConfig::default, period), 8);
    assert_eq!(
        quick_burst_of(
            || {
                let builder: GovernorConfigBuilder<
                    PeerIpKeyExtractor,
                    NoOpMiddleware,
                    DefaultErrorHandler,
                > = GovernorConfigBuilder::const_default();
                builder.clone().finish().unwrap()
            },
            period
        ),
        8
    );
}

#[test]
fn secure_allows_a_burst_of_two() {
    let config: GovernorConfig<PeerIpKeyExtractor, NoOpMiddleware, DefaultErrorHandler> =
        GovernorConfig::secure();
    let governor = Governor::new((), &config);
    assert_eq!(burst_of(&governor, 1), 2);
    let method = Method::GET;
    let headers = HeaderMap::new();
    let parts = RequestParts {
        method: &method,
        headers: &headers,
        connect_info: Some(IpKey::V4(1)),
        socket_addr: None,
    };
    match governor.decide(&parts) {
        Admission::Error { error_response } => {
            assert_eq!(error_response.status(), StatusCode::TOO_MANY_REQUESTS);
            assert_eq!(error_response.headers().get("x-ratelimit-after").unwrap(), "3");
        }
        _ => panic!("the third request passed"),
    }
    assert_eq!(
        quick_burst_of(
            GovernorConfig::<PeerIpKeyExtractor, StateInformationMiddleware, DefaultErrorHandler>::secure,
            Duration::from_secs(4)
        ),
        2
    );
}

#[test]
fn configurations_record_their_quota() {
    let config = GovernorConfig::default();
    assert_eq!(config.period(), Duration::from_millis(500));
    assert_eq!(config.burst_size(), 8);
    let config: GovernorConfig<PeerIpKeyExtractor, NoOpMiddleware, DefaultErrorHandler> =
        GovernorConfig::secure();
    assert_eq!(config.period(), Duration::from_secs(4));
    assert_eq!(config.burst_size(), 2);
    let config = GovernorConfigBuilder::default()
        .per_nanosecond(1_500)
        .burst_size(77)
        .use_headers()
        .finish()
        .unwrap();
    assert_eq!(config.period(), Duration::from_nanos(1_500));
    assert_eq!(config.burst_size(), 77);
    let copy = config.clone();
    assert_eq!(copy.period(), Duration::from_nanos(1_500));
    assert_eq!(copy.burst_size(), 77);
}

#[test]
fn limiters_are_made_for_the_quota_of_their_configuration() {
    let config = GovernorConfig::default();
    assert_eq!(config.limiter().period(), Duration::from_millis(500));
    assert_eq!(config.limiter().burst_size(), 8);
    assert_eq!(quick_burst_of(GovernorConfig::default, Duration::from_millis(500)), 8);
    let config: GovernorConfig<PeerIpKeyExtractor, NoOpMiddleware, DefaultErrorHandler> =
        GovernorConfig::secure();
    assert_eq!(config.limiter().period(), Duration::from_secs(4));
    assert_eq!(config.limiter().burst_size(), 2);
    let config = GovernorConfigBuilder::default()
        .per_second(3600)
        .burst_size(5)
        .use_headers()
        .finish()
        .unwrap();
    assert_eq!(config.limiter().period(), Duration::from_secs(3600));
    assert_eq!(config.limiter().burst_size(), 5);
    let governor = Governor::new((), &config);
    assert_eq!(governor.limiter.period(), Duration::from_secs(3600));
    assert_eq!(governor.limiter.burst_size(), 5);
    assert_eq!(governor.limiter.clone().burst_size(), 5);
    assert_eq!(config.clone().limiter().period(), Duration::from_secs(3600));
    // what the limiter says of itself is what its buckets do
    assert_eq!(burst_of(&governor, 1), governor.limiter.burst_size());
    let method = Method::GET;
    let headers = HeaderMap::new();
    let parts = RequestParts {
        method: &method,
        headers: &headers,
        connect_info: Some(IpKey::V4(2)),
        socket_addr: None,
    };
    assert!(matches!(
        governor.decide(&parts),
        Admission::RateLimitHeader { burst_size: 5, remaining_burst_capacity: 4 }
    ));
}

#[test]
fn consuming_setters_set_the_quota() {
    let builder: GovernorConfigBuilder<PeerIpKeyExtractor, NoOpMiddleware, DefaultErrorHandler> =
        GovernorConfigBuilder::const_default();
    let config = builder.const_per_second(3600).const_burst_size(3).finish().unwrap();
    assert_eq!(burst_of(&Governor::new((), &config), 1), 3);

    let builder: GovernorConfigBuilder<PeerIpKeyExtractor, NoOpMiddleware, DefaultErrorHandler> =
        GovernorConfigBuilder::const_default();
    assert!(builder.const_period(Duration::ZERO).finish().is_none());
    let builder: GovernorConfigBuilder<PeerIpKeyExtractor, NoOpMiddleware, DefaultErrorHandler> =
        GovernorConfigBuilder::const_default();
    assert!(builder.const_per_millisecond(0).finish().is_none());
    let builder: GovernorConfigBuilder<PeerIpKeyExtractor, NoOpMiddleware, DefaultErrorHandler> =
        GovernorConfigBuilder::const_default();
    assert!(builder.const_per_nanosecond(0).finish().is_none());
    let builder: GovernorConfigBuilder<PeerIpKeyExtractor, NoOpMiddleware, DefaultErrorHandler> =
        GovernorConfigBuilder::const_default();
    assert!(builder.const_burst_size(0).finish().is_none());
    let builder: GovernorConfigBuilder<PeerIpKeyExtractor, NoOpMiddleware, DefaultErrorHandler> =
        GovernorConfigBuilder::const_default();
    let config = builder
        .const_period(Duration::from_secs(60))
        .const_per_millisecond(3_600_000)
        .const_burst_size(4)
        .finish()
        .unwrap();
    assert_eq!(burst_of(&Governor::new((), &config), 1), 4);
}

#[test]
fn setters_set_the_period() {
    let mut builder = GovernorConfigBuilder::default();
    builder.burst_size(1);
    for (config, wait) in [
        (builder.period(Duration::from_secs(30)).finish().unwrap(), "29"),
        (builder.per_second(20).finish().unwrap(), "19"),
        (builder.per_millisecond(10_000).finish().unwrap(), "9"),
        (builder.per_nanosecond(5_000_000_000).finish().unwrap(), "4"),
    ] {
        let governor = Governor::new((), &config);
        assert!(passes(&governor, 1));
        let method = Method::GET;
        let headers = HeaderMap::new();
        let parts = RequestParts {
            method: &method,
            headers: &headers,
            connect_info: Some(IpKey::V4(1)),
            socket_addr: None,
        };
        match governor.decide(&parts) {
            Admission::Error { error_response } => {
                assert_eq!(error_response.headers().get("x-ratelimit-after").unwrap(), wait);
            }
            _ => panic!("the second request passed"),
        }
    }
}

#[test]
fn builders_keep_what_was_set_when_their_type_changes() {
    let config = GovernorConfigBuilder::default()
        .per_second(3600)
        .burst_size(3)
        .methods(vec![Method::PATCH])
        .use_headers()
        .key_extractor(PeerIpKeyExtractor)
        .error_handler(DefaultErrorHandler)
        .finish()
        .unwrap();
    let governor = Governor::new((), &config);
    assert!(governor.methods == Some(vec![Method::PATCH]));
    let method = Method::PATCH;
    let headers = HeaderMap::new();
    let parts = RequestParts {
        method: &method,
        headers: &headers,
        connect_info: Some(IpKey::V4(1)),
        socket_addr: None,
    };
    assert!(matches!(
        governor.decide(&parts),
        Admission::RateLimitHeader { burst_size: 3, remaining_burst_capacity: 2 }
    ));
    assert!(matches!(
        governor.decide(&parts),
        Admission::RateLimitHeader { burst_size: 3, remaining_burst_capacity: 1 }
    ));
    assert!(matches!(
        governor.decide(&parts),
        Admission::RateLimitHeader { burst_size: 3, remaining_burst_capacity: 0 }
    ));
    assert!(matches!(governor.decide(&parts), Admission::Error { .. }));
    assert!(passes(&governor, 2));
}

#[test]
fn allow_list_names_the_limited_methods() {
    let get = Method::GET;
    let post = Method::POST;
    let custom = Method::from_bytes(b"PROPFIND").unwrap();
    let long = Method::from_bytes(b"A-METHOD-WITH-A-LONG-NAME").unwrap();
    assert!(!is_exempt(&None, &get));
    assert!(!is_exempt(&None, &custom));
    assert!(is_exempt(&Some(vec![]), &get));
    assert!(!is_exempt(&Some(vec![Method::GET]), &get));
    assert!(is_exempt(&Some(vec![Method::GET]), &post));
    assert!(!is_exempt(&Some(vec![Method::GET, Method::POST]), &post));
    assert!(is_exempt(&Some(vec![Method::GET, Method::POST]), &custom));
    assert!(!is_exempt(&Some(vec![Method::GET, custom.clone()]), &custom));
    assert!(is_exempt(&Some(vec![Method::from_bytes(b"get").unwrap()]), &get));
    assert!(!is_exempt(&Some(vec![custom.clone(), long.clone()]), &long));
    assert!(is_exempt(&Some(vec![custom.clone()]), &long));
    assert_eq!(clone_methods(&None), None);
    assert_eq!(
        clone_methods(&Some(vec![Method::GET, custom.clone(), long.clone()])),
        Some(vec![Method::GET, custom, long])
    );
}

#[test]
fn settle_follows_the_limiter() {
    let base = Governor::new((), &GovernorConfigBuilder::default().finish().unwrap());
    let reporting =
        Governor::new((), &GovernorConfigBuilder::default().use_headers().finish().unwrap());
    let allowed = || CheckOutcome::Allowed { burst_size: 8, remaining_burst_capacity: 5 };
    let denied = || CheckOutcome::Denied { wait: Duration::from_millis(2_500), burst_size: 8 };
    assert!(matches!(base.settle(allowed()), Admission::Passthrough));
    assert!(matches!(
        reporting.settle(allowed()),
        Admission::RateLimitHeader { burst_size: 8, remaining_burst_capacity: 5 }
    ));
    match base.settle(denied()) {
        Admission::Error { error_response } => {
            assert_eq!(error_response.status(), StatusCode::TOO_MANY_REQUESTS);
            assert_eq!(error_response.body(), "Too Many Requests! Wait for 2s");
            assert_eq!(error_response.headers().get("x-ratelimit-after").unwrap(), "2");
            assert_eq!(error_response.headers().len(), 1);
        }
        _ => panic!("a denied request passed"),
    }
    match reporting.settle(denied()) {
        Admission::Error { error_response } => {
            assert_eq!(error_response.status(), StatusCode::TOO_MANY_REQUESTS);
            assert_eq!(error_response.body(), "Too Many Requests! Wait for 2s");
            assert_eq!(error_response.headers().get("x-ratelimit-after").unwrap(), "2");
            assert_eq!(error_response.headers().get("retry-after").unwrap(), "2");
            assert_eq!(error_response.headers().get("x-ratelimit-limit").unwrap(), "8");
            assert_eq!(error_response.headers().get("x-ratelimit-remaining").unwrap(), "0");
            assert_eq!(error_response.headers().len(), 4);
        }
        _ => panic!("a denied request passed"),
    }
}

#[test]
fn follow_answers_errors_of_the_extractor() {
    let governor = Governor::new((), &GovernorConfigBuilder::default().finish().unwrap());
    match governor.follow(Err(tower_governor::GovernorError::Other {
        code: StatusCode::FORBIDDEN,
        msg: None,
        headers: None,
    })) {
        Admission::Error { error_response } => {
            assert_eq!(error_response.status(), StatusCode::FORBIDDEN);
            assert_eq!(error_response.body(), "Other Error!");
        }
        _ => panic!("a request without a key passed"),
    }
    assert!(matches!(governor.follow(Ok(IpKey::V4(7))), Admission::Passthrough));
}

#[test]
fn sweeping_drops_the_keys_that_are_full_again() {
    let config = GovernorConfigBuilder::default()
        .per_second(3600)
        .burst_size(2)
        .finish()
        .unwrap();
    let governor = Governor::new((), &config);
    assert_eq!(config.limiter().len(), 0);
    for peer in 0..50 {
        assert!(passes(&governor, peer));
    }
    assert_eq!(config.limiter().len(), 50);
    config.limiter().retain_recent();
    assert_eq!(config.limiter().len(), 50);
    assert_eq!(governor.limiter.len(), 50);
    assert_eq!(config.limiter().clone().len(), 50);

    let config = GovernorConfigBuilder::default()
        .per_millisecond(1)
        .burst_size(2)
        .finish()
        .unwrap();
    let governor = Governor::new((), &config);
    for peer in 0..50 {
        assert!(passes(&governor, peer));
    }
    assert_eq!(config.limiter().len(), 50);
    wait_for(Duration::from_millis(10));
    config.limiter().retain_recent();
    assert_eq!(config.limiter().len(), 0);
    assert!(passes(&governor, 7));
    assert_eq!(governor.limiter.len(), 1);
}

#[test]
fn layer_wraps_services_on_one_quota() {
    let config = GovernorConfigBuilder::default()
        .per_second(3600)
        .burst_size(2)
        .methods(vec![Method::GET])
        .finish()
        .unwrap();
    let layer = GovernorLayer::new(Arc::new(config));
    let one = layer.layer(());
    let other = layer.clone().layer(());
    assert!(one.methods == Some(vec![Method::GET]));
    assert!(passes(&one, 1));
    assert!(passes(&other, 1));
    assert!(!passes(&one, 1));
    assert!(!passes(&other, 1));
    assert!(passes(&other, 2));
}

/// A handler of a user that answers every error with one status.
#[derive(Clone)]
struct Teapot;

impl ErrorHandler for Teapot {
    type Response = Response<String>;

    fn handle(&self, e: tower_governor::GovernorError) -> Response<String> {
        let mut response = Response::new(e.to_string());
        *response.status_mut() = StatusCode::IM_A_TEAPOT;
        response
    }
}

/// A handler of a user that answers every error with the default response.
#[derive(Clone)]
struct Plain;

impl ErrorHandler for Plain {
    type Response = Response<String>;

    fn handle(&self, e: tower_governor::GovernorError) -> Response<String> {
        e.into_response()
    }
}

#[test]
fn layer_handler_takes_the_place_of_the_configured_one() {
    let config = GovernorConfigBuilder::default()
        .per_second(3600)
        .burst_size(1)
        .error_handler(Teapot)
        .finish()
        .unwrap();
    let shared = Arc::new(config);
    let method = Method::GET;
    let headers = HeaderMap::new();
    let parts = RequestParts {
        method: &method,
        headers: &headers,
        connect_info: Some(IpKey::V4(1)),
        socket_addr: None,
    };

    let configured = GovernorLayer::new(shared.clone()).layer(());
    assert!(passes(&configured, 1));
    match configured.decide(&parts) {
        Admission::Error { error_response } => {
            assert_eq!(error_response.status(), StatusCode::IM_A_TEAPOT);
            assert_eq!(error_response.body(), "Too Many Requests! Wait for 3599s");
        }
        _ => panic!("the second request passed"),
    }

    let config = GovernorConfigBuilder::default()
        .per_second(3600)
        .burst_size(1)
        .error_handler(Plain)
        .finish()
        .unwrap();
    let mut replaced = Governor::new((), &config);
    assert!(passes(&replaced, 1));
    match replaced.decide(&parts) {
        Admission::Error { error_response } => {
            assert_eq!(error_response.status(), StatusCode::TOO_MANY_REQUESTS);
        }
        _ => panic!("the second request passed"),
    }
    replaced.set_error_handler(Plain);
    assert!(!passes(&replaced, 1));
    let layered = GovernorLayer::new(Arc::new(config)).error_handler(Plain).layer(());
    assert!(!passes(&layered, 1));
}
