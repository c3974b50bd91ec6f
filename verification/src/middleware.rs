//! The two modes of the middleware.

use vstd::prelude::*;

verus! {

/// Which headers the middleware writes: the base set, or the quota as well. The mode
/// is a type, so a middleware is made for one mode and never asks which.
pub trait MiddlewareMode {
    /// Whether responses report the quota.
    spec fn reports_quota() -> bool;

    /// Tells whether responses report the quota.
    fn use_quota_headers() -> (b: bool)
        ensures
            b == Self::reports_quota(),
    ;
}

/// The base mode: a denial says how long to wait, and nothing else is written.
#[derive(Clone, Copy, Debug, PartialEq, Eq)]
pub struct NoOpMiddleware;

/// The header-reporting mode: every response that passed through the limiter says
/// what the quota is and how much of it is left.
#[derive(Clone, Copy, Debug, PartialEq, Eq)]
pub struct StateInformationMiddleware;

impl MiddlewareMode for NoOpMiddleware {
    open spec fn reports_quota() -> bool {
        false
    }

    fn use_quota_headers() -> (b: bool) {
        false
    }
}

impl MiddlewareMode for StateInformationMiddleware {
    open spec fn reports_quota() -> bool {
        true
    }

    fn use_quota_headers() -> (b: bool) {
        true
    }
}

} // verus!
