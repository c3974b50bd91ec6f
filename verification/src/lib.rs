//! Rate limiting middleware logic keyed by a per-request identity.
//!
//! A [`governor::GovernorConfig`] holds a quota and one token bucket for each key that
//! its [`key_extractor::KeyExtractor`] finds in a request. A [`governor::Governor`]
//! made from it decides, request by request, whether the request is passed on to the
//! inner service or answered at once with an error response.

pub mod admission;
pub mod ascii;
pub mod decimal;
pub mod duration;
pub mod errors;
pub mod forwarded;
pub mod governor;
pub mod handler;
pub mod headers;
pub mod ip;
pub mod ip_text;
pub mod key_extractor;
pub mod layer;
pub mod limiter;
pub mod method;
pub mod middleware;
pub mod response;
pub mod shared;

pub use errors::GovernorError;
pub use layer::GovernorLayer;
