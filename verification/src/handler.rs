//! Error handlers: what turns an error of the limiter into a response.

use crate::errors::GovernorError;
use crate::response::{body_of, headers_of, status_of};
use crate::shared::share;
use http::Response;
use std::marker::PhantomData;
use std::sync::Arc;
use vstd::prelude::*;

verus! {

/// Turns an error into the response that is sent in its place. A handler answers
/// every error: it has no way to refuse one.
pub trait ErrorHandler: Clone {
    /// The responses that the handler gives.
    type Response;

    /// Whether `r` is a response that this handler may give for `e`. A handler that
    /// says nothing of itself may give any.
    open spec fn renders(&self, e: GovernorError, r: Self::Response) -> bool {
        true
    }

    /// The response for an error.
    fn handle(&self, e: GovernorError) -> (r: Self::Response)
        ensures
            self.renders(e, r),
    ;
}

/// The handler that answers with the error's default response.
#[derive(Clone, Copy, Debug, PartialEq, Eq)]
pub struct DefaultErrorHandler;

impl ErrorHandler for DefaultErrorHandler {
    type Response = Response<String>;

    open spec fn renders(&self, e: GovernorError, r: Response<String>) -> bool {
        &&& status_of(r) == e@.default_status()
        &&& body_of(r) == e@.default_body()
        &&& headers_of(r) == e@.default_headers()
    }

    fn handle(&self, e: GovernorError) -> (r: Response<String>) {
        e.into_response()
    }
}

/// A handler made of a function that accepts every error. Its clones call the same
/// function.
#[verifier::reject_recursive_types(R)]
#[verifier::reject_recursive_types(F)]
pub struct FnErrorHandler<R, F: Fn(GovernorError) -> R> {
    render: Arc<F>,
    response: PhantomData<R>,
}

impl<R, F: Fn(GovernorError) -> R> FnErrorHandler<R, F> {
    #[verifier::type_invariant]
    spec fn total(self) -> bool {
        forall|e: GovernorError| call_requires(*self.render, (e,))
    }

    /// The function this handler calls.
    pub closed spec fn function(self) -> F {
        *self.render
    }

    /// A handler that answers with what `render` gives. The function must accept
    /// every error.
    pub fn new(render: F) -> (h: Self)
        requires
            forall|e: GovernorError| call_requires(render, (e,)),
        ensures
            h.function() == render,
    {
        FnErrorHandler { render: Arc::new(render), response: PhantomData }
    }
}

impl<R, F: Fn(GovernorError) -> R> Clone for FnErrorHandler<R, F> {
    /// A handler that calls the same function.
    fn clone(&self) -> (r: Self)
        ensures
            r.function() == self.function(),
    {
        proof {
            use_type_invariant(self);
        }
        FnErrorHandler { render: share(&self.render), response: PhantomData }
    }
}

impl<R, F: Fn(GovernorError) -> R> PartialEq for FnErrorHandler<R, F> {
    /// Two functions cannot be told apart, so every function handler counts as equal
    /// to every other.
    fn eq(&self, other: &Self) -> (r: bool) {
        true
    }
}

impl<R, F: Fn(GovernorError) -> R> vstd::std_specs::cmp::PartialEqSpecImpl for FnErrorHandler<R, F> {
    open spec fn obeys_eq_spec() -> bool {
        true
    }

    open spec fn eq_spec(&self, other: &Self) -> bool {
        true
    }
}

impl<R, F: Fn(GovernorError) -> R> Eq for FnErrorHandler<R, F> {

}

impl<R, F: Fn(GovernorError) -> R> ErrorHandler for FnErrorHandler<R, F> {
    type Response = R;

    open spec fn renders(&self, e: GovernorError, r: R) -> bool {
        call_ensures(self.function(), (e,), r)
    }

    fn handle(&self, e: GovernorError) -> (r: R) {
        proof {
            use_type_invariant(self);
        }
        (self.render)(e)
    }
}

/// A clone of a function handler answers as the handler does: it gives the
/// responses that the handler's function gives.
pub proof fn clone_answers_alike<R, F: Fn(GovernorError) -> R>(
    handler: FnErrorHandler<R, F>,
    clone: FnErrorHandler<R, F>,
    e: GovernorError,
    r: R,
)
    requires
        cloned(handler, clone),
    ensures
        clone.function() == handler.function(),
        clone.renders(e, r) == call_ensures(handler.function(), (e,), r),
{
}

} // verus!
