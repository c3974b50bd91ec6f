//! The layer that puts the middleware in front of a service.

use crate::governor::{Governor, GovernorConfig};
use crate::handler::ErrorHandler;
use crate::key_extractor::KeyExtractor;
use crate::middleware::MiddlewareMode;
use crate::shared::share;
use std::sync::Arc;
use vstd::prelude::*;

verus! {

/// The Layer type that is passed into `.layer()`. Every service it wraps shares the
/// limiter of its configuration.
pub struct GovernorLayer<K: KeyExtractor, M: MiddlewareMode, H: ErrorHandler> where K::Key: Clone {
    config: Arc<GovernorConfig<K, M, H>>,
    error_handler: Option<H>,
}

impl<K: KeyExtractor, M: MiddlewareMode, H: ErrorHandler> GovernorLayer<K, M, H> where
    K::Key: Clone,
 {
    /// The configuration of the layer.
    pub closed spec fn configuration(self) -> GovernorConfig<K, M, H> {
        *self.config
    }

    /// The error handler that takes the place of the configuration's, if one was set.
    pub closed spec fn own_handler(self) -> Option<H> {
        self.error_handler
    }

    /// The handler that answers for the services of this layer: its own where it has
    /// one, and else the configuration's.
    pub open spec fn answering_handler(self) -> H {
        match self.own_handler() {
            Some(handler) => handler,
            None => self.configuration().handler(),
        }
    }

    /// Create a new layer from config
    pub fn new(config: Arc<GovernorConfig<K, M, H>>) -> (layer: Self)
        ensures
            layer.configuration() == *config,
            layer.own_handler() is None,
    {
        GovernorLayer { config, error_handler: None }
    }

    /// Set custom error handler for governor errors [`crate::GovernorError`]
    ///
    /// If the handler is not set, the configuration's handler answers.
    pub fn error_handler(self, handler: H) -> (layer: Self)
        ensures
            layer.configuration() == self.configuration(),
            layer.own_handler() == Some(handler),
    {
        GovernorLayer { config: self.config, error_handler: Some(handler) }
    }

    /// Wraps a service: the middleware has the configuration's key extractor and
    /// method filter, and the layer's error handler where it has one.
    pub fn layer<S>(&self, inner: S) -> (service: Governor<K, M, S, H>)
        ensures
            service.shared_limiter().buckets() == self.configuration().shared_limiter().buckets(),
            service.service() == inner,
            cloned(self.configuration().extractor(), service.extractor()),
            service.method_filter() == self.configuration().method_filter(),
            cloned(self.answering_handler(), service.handler()),
    {
        let mut service = Governor::new(inner, &*self.config);
        match &self.error_handler {
            Some(handler) => {
                service.set_error_handler(handler.clone());
            },
            None => {},
        }
        service
    }
}

impl<K: KeyExtractor, M: MiddlewareMode, H: ErrorHandler> Clone for GovernorLayer<K, M, H> where
    K::Key: Clone,
 {
    /// A layer on the same configuration.
    fn clone(&self) -> (r: Self)
        ensures
            r.configuration() == self.configuration(),
            self.own_handler() is None ==> r.own_handler() is None,
            self.own_handler() is Some ==> r.own_handler() is Some,
            self.own_handler() is Some ==> cloned(self.own_handler()->Some_0, r.own_handler()->Some_0),
    {
        let error_handler = match &self.error_handler {
            Some(handler) => Some(handler.clone()),
            None => None,
        };
        GovernorLayer { config: share(&self.config), error_handler }
    }
}

} // verus!
