//! The rate-limiting service and the layer that makes it.
//!
//! A service holds what one pipeline needs: the guarded service, the
//! configuration, and a handle to the store. The configuration is shared by
//! every service that one layer makes, the handle to the store is a clone
//! of the layer's.

use crate::config::RateLimitConfig;
use std::sync::Arc;
use vstd::pervasive::cloned;
use vstd::prelude::*;
use vstd::std_specs::convert::IntoSpec;

verus! {

/// `Arc::clone` is trusted to give a second handle to the same value.
#[verifier::external_body]
fn share<T>(shared: &Arc<T>) -> (again: Arc<T>)
    ensures
        again == *shared,
{
    Arc::clone(shared)
}

/// A guarded service together with the configuration and the connection
/// that limit the requests to it.
#[verifier::reject_recursive_types(ReqTy)]
#[verifier::reject_recursive_types(RespTy)]
#[verifier::reject_recursive_types(IntoRespTy)]
pub struct RateLimit<S, PR, ReqTy, RespTy, IntoRespTy, C> {
    inner: S,
    config: Arc<RateLimitConfig<PR, ReqTy, RespTy, IntoRespTy>>,
    connection: C,
}

impl<S, PR, ReqTy, RespTy, IntoRespTy, C> Clone for RateLimit<
    S,
    PR,
    ReqTy,
    RespTy,
    IntoRespTy,
    C,
> where S: Clone, C: Clone {
    /// A second service over clones of the guarded service and of the
    /// connection, and over the same configuration.
    fn clone(&self) -> (other: Self)
        ensures
            cloned(self.inner(), other.inner()),
            other.config() == self.config(),
            cloned(self.connection(), other.connection()),
    {
        RateLimit {
            inner: self.inner.clone(),
            config: share(&self.config),
            connection: self.connection.clone(),
        }
    }
}

impl<S, PR, ReqTy, RespTy, IntoRespTy, C> RateLimit<S, PR, ReqTy, RespTy, IntoRespTy, C> {
    /// The guarded service.
    pub closed spec fn inner(self) -> S {
        self.inner
    }

    /// The configuration, shared with the layer that made the service.
    pub closed spec fn config(self) -> Arc<RateLimitConfig<PR, ReqTy, RespTy, IntoRespTy>> {
        self.config
    }

    /// The handle to the store.
    pub closed spec fn connection(self) -> C {
        self.connection
    }

    /// A service that guards `inner` with the configuration and the
    /// connection given. A configuration that is passed by value becomes a
    /// shared one.
    pub fn new<RLC>(inner: S, config: RLC, connection: C) -> (service: Self) where
        RLC: Into<Arc<RateLimitConfig<PR, ReqTy, RespTy, IntoRespTy>>>,

        ensures
            service.inner() == inner,
            call_ensures(RLC::into, (config,), service.config()),
            RLC::obeys_into_spec() ==> service.config() == config.into_spec(),
            service.connection() == connection,
    {
        RateLimit { inner, config: config.into(), connection }
    }

    /// The guarded service, to ask it whether it is ready: the pipeline adds
    /// no readiness of its own.
    pub fn inner_mut(&mut self) -> (inner: &mut S)
        ensures
            *inner == old(self).inner(),
            final(self).inner() == *final(inner),
            final(self).config() == old(self).config(),
            final(self).connection() == old(self).connection(),
    {
        &mut self.inner
    }

    /// The three parts of the service, for the one request that they are to
    /// serve.
    pub fn into_parts(self) -> (parts: (S, Arc<RateLimitConfig<PR, ReqTy, RespTy, IntoRespTy>>, C))
        ensures
            parts.0 == self.inner(),
            parts.1 == self.config(),
            parts.2 == self.connection(),
    {
        (self.inner, self.config, self.connection)
    }
}

/// Makes rate-limiting services: binds a configuration and a connection
/// once, and wraps any number of services with them.
#[verifier::reject_recursive_types(ReqTy)]
#[verifier::reject_recursive_types(RespTy)]
#[verifier::reject_recursive_types(IntoRespTy)]
pub struct RateLimitLayer<PR, ReqTy, RespTy, IntoRespTy, C> {
    config: Arc<RateLimitConfig<PR, ReqTy, RespTy, IntoRespTy>>,
    connection: C,
}

impl<PR, ReqTy, RespTy, IntoRespTy, C> Clone for RateLimitLayer<
    PR,
    ReqTy,
    RespTy,
    IntoRespTy,
    C,
> where C: Clone {
    /// A second layer over the same configuration and a clone of the
    /// connection.
    fn clone(&self) -> (other: Self)
        ensures
            other.config() == self.config(),
            cloned(self.connection(), other.connection()),
    {
        RateLimitLayer { config: share(&self.config), connection: self.connection.clone() }
    }
}

impl<PR, ReqTy, RespTy, IntoRespTy, C> RateLimitLayer<PR, ReqTy, RespTy, IntoRespTy, C> {
    /// The configuration that every service of this layer shares.
    pub closed spec fn config(self) -> Arc<RateLimitConfig<PR, ReqTy, RespTy, IntoRespTy>> {
        self.config
    }

    /// The handle to the store that every service of this layer gets a
    /// clone of.
    pub closed spec fn connection(self) -> C {
        self.connection
    }

    /// A layer over the configuration and the connection given. A
    /// configuration that is passed by value becomes a shared one.
    pub fn new<RLC>(config: RLC, connection: C) -> (layer: Self) where
        RLC: Into<Arc<RateLimitConfig<PR, ReqTy, RespTy, IntoRespTy>>>,

        ensures
            call_ensures(RLC::into, (config,), layer.config()),
            RLC::obeys_into_spec() ==> layer.config() == config.into_spec(),
            layer.connection() == connection,
    {
        RateLimitLayer { config: config.into(), connection }
    }

    /// Wraps `inner`: the new service guards it with this layer's
    /// configuration, which is shared and not copied, and with a clone of this
    /// layer's connection.
    pub fn layer<S>(&self, inner: S) -> (service: RateLimit<S, PR, ReqTy, RespTy, IntoRespTy, C>) where
        C: Clone,

        ensures
            service.inner() == inner,
            service.config() == self.config(),
            cloned(self.connection(), service.connection()),
    {
        RateLimit { inner, config: share(&self.config), connection: self.connection.clone() }
    }
}

} // verus!
