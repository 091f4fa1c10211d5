//! The guard set before a handler.

use crate::clock::{is_calendar_instant, unix_now};
use crate::config::{ConfigView, SlackAuthConfig, SlackAuthLayer};
use crate::guard::{decide, decided, Decision, InboundRequest};
use vstd::pervasive::cloned;
use vstd::prelude::*;

verus! {

/// A handler and the configuration of the guard before it.
pub struct SlackAuthService<S> {
    inner: S,
    config: SlackAuthConfig,
}

/// A service as the contracts read it.
pub struct ServiceView<S> {
    pub inner: S,
    pub config: ConfigView,
}

impl<S> View for SlackAuthService<S> {
    type V = ServiceView<S>;

    closed spec fn view(&self) -> ServiceView<S> {
        ServiceView { inner: self.inner, config: self.config@ }
    }
}

impl<S: Clone> Clone for SlackAuthService<S> {
    fn clone(&self) -> (copy: Self)
        ensures
            copy@.config == self@.config,
            cloned(self@.inner, copy@.inner),
    {
        SlackAuthService { inner: self.inner.clone(), config: self.config.clone() }
    }
}

impl SlackAuthLayer {
    /// Sets the guard before `inner`.
    pub fn layer<S>(&self, inner: S) -> (service: SlackAuthService<S>)
        ensures
            service@ == (ServiceView { inner, config: self@ }),
    {
        SlackAuthService { inner, config: self.config().clone() }
    }
}

impl<S> SlackAuthService<S> {
    /// The configuration of the guard.
    pub fn config(&self) -> (config: &SlackAuthConfig)
        ensures
            config@ == self@.config,
    {
        &self.config
    }

    /// The handler behind the guard.
    pub fn inner(&self) -> (inner: &S)
        ensures
            *inner == self@.inner,
    {
        &self.inner
    }

    /// The handler behind the guard, to be driven.
    pub fn inner_mut(&mut self) -> (inner: &mut S)
        ensures
            *inner == old(self)@.inner,
            final(self)@ == (ServiceView { inner: *final(inner), config: old(self)@.config }),
    {
        &mut self.inner
    }

    /// Hands out this service as it stands, for one request, and leaves a
    /// copy of it in its place.
    ///
    /// A handler that has said it is ready must be the one that is called:
    /// so the handler that was here leaves, and its copy stays behind.
    pub fn take_ready(&mut self) -> (ready: Self) where S: Clone
        ensures
            ready@ == old(self)@,
            final(self)@.config == old(self)@.config,
            cloned(old(self)@.inner, final(self)@.inner),
    {
        let mut inner = self.inner.clone();
        std::mem::swap(&mut self.inner, &mut inner);
        let mut config = self.config.clone();
        std::mem::swap(&mut self.config, &mut config);
        SlackAuthService { inner, config }
    }

    /// Decides on a request as if the present were `now`.
    pub fn authenticate_at(&self, request: InboundRequest, now: i64) -> (decision: Decision)
        ensures
            decision@ == decided(self@.config, request@, now as int),
    {
        decide(&self.config, request, now)
    }

    /// Decides on a request by the machine's clock.
    ///
    /// The decision is the one that `authenticate_at` gives for some present
    /// that the calendar names. Panics on a machine whose clock is set
    /// before 1970.
    pub fn authenticate(&self, request: InboundRequest) -> (decision: Decision)
        ensures
            exists|now: i64|
                is_calendar_instant(now as int) && decision@ == #[trigger] decided(
                    self@.config,
                    request@,
                    now as int,
                ),
    {
        let now = unix_now();
        self.authenticate_at(request, now)
    }
}

} // verus!
