//! A runtime kit made of two independent halves.

use crate::traits::executor::{Ambient, Executor, Route};
use crate::traits::reactor::{Reactor, RegisterError};
use vstd::prelude::*;

verus! {

/// An executor and a reactor that were made apart and work as one kit. The
/// two never interact: each call goes to the half that has the capability.
#[derive(Debug, Clone)]
pub struct RuntimeParts<E: Executor, R: Reactor> {
    executor: E,
    reactor: R,
}

impl<E: Executor, R: Reactor> RuntimeParts<E, R> {
    /// The half with the scheduling capability.
    pub closed spec fn executor(&self) -> E {
        self.executor
    }

    /// The half with the I/O capability.
    pub closed spec fn reactor(&self) -> R {
        self.reactor
    }

    /// Pairs an executor with a reactor.
    pub fn new(executor: E, reactor: R) -> (parts: Self)
        ensures
            parts.executor() == executor,
            parts.reactor() == reactor,
    {
        Self { executor, reactor }
    }
}

impl<E: Executor, R: Reactor> Executor for RuntimeParts<E, R> {
    open spec fn block_on_route(&self, ambient: Ambient) -> Route {
        self.executor().block_on_route(ambient)
    }

    open spec fn spawn_route(&self, ambient: Ambient) -> Route {
        self.executor().spawn_route(ambient)
    }

    open spec fn spawn_blocking_route(&self, ambient: Ambient) -> Route {
        self.executor().spawn_blocking_route(ambient)
    }

    fn block_on(&self, ambient: Ambient) -> (route: Route) {
        self.executor.block_on(ambient)
    }

    fn spawn(&self, ambient: Ambient) -> (route: Route) {
        self.executor.spawn(ambient)
    }

    fn spawn_blocking(&self, ambient: Ambient) -> (route: Route) {
        self.executor.spawn_blocking(ambient)
    }
}

impl<E: Executor, R: Reactor> Reactor for RuntimeParts<E, R> {
    open spec fn register_route(&self, ambient: Ambient) -> Result<Route, RegisterError> {
        self.reactor().register_route(ambient)
    }

    open spec fn sleep_route(&self, ambient: Ambient) -> Route {
        self.reactor().sleep_route(ambient)
    }

    open spec fn interval_route(&self, ambient: Ambient) -> Route {
        self.reactor().interval_route(ambient)
    }

    open spec fn tcp_connect_addr_route(&self, ambient: Ambient) -> Route {
        self.reactor().tcp_connect_addr_route(ambient)
    }

    fn register(&self, ambient: Ambient) -> (route: Result<Route, RegisterError>) {
        self.reactor.register(ambient)
    }

    fn sleep(&self, ambient: Ambient) -> (route: Route) {
        self.reactor.sleep(ambient)
    }

    fn interval(&self, ambient: Ambient) -> (route: Route) {
        self.reactor.interval(ambient)
    }

    fn tcp_connect_addr(&self, ambient: Ambient) -> (route: Route) {
        self.reactor.tcp_connect_addr(ambient)
    }
}

/// The two halves of a kit do not interact: what the executor half is does
/// not change the route of any reactor call, and what the reactor half is
/// does not change the route of any executor call.
pub proof fn lemma_halves_do_not_interact<E: Executor, R: Reactor>(
    a: RuntimeParts<E, R>,
    b: RuntimeParts<E, R>,
    ambient: Ambient,
)
    ensures
        a.executor() == b.executor() ==> a.block_on_route(ambient) == b.block_on_route(ambient)
            && a.spawn_route(ambient) == b.spawn_route(ambient) && a.spawn_blocking_route(ambient)
            == b.spawn_blocking_route(ambient),
        a.reactor() == b.reactor() ==> a.register_route(ambient) == b.register_route(ambient)
            && a.sleep_route(ambient) == b.sleep_route(ambient) && a.interval_route(ambient)
            == b.interval_route(ambient) && a.tcp_connect_addr_route(ambient)
            == b.tcp_connect_addr_route(ambient),
{
}

} // verus!
