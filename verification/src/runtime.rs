//! The runtime facade: one handle for both capabilities.

use crate::traits::executor::{Ambient, Executor, Route};
use crate::traits::reactor::{Reactor, RegisterError};
use crate::traits::runtime::RuntimeKit;
use crate::util::addr::SocketAddrsResolver;
use vstd::prelude::*;

verus! {

/// A runtime: every call goes to the kit it was made from, unchanged.
#[derive(Debug)]
pub struct Runtime<RK: RuntimeKit> {
    kit: RK,
}

impl<RK: RuntimeKit> Runtime<RK> {
    /// The kit that the runtime was made from.
    pub closed spec fn kit(&self) -> RK {
        self.kit
    }

    /// Makes a runtime from a kit.
    pub fn new(kit: RK) -> (runtime: Self)
        ensures
            runtime.kit() == kit,
    {
        Self { kit }
    }

    /// The kit that the runtime was made from.
    pub fn get_ref(&self) -> (kit: &RK)
        ensures
            *kit == self.kit(),
    {
        &self.kit
    }

    /// Wraps a name so that the blocking resolver of the system resolves it
    /// off the scheduler of this runtime.
    pub fn to_socket_addrs<A>(&self, addrs: A) -> (resolver: SocketAddrsResolver<'_, RK, A>)
        ensures
            resolver.runtime == self,
            resolver.addrs == addrs,
    {
        SocketAddrsResolver { runtime: self, addrs }
    }
}

impl<RK: RuntimeKit> From<RK> for Runtime<RK> {
    fn from(kit: RK) -> (runtime: Self)
        ensures
            runtime.kit() == kit,
    {
        Self::new(kit)
    }
}

impl<RK: RuntimeKit> vstd::std_specs::convert::FromSpecImpl<RK> for Runtime<RK> {
    open spec fn obeys_from_spec() -> bool {
        true
    }

    closed spec fn from_spec(kit: RK) -> Self {
        Runtime { kit }
    }
}

impl<RK: RuntimeKit> Executor for Runtime<RK> {
    open spec fn block_on_route(&self, ambient: Ambient) -> Route {
        self.kit().block_on_route(ambient)
    }

    open spec fn spawn_route(&self, ambient: Ambient) -> Route {
        self.kit().spawn_route(ambient)
    }

    open spec fn spawn_blocking_route(&self, ambient: Ambient) -> Route {
        self.kit().spawn_blocking_route(ambient)
    }

    fn block_on(&self, ambient: Ambient) -> (route: Route) {
        self.kit.block_on(ambient)
    }

    fn spawn(&self, ambient: Ambient) -> (route: Route) {
        self.kit.spawn(ambient)
    }

    fn spawn_blocking(&self, ambient: Ambient) -> (route: Route) {
        self.kit.spawn_blocking(ambient)
    }
}

impl<RK: RuntimeKit> Reactor for Runtime<RK> {
    open spec fn register_route(&self, ambient: Ambient) -> Result<Route, RegisterError> {
        self.kit().register_route(ambient)
    }

    open spec fn sleep_route(&self, ambient: Ambient) -> Route {
        self.kit().sleep_route(ambient)
    }

    open spec fn interval_route(&self, ambient: Ambient) -> Route {
        self.kit().interval_route(ambient)
    }

    open spec fn tcp_connect_addr_route(&self, ambient: Ambient) -> Route {
        self.kit().tcp_connect_addr_route(ambient)
    }

    fn register(&self, ambient: Ambient) -> (route: Result<Route, RegisterError>) {
        self.kit.register(ambient)
    }

    fn sleep(&self, ambient: Ambient) -> (route: Route) {
        self.kit.sleep(ambient)
    }

    fn interval(&self, ambient: Ambient) -> (route: Route) {
        self.kit.interval(ambient)
    }

    fn tcp_connect_addr(&self, ambient: Ambient) -> (route: Route) {
        self.kit.tcp_connect_addr(ambient)
    }
}

} // verus!
