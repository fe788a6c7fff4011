//! The stand-alone reactor.

use crate::traits::executor::{Ambient, Route};
use crate::traits::reactor::{Reactor, RegisterError};
use vstd::prelude::*;

verus! {

/// The stand-alone reactor: it has the I/O capability only.
#[derive(Debug, Default, Copy, Clone, PartialEq, Eq, PartialOrd, Ord)]
pub struct AsyncIO;

impl Reactor for AsyncIO {
    open spec fn register_route(&self, ambient: Ambient) -> Result<Route, RegisterError> {
        Ok(Route::AsyncIo)
    }

    open spec fn sleep_route(&self, ambient: Ambient) -> Route {
        Route::AsyncIo
    }

    open spec fn interval_route(&self, ambient: Ambient) -> Route {
        Route::AsyncIo
    }

    open spec fn tcp_connect_addr_route(&self, ambient: Ambient) -> Route {
        Route::AsyncIo
    }

    fn register(&self, ambient: Ambient) -> (route: Result<Route, RegisterError>) {
        Ok(Route::AsyncIo)
    }

    fn sleep(&self, ambient: Ambient) -> (route: Route) {
        Route::AsyncIo
    }

    fn interval(&self, ambient: Ambient) -> (route: Route) {
        Route::AsyncIo
    }

    fn tcp_connect_addr(&self, ambient: Ambient) -> (route: Route) {
        Route::AsyncIo
    }
}

} // verus!
