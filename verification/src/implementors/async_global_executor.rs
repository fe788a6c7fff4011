//! The global shared-pool engine.

use crate::implementors::async_io::AsyncIO;
use crate::runtime::Runtime;
use crate::traits::executor::{Ambient, Executor, Route};
use crate::util::runtime::RuntimeParts;
use vstd::prelude::*;

verus! {

/// A runtime on the global pool, with the stand-alone reactor for I/O.
pub type AGERuntime = Runtime<RuntimeParts<AsyncGlobalExecutor, AsyncIO>>;

impl AGERuntime {
    /// A runtime on the global pool, with the stand-alone reactor for I/O.
    pub fn async_global_executor() -> (runtime: Self)
        ensures
            runtime.kit().executor() == AsyncGlobalExecutor,
            runtime.kit().reactor() == AsyncIO,
    {
        Self::new(RuntimeParts::new(AsyncGlobalExecutor, AsyncIO))
    }
}

/// The global shared-pool engine: it has the scheduling capability only.
#[derive(Debug, Default, Copy, Clone, PartialEq, Eq, PartialOrd, Ord)]
pub struct AsyncGlobalExecutor;

impl Executor for AsyncGlobalExecutor {
    open spec fn block_on_route(&self, ambient: Ambient) -> Route {
        Route::AsyncGlobalExecutor
    }

    open spec fn spawn_route(&self, ambient: Ambient) -> Route {
        Route::AsyncGlobalExecutor
    }

    open spec fn spawn_blocking_route(&self, ambient: Ambient) -> Route {
        Route::AsyncGlobalExecutor
    }

    fn block_on(&self, ambient: Ambient) -> (route: Route) {
        Route::AsyncGlobalExecutor
    }

    fn spawn(&self, ambient: Ambient) -> (route: Route) {
        Route::AsyncGlobalExecutor
    }

    fn spawn_blocking(&self, ambient: Ambient) -> (route: Route) {
        Route::AsyncGlobalExecutor
    }
}

} // verus!
