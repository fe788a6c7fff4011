//! The scheduling capability.
//!
//! An executor does not run anything here: it says through which entry point
//! of which engine a call is to run. The routes are plain values, so that the
//! same answer can be proved of a value and of everything that wraps it.

use std::rc::Rc;
use std::sync::Arc;
use vstd::prelude::*;

verus! {

/// What is known of the place a call is made from.
#[derive(Debug, Clone, Copy, PartialEq, Eq, Structural)]
pub struct Ambient {
    /// The calling thread is inside the context of a thread-pool engine.
    pub inside_tokio: bool,
    /// Descriptors are those of a unix system.
    pub unix: bool,
}

/// Which handle of the thread-pool engine a call goes through.
#[derive(Debug, Clone, Copy, PartialEq, Eq, Structural)]
pub enum HandleSource {
    /// The handle of the runtime that the binding owns.
    Runtime,
    /// The handle of the context that the caller is in.
    Current,
    /// The handle that the binding was given.
    Stored,
}

/// How a call reaches the thread-pool engine.
#[derive(Debug, Clone, Copy, PartialEq, Eq, Structural)]
pub enum Entry {
    /// Through the runtime that the binding owns.
    Runtime,
    /// Through a handle.
    Handle(HandleSource),
    /// Through whatever context the caller is in; the engine fails fast when
    /// there is none.
    Ambient,
}

/// The engine entry point that a capability call is routed to.
#[derive(Debug, Clone, Copy, PartialEq, Eq, Structural)]
pub enum Route {
    /// The thread-pool engine, reached in the given way.
    Tokio(Entry),
    /// The cooperative single-reactor engine.
    Smol,
    /// The global shared-pool engine.
    AsyncGlobalExecutor,
    /// The stand-alone reactor.
    AsyncIo,
    /// The engine that does nothing.
    Noop,
}

/// The scheduling capability of an engine.
pub trait Executor {
    /// Where an operation is run to completion on the calling thread.
    spec fn block_on_route(&self, ambient: Ambient) -> Route;

    /// Where an operation is scheduled for independent execution.
    spec fn spawn_route(&self, ambient: Ambient) -> Route;

    /// Where a blocking operation is run off the scheduler.
    spec fn spawn_blocking_route(&self, ambient: Ambient) -> Route;

    /// Routes a call that blocks on an operation until it resolves.
    fn block_on(&self, ambient: Ambient) -> (route: Route)
        ensures
            route == self.block_on_route(ambient),
    ;

    /// Routes a call that spawns an operation.
    fn spawn(&self, ambient: Ambient) -> (route: Route)
        ensures
            route == self.spawn_route(ambient),
    ;

    /// Routes a call that spawns a blocking operation on the dedicated pool.
    fn spawn_blocking(&self, ambient: Ambient) -> (route: Route)
        ensures
            route == self.spawn_blocking_route(ambient),
    ;
}

impl<'a, E: Executor> Executor for &'a E {
    open spec fn block_on_route(&self, ambient: Ambient) -> Route {
        (**self).block_on_route(ambient)
    }

    open spec fn spawn_route(&self, ambient: Ambient) -> Route {
        (**self).spawn_route(ambient)
    }

    open spec fn spawn_blocking_route(&self, ambient: Ambient) -> Route {
        (**self).spawn_blocking_route(ambient)
    }

    fn block_on(&self, ambient: Ambient) -> (route: Route) {
        (**self).block_on(ambient)
    }

    fn spawn(&self, ambient: Ambient) -> (route: Route) {
        (**self).spawn(ambient)
    }

    fn spawn_blocking(&self, ambient: Ambient) -> (route: Route) {
        (**self).spawn_blocking(ambient)
    }
}

impl<E: Executor> Executor for Box<E> {
    open spec fn block_on_route(&self, ambient: Ambient) -> Route {
        (**self).block_on_route(ambient)
    }

    open spec fn spawn_route(&self, ambient: Ambient) -> Route {
        (**self).spawn_route(ambient)
    }

    open spec fn spawn_blocking_route(&self, ambient: Ambient) -> Route {
        (**self).spawn_blocking_route(ambient)
    }

    fn block_on(&self, ambient: Ambient) -> (route: Route) {
        (**self).block_on(ambient)
    }

    fn spawn(&self, ambient: Ambient) -> (route: Route) {
        (**self).spawn(ambient)
    }

    fn spawn_blocking(&self, ambient: Ambient) -> (route: Route) {
        (**self).spawn_blocking(ambient)
    }
}

impl<E: Executor> Executor for Rc<E> {
    open spec fn block_on_route(&self, ambient: Ambient) -> Route {
        (**self).block_on_route(ambient)
    }

    open spec fn spawn_route(&self, ambient: Ambient) -> Route {
        (**self).spawn_route(ambient)
    }

    open spec fn spawn_blocking_route(&self, ambient: Ambient) -> Route {
        (**self).spawn_blocking_route(ambient)
    }

    fn block_on(&self, ambient: Ambient) -> (route: Route) {
        (**self).block_on(ambient)
    }

    fn spawn(&self, ambient: Ambient) -> (route: Route) {
        (**self).spawn(ambient)
    }

    fn spawn_blocking(&self, ambient: Ambient) -> (route: Route) {
        (**self).spawn_blocking(ambient)
    }
}

impl<E: Executor> Executor for Arc<E> {
    open spec fn block_on_route(&self, ambient: Ambient) -> Route {
        (**self).block_on_route(ambient)
    }

    open spec fn spawn_route(&self, ambient: Ambient) -> Route {
        (**self).spawn_route(ambient)
    }

    open spec fn spawn_blocking_route(&self, ambient: Ambient) -> Route {
        (**self).spawn_blocking_route(ambient)
    }

    fn block_on(&self, ambient: Ambient) -> (route: Route) {
        (**self).block_on(ambient)
    }

    fn spawn(&self, ambient: Ambient) -> (route: Route) {
        (**self).spawn(ambient)
    }

    fn spawn_blocking(&self, ambient: Ambient) -> (route: Route) {
        (**self).spawn_blocking(ambient)
    }
}

/// Whatever holds an executor routes as the executor does: a reference, a
/// box and a shared pointer forward every call unchanged, however they are
/// nested.
pub proof fn lemma_wrappers_forward<E: Executor>(executor: E, ambient: Ambient)
    ensures
        (&executor).block_on_route(ambient) == executor.block_on_route(ambient),
        (&executor).spawn_route(ambient) == executor.spawn_route(ambient),
        (&executor).spawn_blocking_route(ambient) == executor.spawn_blocking_route(ambient),
        Box::new(executor).block_on_route(ambient) == executor.block_on_route(ambient),
        Box::new(executor).spawn_route(ambient) == executor.spawn_route(ambient),
        Box::new(executor).spawn_blocking_route(ambient) == executor.spawn_blocking_route(ambient),
        Rc::new(executor).block_on_route(ambient) == executor.block_on_route(ambient),
        Rc::new(executor).spawn_route(ambient) == executor.spawn_route(ambient),
        Rc::new(executor).spawn_blocking_route(ambient) == executor.spawn_blocking_route(ambient),
        Arc::new(executor).block_on_route(ambient) == executor.block_on_route(ambient),
        Arc::new(executor).spawn_route(ambient) == executor.spawn_route(ambient),
        Arc::new(executor).spawn_blocking_route(ambient) == executor.spawn_blocking_route(ambient),
        Arc::new(Box::new(executor)).spawn_route(ambient) == executor.spawn_route(ambient),
{
}

} // verus!
