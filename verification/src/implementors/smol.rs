//! The cooperative single-reactor engine.

use crate::poll::Poll;
use crate::runtime::Runtime;
use crate::traits::executor::{Ambient, Executor, Route};
use crate::traits::reactor::{Reactor, RegisterError};
use crate::util::task::{Lifecycle, Release, TaskImpl, TaskState};
use vstd::prelude::*;

verus! {

/// A runtime on the cooperative engine.
pub type SmolRuntime = Runtime<Smol>;

impl SmolRuntime {
    /// A runtime on the cooperative engine.
    pub fn smol() -> (runtime: Self)
        ensures
            runtime.kit() == Smol,
    {
        Self::new(Smol)
    }
}

/// The cooperative single-reactor engine.
#[derive(Debug, Default, Copy, Clone, PartialEq, Eq, PartialOrd, Ord)]
pub struct Smol;

impl Executor for Smol {
    open spec fn block_on_route(&self, ambient: Ambient) -> Route {
        Route::Smol
    }

    open spec fn spawn_route(&self, ambient: Ambient) -> Route {
        Route::Smol
    }

    open spec fn spawn_blocking_route(&self, ambient: Ambient) -> Route {
        Route::Smol
    }

    fn block_on(&self, ambient: Ambient) -> (route: Route) {
        Route::Smol
    }

    fn spawn(&self, ambient: Ambient) -> (route: Route) {
        Route::Smol
    }

    fn spawn_blocking(&self, ambient: Ambient) -> (route: Route) {
        Route::Smol
    }
}

impl Reactor for Smol {
    open spec fn register_route(&self, ambient: Ambient) -> Result<Route, RegisterError> {
        Ok(Route::Smol)
    }

    open spec fn sleep_route(&self, ambient: Ambient) -> Route {
        Route::Smol
    }

    open spec fn interval_route(&self, ambient: Ambient) -> Route {
        Route::Smol
    }

    open spec fn tcp_connect_addr_route(&self, ambient: Ambient) -> Route {
        Route::Smol
    }

    fn register(&self, ambient: Ambient) -> (route: Result<Route, RegisterError>) {
        Ok(Route::Smol)
    }

    fn sleep(&self, ambient: Ambient) -> (route: Route) {
        Route::Smol
    }

    fn interval(&self, ambient: Ambient) -> (route: Route) {
        Route::Smol
    }

    fn tcp_connect_addr(&self, ambient: Ambient) -> (route: Route) {
        Route::Smol
    }
}

/// The handle of work on an engine whose native handles stop the work when
/// they are dropped: to let the work run on, the handle has to be detached
/// through the engine.
#[derive(Debug)]
pub struct STask<H>(Lifecycle<H>);

impl<H> STask<H> {
    /// What the handle holds.
    pub closed spec fn lifecycle(&self) -> Lifecycle<H> {
        self.0
    }

    /// The handle of work that was just spawned.
    pub fn new(handle: H) -> (task: Self)
        ensures
            task.lifecycle() == Lifecycle::Running(handle),
    {
        STask(Lifecycle::Running(handle))
    }
}

impl<H> TaskImpl for STask<H> {
    type Handle = H;

    open spec fn state(&self) -> TaskState {
        self.lifecycle().state()
    }

    open spec fn handle(&self) -> Option<H> {
        self.lifecycle().handle()
    }

    proof fn lemma_handle_only_while_running(&self) {
    }

    fn is_running(&self) -> (running: bool) {
        match self.0 {
            Lifecycle::Running(_) => true,
            _ => false,
        }
    }

    fn handle_mut(&mut self) -> (handle: Option<&mut H>) {
        match &mut self.0 {
            Lifecycle::Running(h) => Some(h),
            _ => None,
        }
    }

    fn poll<T>(&mut self, polled: Poll<T>) -> (seen: Poll<T>) {
        match polled {
            Poll::Ready(value) => {
                self.0 = Lifecycle::Completed;
                Poll::Ready(value)
            },
            Poll::Pending => Poll::Pending,
        }
    }

    fn cancel(&mut self) -> (release: Release<H>) {
        let mut taken = Lifecycle::Canceled;
        core::mem::swap(&mut self.0, &mut taken);
        match taken {
            Lifecycle::Running(h) => Release::Cancel(h),
            _ => Release::Nothing,
        }
    }

    fn detach(&mut self) -> (release: Release<H>) {
        let mut taken = Lifecycle::Detached;
        core::mem::swap(&mut self.0, &mut taken);
        match taken {
            Lifecycle::Running(h) => Release::Detach(h),
            _ => Release::Nothing,
        }
    }
}

} // verus!
