//! The engine that does nothing: no operation on it ever makes progress.

use crate::poll::Poll;
use crate::runtime::Runtime;
use crate::traits::executor::{Ambient, Executor, Route};
use crate::traits::reactor::{Reactor, RegisterError};
use crate::util::task::{Release, TaskImpl, TaskState};
use vstd::prelude::*;

verus! {

/// A runtime on the engine that does nothing.
pub type NoopRuntime = Runtime<Noop>;

impl NoopRuntime {
    /// A runtime on the engine that does nothing.
    pub fn noop() -> (runtime: Self)
        ensures
            runtime.kit() == Noop,
    {
        Self::new(Noop)
    }
}

/// The engine that does nothing.
#[derive(Debug, Default, Copy, Clone, PartialEq, Eq, PartialOrd, Ord)]
pub struct Noop;

impl Executor for Noop {
    open spec fn block_on_route(&self, ambient: Ambient) -> Route {
        Route::Noop
    }

    open spec fn spawn_route(&self, ambient: Ambient) -> Route {
        Route::Noop
    }

    open spec fn spawn_blocking_route(&self, ambient: Ambient) -> Route {
        Route::Noop
    }

    fn block_on(&self, ambient: Ambient) -> (route: Route) {
        Route::Noop
    }

    fn spawn(&self, ambient: Ambient) -> (route: Route) {
        Route::Noop
    }

    fn spawn_blocking(&self, ambient: Ambient) -> (route: Route) {
        Route::Noop
    }
}

impl Reactor for Noop {
    open spec fn register_route(&self, ambient: Ambient) -> Result<Route, RegisterError> {
        Ok(Route::Noop)
    }

    open spec fn sleep_route(&self, ambient: Ambient) -> Route {
        Route::Noop
    }

    open spec fn interval_route(&self, ambient: Ambient) -> Route {
        Route::Noop
    }

    open spec fn tcp_connect_addr_route(&self, ambient: Ambient) -> Route {
        Route::Noop
    }

    fn register(&self, ambient: Ambient) -> (route: Result<Route, RegisterError>) {
        Ok(Route::Noop)
    }

    fn sleep(&self, ambient: Ambient) -> (route: Route) {
        Route::Noop
    }

    fn interval(&self, ambient: Ambient) -> (route: Route) {
        Route::Noop
    }

    fn tcp_connect_addr(&self, ambient: Ambient) -> (route: Route) {
        Route::Noop
    }
}

/// The handle of work that was given to the engine that does nothing: the
/// work never runs, so there is no engine-native handle and no result.
#[derive(Debug)]
pub struct NTask(TaskState);

impl NTask {
    /// The handle of work that was just spawned.
    pub fn new() -> (task: Self)
        ensures
            task.state() == TaskState::Running,
            task.handle() is None,
    {
        NTask(TaskState::Running)
    }

    /// Polls the work: it never resolves.
    pub fn pending<T>(&self) -> (polled: Poll<T>)
        ensures
            polled is Pending,
    {
        Poll::Pending
    }
}

impl TaskImpl for NTask {
    type Handle = ();

    closed spec fn state(&self) -> TaskState {
        self.0
    }

    open spec fn handle(&self) -> Option<()> {
        None
    }

    proof fn lemma_handle_only_while_running(&self) {
    }

    fn is_running(&self) -> (running: bool) {
        match self.0 {
            TaskState::Running => true,
            _ => false,
        }
    }

    fn handle_mut(&mut self) -> (handle: Option<&mut ()>) {
        None
    }

    fn poll<T>(&mut self, polled: Poll<T>) -> (seen: Poll<T>) {
        match polled {
            Poll::Ready(value) => {
                self.0 = TaskState::Completed;
                Poll::Ready(value)
            },
            Poll::Pending => Poll::Pending,
        }
    }

    fn cancel(&mut self) -> (release: Release<()>) {
        self.0 = TaskState::Canceled;
        Release::Nothing
    }

    fn detach(&mut self) -> (release: Release<()>) {
        self.0 = TaskState::Detached;
        Release::Nothing
    }
}

} // verus!
