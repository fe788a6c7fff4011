//! The thread-pool engine, and the choice of the handle that reaches it.
//!
//! A binding may own a runtime, hold a handle that it was given, both or
//! neither, and the caller may or may not be inside a context of the engine.
//! Which of them a call goes through is decided here.

use crate::poll::Poll;
use crate::runtime::Runtime;
use crate::traits::executor::{Ambient, Entry, Executor, HandleSource, Route};
use crate::traits::reactor::{Reactor, RegisterError};
use crate::util::task::{Lifecycle, Release, TaskImpl, TaskState};
use vstd::prelude::*;

verus! {

/// A runtime on the thread-pool engine. `H` is the engine's handle to an
/// execution context, `R` the owned runtime.
pub type TokioRuntime<H, R> = Runtime<Tokio<H, R>>;

impl<H: core::fmt::Debug, R: core::fmt::Debug> TokioRuntime<H, R> {
    /// A runtime bound to an engine runtime that was just created for it,
    /// given with its handle; the failure to create one is passed on.
    pub fn tokio<E>(created: Result<(R, H), E>) -> (runtime: Result<Self, E>)
        ensures
            match created {
                Ok((rt, handle)) => runtime is Ok && runtime->Ok_0.kit().owned_runtime() == Some(rt)
                    && runtime->Ok_0.kit().stored_handle() == Some(handle),
                Err(e) => runtime == Err::<Self, E>(e),
            },
    {
        match created {
            Ok((rt, handle)) => Ok(Self::tokio_with_runtime(rt, handle)),
            Err(e) => Err(e),
        }
    }

    /// A runtime bound to the context that the caller is in, given by its
    /// handle.
    pub fn tokio_current(current: H) -> (runtime: Self)
        ensures
            runtime.kit().stored_handle() == Some(current),
            runtime.kit().owned_runtime() is None,
    {
        Self::new(Tokio::current(current))
    }

    /// A runtime bound to the engine runtime that the handle belongs to.
    pub fn tokio_with_handle(handle: H) -> (runtime: Self)
        ensures
            runtime.kit().stored_handle() == Some(handle),
            runtime.kit().owned_runtime() is None,
    {
        Self::new(Tokio::default().with_handle(handle))
    }

    /// A runtime bound to an engine runtime that it owns from now on, given
    /// with its handle.
    pub fn tokio_with_runtime(runtime: R, handle: H) -> (bound: Self)
        ensures
            bound.kit().owned_runtime() == Some(runtime),
            bound.kit().stored_handle() == Some(handle),
    {
        Self::new(Tokio::default().with_runtime(runtime, handle))
    }
}

/// The binding to the thread-pool engine.
#[derive(Clone, Debug)]
pub struct Tokio<H, R> {
    handle: Option<H>,
    runtime: Option<R>,
}

impl<H, R> Default for Tokio<H, R> {
    fn default() -> (binding: Self)
        ensures
            binding.stored_handle() is None,
            binding.owned_runtime() is None,
    {
        Tokio { handle: None, runtime: None }
    }
}

/// The handle that a spawn goes through: that of the owned runtime first,
/// then that of the caller's context, then the stored one.
pub open spec fn handle_source(owns_runtime: bool, inside: bool, has_handle: bool) -> Option<
    HandleSource,
> {
    if owns_runtime {
        Some(HandleSource::Runtime)
    } else if inside {
        Some(HandleSource::Current)
    } else if has_handle {
        Some(HandleSource::Stored)
    } else {
        None
    }
}

/// The handle whose context is entered around a reactor call: that of the
/// owned runtime first, then the stored one. The caller's own context is
/// never entered: the caller is in it already.
pub open spec fn enter_source(owns_runtime: bool, has_handle: bool) -> Option<HandleSource> {
    if owns_runtime {
        Some(HandleSource::Runtime)
    } else if has_handle {
        Some(HandleSource::Stored)
    } else {
        None
    }
}

/// How a call reaches the engine through an optional handle: through the
/// handle when there is one, through the caller's context otherwise.
pub open spec fn entry_through(source: Option<HandleSource>) -> Entry {
    match source {
        Some(source) => Entry::Handle(source),
        None => Entry::Ambient,
    }
}

impl<H, R> Tokio<H, R> {
    /// The handle that the binding was given.
    pub closed spec fn stored_handle(&self) -> Option<H> {
        self.handle
    }

    /// The runtime that the binding owns.
    pub closed spec fn owned_runtime(&self) -> Option<R> {
        self.runtime
    }

    /// Binds to the engine runtime that the handle belongs to.
    pub fn with_handle(self, handle: H) -> (binding: Self)
        ensures
            binding.stored_handle() == Some(handle),
            binding.owned_runtime() == self.owned_runtime(),
    {
        let mut binding = self;
        binding.handle = Some(handle);
        binding
    }

    /// Binds to an engine runtime that the binding owns from now on, and to
    /// its handle.
    pub fn with_runtime(self, runtime: R, handle: H) -> (binding: Self)
        ensures
            binding.owned_runtime() == Some(runtime),
            binding.stored_handle() == Some(handle),
    {
        let mut binding = self;
        binding.runtime = Some(runtime);
        binding.with_handle(handle)
    }

    /// Binds to the context that the caller is in, given by its handle.
    pub fn current(current: H) -> (binding: Self)
        ensures
            binding.stored_handle() == Some(current),
            binding.owned_runtime() is None,
    {
        Self::default().with_handle(current)
    }

    /// The handle that the binding was given.
    pub fn get_handle(&self) -> (handle: Option<&H>)
        ensures
            handle is Some <==> self.stored_handle() is Some,
            handle is Some ==> *handle->0 == self.stored_handle()->0,
    {
        self.handle.as_ref()
    }

    /// The runtime that the binding owns.
    pub fn get_runtime(&self) -> (runtime: Option<&R>)
        ensures
            runtime is Some <==> self.owned_runtime() is Some,
            runtime is Some ==> *runtime->0 == self.owned_runtime()->0,
    {
        self.runtime.as_ref()
    }

    /// The handle that a spawn goes through, `None` when the binding has
    /// none and the caller is in no context.
    pub fn handle(&self, ambient: Ambient) -> (source: Option<HandleSource>)
        ensures
            source == handle_source(
                self.owned_runtime() is Some,
                ambient.inside_tokio,
                self.stored_handle() is Some,
            ),
    {
        if self.runtime.is_some() {
            Some(HandleSource::Runtime)
        } else if ambient.inside_tokio {
            Some(HandleSource::Current)
        } else if self.handle.is_some() {
            Some(HandleSource::Stored)
        } else {
            None
        }
    }

    /// The handle whose context is entered around a reactor call, `None`
    /// when the binding has none.
    pub fn enter(&self) -> (source: Option<HandleSource>)
        ensures
            source == enter_source(self.owned_runtime() is Some, self.stored_handle() is Some),
    {
        if self.runtime.is_some() {
            Some(HandleSource::Runtime)
        } else if self.handle.is_some() {
            Some(HandleSource::Stored)
        } else {
            None
        }
    }

    fn entered(&self) -> (route: Route)
        ensures
            route == Route::Tokio(
                entry_through(
                    enter_source(self.owned_runtime() is Some, self.stored_handle() is Some),
                ),
            ),
    {
        match self.enter() {
            Some(source) => Route::Tokio(Entry::Handle(source)),
            None => Route::Tokio(Entry::Ambient),
        }
    }

    fn spawned(&self, ambient: Ambient) -> (route: Route)
        ensures
            route == Route::Tokio(
                entry_through(
                    handle_source(
                        self.owned_runtime() is Some,
                        ambient.inside_tokio,
                        self.stored_handle() is Some,
                    ),
                ),
            ),
    {
        match self.handle(ambient) {
            Some(source) => Route::Tokio(Entry::Handle(source)),
            None => Route::Tokio(Entry::Ambient),
        }
    }
}

impl<H, R> Executor for Tokio<H, R> {
    /// The owned runtime blocks itself; without one the operation is blocked
    /// on through the handle that a spawn would take.
    open spec fn block_on_route(&self, ambient: Ambient) -> Route {
        if self.owned_runtime() is Some {
            Route::Tokio(Entry::Runtime)
        } else {
            Route::Tokio(
                entry_through(
                    handle_source(false, ambient.inside_tokio, self.stored_handle() is Some),
                ),
            )
        }
    }

    open spec fn spawn_route(&self, ambient: Ambient) -> Route {
        Route::Tokio(
            entry_through(
                handle_source(
                    self.owned_runtime() is Some,
                    ambient.inside_tokio,
                    self.stored_handle() is Some,
                ),
            ),
        )
    }

    open spec fn spawn_blocking_route(&self, ambient: Ambient) -> Route {
        self.spawn_route(ambient)
    }

    fn block_on(&self, ambient: Ambient) -> (route: Route) {
        if self.runtime.is_some() {
            Route::Tokio(Entry::Runtime)
        } else {
            self.spawned(ambient)
        }
    }

    fn spawn(&self, ambient: Ambient) -> (route: Route) {
        self.spawned(ambient)
    }

    fn spawn_blocking(&self, ambient: Ambient) -> (route: Route) {
        self.spawned(ambient)
    }
}

impl<H, R> Reactor for Tokio<H, R> {
    /// Descriptors are registered on unix systems only.
    open spec fn register_route(&self, ambient: Ambient) -> Result<Route, RegisterError> {
        if ambient.unix {
            Ok(self.sleep_route(ambient))
        } else {
            Err(RegisterError::Unsupported)
        }
    }

    open spec fn sleep_route(&self, ambient: Ambient) -> Route {
        Route::Tokio(
            entry_through(
                enter_source(self.owned_runtime() is Some, self.stored_handle() is Some),
            ),
        )
    }

    open spec fn interval_route(&self, ambient: Ambient) -> Route {
        self.sleep_route(ambient)
    }

    open spec fn tcp_connect_addr_route(&self, ambient: Ambient) -> Route {
        self.sleep_route(ambient)
    }

    fn register(&self, ambient: Ambient) -> (route: Result<Route, RegisterError>) {
        let route = self.entered();
        if ambient.unix {
            Ok(route)
        } else {
            Err(RegisterError::Unsupported)
        }
    }

    fn sleep(&self, ambient: Ambient) -> (route: Route) {
        self.entered()
    }

    fn interval(&self, ambient: Ambient) -> (route: Route) {
        self.entered()
    }

    fn tcp_connect_addr(&self, ambient: Ambient) -> (route: Route) {
        self.entered()
    }
}

/// The handle of work on an engine whose native handles let the work run on
/// when they are dropped, and report a failure to join when the work was
/// aborted or panicked.
#[derive(Debug)]
pub struct TTask<H>(Lifecycle<H>);

impl<H> TTask<H> {
    /// What the handle holds.
    pub closed spec fn lifecycle(&self) -> Lifecycle<H> {
        self.0
    }

    /// The handle of work that was just spawned.
    pub fn new(handle: H) -> (task: Self)
        ensures
            task.lifecycle() == Lifecycle::Running(handle),
    {
        TTask(Lifecycle::Running(handle))
    }


    /// Takes what one poll of the engine-native handle gave, for work that
    /// was joined if it resolved.
    pub fn poll_join<T, E>(&mut self, polled: Poll<Result<T, E>>) -> (seen: Poll<T>)
        requires
            old(self).lifecycle() is Running,
            !(polled matches Poll::Ready(Err(_))),
        ensures
            seen == match polled {
                Poll::Ready(Ok(value)) => Poll::Ready(value),
                _ => Poll::Pending,
            },
            polled is Pending ==> final(self).lifecycle() == old(self).lifecycle(),
            polled is Ready ==> final(self).lifecycle() == Lifecycle::<H>::Completed,
    {
        match polled {
            Poll::Ready(Ok(value)) => self.poll(Poll::Ready(value)),
            _ => Poll::Pending,
        }
    }
}

impl<H> TaskImpl for TTask<H> {
    type Handle = H;

    open spec fn state(&self) -> TaskState {
        self.lifecycle().state()
    }

    open spec fn handle(&self) -> Option<H> {
        self.lifecycle().handle()
    }

    proof fn lemma_handle_only_while_running(&self) {
    }

    fn is_running(&self) -> (running: bool) {
        match self.0 {
            Lifecycle::Running(_) => true,
            _ => false,
        }
    }

    fn handle_mut(&mut self) -> (handle: Option<&mut H>) {
        match &mut self.0 {
            Lifecycle::Running(h) => Some(h),
            _ => None,
        }
    }

    fn poll<T>(&mut self, polled: Poll<T>) -> (seen: Poll<T>) {
        match polled {
            Poll::Ready(value) => {
                self.0 = Lifecycle::Completed;
                Poll::Ready(value)
            },
            Poll::Pending => Poll::Pending,
        }
    }

    fn cancel(&mut self) -> (release: Release<H>) {
        let mut taken = Lifecycle::Canceled;
        core::mem::swap(&mut self.0, &mut taken);
        match taken {
            Lifecycle::Running(h) => Release::Cancel(h),
            _ => Release::Nothing,
        }
    }

    fn detach(&mut self) -> (release: Release<H>) {
        let mut taken = Lifecycle::Detached;
        core::mem::swap(&mut self.0, &mut taken);
        match taken {
            Lifecycle::Running(h) => Release::Detach(h),
            _ => Release::Nothing,
        }
    }
}

} // verus!
