//! The lifecycle of a task handle.
//!
//! A handle observes one unit of work that an engine runs. It is awaited,
//! canceled or detached exactly once; after that it holds nothing and can be
//! neither awaited nor ended again. Losing a handle never stops the work.

use crate::poll::Poll;
use vstd::prelude::*;

verus! {

/// Where a task handle is in its life.
#[derive(Debug, Clone, Copy, PartialEq, Eq, Structural)]
pub enum TaskState {
    /// The work is under observation.
    Running,
    /// The work was awaited to its result.
    Completed,
    /// An abort of the work was requested.
    Canceled,
    /// The work was released to run to completion unobserved.
    Detached,
}

/// What an engine-specific handle holds at each point of its life.
#[derive(Debug, PartialEq, Eq)]
pub enum Lifecycle<H> {
    /// The work is under observation through this engine-native handle.
    Running(H),
    /// The work was awaited to its result.
    Completed,
    /// An abort of the work was requested.
    Canceled,
    /// The work was released to run to completion unobserved.
    Detached,
}

impl<H> Lifecycle<H> {
    /// The state, without the handle.
    pub open spec fn state(self) -> TaskState {
        match self {
            Lifecycle::Running(_) => TaskState::Running,
            Lifecycle::Completed => TaskState::Completed,
            Lifecycle::Canceled => TaskState::Canceled,
            Lifecycle::Detached => TaskState::Detached,
        }
    }

    /// The engine-native handle, while there is one.
    pub open spec fn handle(self) -> Option<H> {
        match self {
            Lifecycle::Running(h) => Some(h),
            _ => None,
        }
    }
}

/// What the engine has to do with a handle that a task gave up.
#[derive(Debug, PartialEq, Eq)]
pub enum Release<H> {
    /// Nothing: the task held no engine-native handle.
    Nothing,
    /// Abort the work, wait for it to stop, and keep a result that it
    /// produced before the abort took effect.
    Cancel(H),
    /// Let the work run to completion with nobody observing it.
    Detach(H),
}

/// The release that a cancel asks for.
pub open spec fn cancel_release<H>(handle: Option<H>) -> Release<H> {
    match handle {
        Some(h) => Release::Cancel(h),
        None => Release::Nothing,
    }
}

/// The release that a detach asks for.
pub open spec fn detach_release<H>(handle: Option<H>) -> Release<H> {
    match handle {
        Some(h) => Release::Detach(h),
        None => Release::Nothing,
    }
}

/// The handle of one engine, under the contract that is the same for all.
pub trait TaskImpl {
    /// The engine-native handle.
    type Handle;

    /// Where the handle is in its life.
    spec fn state(&self) -> TaskState;

    /// The engine-native handle, while the task holds one.
    spec fn handle(&self) -> Option<Self::Handle>;

    /// A task holds an engine-native handle only while it is running.
    proof fn lemma_handle_only_while_running(&self)
        ensures
            self.handle() is Some ==> self.state() == TaskState::Running,
    ;

    /// True while the work is under observation.
    fn is_running(&self) -> (running: bool)
        ensures
            running == (self.state() == TaskState::Running),
    ;

    /// The engine-native handle to poll, `None` when the task holds none:
    /// a task that has ended cannot be awaited.
    fn handle_mut(&mut self) -> (handle: Option<&mut Self::Handle>)
        ensures
            final(self).state() == old(self).state(),
            match old(self).handle() {
                Some(h) => handle is Some && *handle->0 == h
                    && final(self).handle() == Some(*final(handle->0)),
                None => handle is None && final(self).handle() is None,
            },
    ;

    /// Takes what one poll of the engine-native handle gave. A result ends
    /// the observation; without one nothing changes.
    fn poll<T>(&mut self, polled: Poll<T>) -> (seen: Poll<T>) where Self: Sized
        requires
            old(self).state() == TaskState::Running,
        ensures
            seen == polled,
            polled is Pending ==> final(self).state() == TaskState::Running && final(self).handle()
                == old(self).handle(),
            polled is Ready ==> final(self).state() == TaskState::Completed && final(self).handle()
                is None,
    ;

    /// Ends the observation by asking for the work to be aborted.
    fn cancel(&mut self) -> (release: Release<Self::Handle>)
        requires
            old(self).state() == TaskState::Running,
        ensures
            final(self).state() == TaskState::Canceled,
            final(self).handle() is None,
            release == cancel_release(old(self).handle()),
    ;

    /// Ends the observation and lets the work run on.
    fn detach(&mut self) -> (release: Release<Self::Handle>)
        requires
            old(self).state() == TaskState::Running,
        ensures
            final(self).state() == TaskState::Detached,
            final(self).handle() is None,
            release == detach_release(old(self).handle()),
    ;
}

/// A task handle, whichever engine runs the work.
#[derive(Debug)]
pub struct Task<I: TaskImpl>(I);

impl<I: TaskImpl> Task<I> {
    /// The engine-specific handle that is wrapped.
    pub closed spec fn inner(&self) -> I {
        self.0
    }

    /// Where the handle is in its life.
    pub open spec fn state(&self) -> TaskState {
        self.inner().state()
    }

    /// The engine-native handle, while the task holds one.
    pub open spec fn handle(&self) -> Option<I::Handle> {
        self.inner().handle()
    }

    /// What dropping the handle asks of the engine: a running task is
    /// detached, and a task that ended before asks for nothing.
    pub open spec fn drop_release(&self) -> Release<I::Handle> {
        if self.state() == TaskState::Running {
            detach_release(self.handle())
        } else {
            Release::Nothing
        }
    }

    /// Wraps the handle of one engine.
    pub fn new(task_impl: I) -> (task: Self)
        ensures
            task.inner() == task_impl,
    {
        Task(task_impl)
    }

    /// True while the work is under observation: only then can the task be
    /// awaited, canceled or detached.
    pub fn is_running(&self) -> (running: bool)
        ensures
            running == (self.state() == TaskState::Running),
    {
        self.0.is_running()
    }

    /// The engine-native handle to poll, `None` when the task holds none:
    /// a task that has ended cannot be awaited.
    pub fn handle_mut(&mut self) -> (handle: Option<&mut I::Handle>)
        ensures
            final(self).state() == old(self).state(),
            match old(self).handle() {
                Some(h) => handle is Some && *handle->0 == h
                    && final(self).handle() == Some(*final(handle->0)),
                None => handle is None && final(self).handle() is None,
            },
    {
        self.0.handle_mut()
    }

    /// Takes what one poll of the engine-native handle gave.
    pub fn poll<T>(&mut self, polled: Poll<T>) -> (seen: Poll<T>)
        requires
            old(self).state() == TaskState::Running,
        ensures
            seen == polled,
            polled is Pending ==> final(self).state() == TaskState::Running && final(self).handle()
                == old(self).handle(),
            polled is Ready ==> final(self).state() == TaskState::Completed && final(self).handle()
                is None,
    {
        self.0.poll(polled)
    }

    /// Cancels the task: the engine is asked to abort the work.
    pub fn cancel(&mut self) -> (release: Release<I::Handle>)
        requires
            old(self).state() == TaskState::Running,
        ensures
            final(self).state() == TaskState::Canceled,
            final(self).handle() is None,
            release == cancel_release(old(self).handle()),
    {
        self.0.cancel()
    }

    /// Detaches the task: the work runs on with nobody observing it.
    pub fn detach(&mut self) -> (release: Release<I::Handle>)
        requires
            old(self).state() == TaskState::Running,
        ensures
            final(self).state() == TaskState::Detached,
            final(self).handle() is None,
            release == detach_release(old(self).handle()),
    {
        self.0.detach()
    }

    /// What is to happen when the handle is dropped. A task that is still
    /// running is detached, never canceled; one that ended before is left as
    /// it is.
    pub fn on_drop(&mut self) -> (release: Release<I::Handle>)
        ensures
            release == old(self).drop_release(),
            !(release is Cancel),
            final(self).state() != TaskState::Running,
            final(self).handle() is None,
            old(self).state() == TaskState::Running ==> final(self).state() == TaskState::Detached,
            old(self).state() != TaskState::Running ==> final(self).state() == old(self).state(),
    {
        proof {
            self.0.lemma_handle_only_while_running();
        }
        if self.0.is_running() {
            self.0.detach()
        } else {
            Release::Nothing
        }
    }

    /// Unwraps the handle of the engine.
    pub fn into_inner(self) -> (task_impl: I)
        ensures
            task_impl == self.inner(),
    {
        self.0
    }
}

impl<I: TaskImpl> From<I> for Task<I> {
    fn from(task_impl: I) -> (task: Self)
        ensures
            task.inner() == task_impl,
    {
        Task(task_impl)
    }
}

impl<I: TaskImpl> vstd::std_specs::convert::FromSpecImpl<I> for Task<I> {
    open spec fn obeys_from_spec() -> bool {
        true
    }

    closed spec fn from_spec(task_impl: I) -> Self {
        Task(task_impl)
    }
}

/// What a cancel gives once the engine has stopped the work: the result when
/// the work finished before the abort took effect, nothing otherwise.
pub fn late_result<T, E>(stopped: Result<T, E>) -> (result: Option<T>)
    ensures
        result == match stopped {
            Ok(value) => Some(value),
            Err(_) => None,
        },
{
    match stopped {
        Ok(value) => Some(value),
        Err(_) => None,
    }
}

/// A task that is no longer running holds no engine-native handle: once
/// it was canceled or detached there is nothing left to poll, so an attempt
/// to await it finds no handle at once.
pub proof fn lemma_ended_task_cannot_be_awaited<I: TaskImpl>(task: Task<I>)
    requires
        task.state() != TaskState::Running,
    ensures
        task.handle() is None,
{
    task.inner().lemma_handle_only_while_running();
}

/// Dropping a running task asks of the engine exactly what detaching it
/// asks, and never a cancel: the work is not stopped because its handle
/// was lost.
pub proof fn lemma_drop_is_detach<I: TaskImpl>(task: Task<I>)
    requires
        task.state() == TaskState::Running,
    ensures
        task.drop_release() == detach_release(task.handle()),
        !(task.drop_release() is Cancel),
{
}

} // verus!
