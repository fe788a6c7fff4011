//! I/O objects that never make progress.

use crate::poll::Poll;
use core::marker::PhantomData;
use vstd::prelude::*;

verus! {

/// An I/O object on which every operation stays pending.
#[derive(Debug)]
pub struct DummyIO;

impl DummyIO {
    /// Polls a read: it never resolves.
    pub fn poll_read<E>(&mut self) -> (polled: Poll<Result<usize, E>>)
        ensures
            polled is Pending,
    {
        Poll::Pending
    }

    /// Polls a write: it never resolves.
    pub fn poll_write<E>(&mut self) -> (polled: Poll<Result<usize, E>>)
        ensures
            polled is Pending,
    {
        Poll::Pending
    }

    /// Polls a flush: it never resolves.
    pub fn poll_flush<E>(&mut self) -> (polled: Poll<Result<(), E>>)
        ensures
            polled is Pending,
    {
        Poll::Pending
    }

    /// Polls a close: it never resolves.
    pub fn poll_close<E>(&mut self) -> (polled: Poll<Result<(), E>>)
        ensures
            polled is Pending,
    {
        Poll::Pending
    }
}

/// A stream that never yields.
#[derive(Debug)]
pub struct DummyStream<T>(pub PhantomData<T>);

impl<T> DummyStream<T> {
    /// Polls the next item: there never is one, and the stream never ends.
    pub fn poll_next(&mut self) -> (polled: Poll<Option<T>>)
        ensures
            polled is Pending,
    {
        Poll::Pending
    }
}

} // verus!
