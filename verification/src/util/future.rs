//! Operations whose result is not wanted.

use crate::poll::Poll;
use vstd::prelude::*;

verus! {

/// An operation whose output is discarded: it resolves when the inner one
/// does, to nothing.
pub struct UnitFuture<F>(pub F);

impl<F> UnitFuture<F> {
    /// Takes what one poll of the inner operation gave, and drops its output.
    pub fn poll<T>(&mut self, polled: Poll<T>) -> (seen: Poll<()>)
        ensures
            polled is Pending <==> seen is Pending,
            *final(self) == *old(self),
    {
        match polled {
            Poll::Ready(_) => Poll::Ready(()),
            Poll::Pending => Poll::Pending,
        }
    }
}

} // verus!
