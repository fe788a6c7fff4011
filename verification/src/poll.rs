//! The outcome of polling a suspension-capable operation.

use vstd::prelude::*;

verus! {

/// Whether an operation has resolved yet.
#[derive(Debug, PartialEq, Eq)]
pub enum Poll<T> {
    /// The operation resolved with this value.
    Ready(T),
    /// The operation has not resolved; the caller is woken when it may have.
    Pending,
}

impl<T> Poll<T> {
    /// True when the operation has resolved.
    pub fn is_ready(&self) -> (b: bool)
        ensures
            b == (*self is Ready),
    {
        match self {
            Poll::Ready(_) => true,
            Poll::Pending => false,
        }
    }

    /// True when the operation has not resolved.
    pub fn is_pending(&self) -> (b: bool)
        ensures
            b == (*self is Pending),
    {
        match self {
            Poll::Ready(_) => false,
            Poll::Pending => true,
        }
    }
}

} // verus!
