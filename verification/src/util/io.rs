//! A blocking I/O handle on its way into a reactor.

use vstd::prelude::*;

verus! {

/// A synchronous I/O handle. Every operation on it is the operation of the
/// handle inside.
pub struct IOHandle<H>(H);

impl<H> IOHandle<H> {
    /// The handle inside.
    pub closed spec fn inner(&self) -> H {
        self.0
    }

    /// Wraps a synchronous handle.
    pub fn new(io: H) -> (handle: Self)
        ensures
            handle.inner() == io,
    {
        Self(io)
    }

    /// The handle inside.
    pub fn get_ref(&self) -> (io: &H)
        ensures
            *io == self.inner(),
    {
        &self.0
    }

    /// The handle inside, mutably.
    pub fn get_mut(&mut self) -> (io: &mut H)
        ensures
            *io == old(self).inner(),
            final(self).inner() == *final(io),
    {
        &mut self.0
    }

    /// Unwraps the handle.
    pub fn into_inner(self) -> (io: H)
        ensures
            io == self.inner(),
    {
        self.0
    }
}

} // verus!
