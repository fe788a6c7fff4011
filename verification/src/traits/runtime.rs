//! What makes a complete runtime.

use crate::traits::executor::Executor;
use crate::traits::reactor::Reactor;
use vstd::prelude::*;

verus! {

/// A value that provides both capabilities. It has no operation of its own,
/// and whatever has both capabilities is one.
pub trait RuntimeKit: Executor + Reactor + core::fmt::Debug {

}

impl<K: Executor + Reactor + core::fmt::Debug> RuntimeKit for K {

}

} // verus!
