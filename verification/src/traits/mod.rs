//! The capabilities that an engine provides, and how they are passed on.

pub mod addr;
pub mod executor;
pub mod reactor;
pub mod runtime;
