//! The verified decision core of an async runtime portability layer.
//!
//! Engines (thread pools, reactors, resolvers) do the work and live outside
//! this crate. What is decided here is which engine entry point a capability
//! call is routed to, how a task handle moves through its lifecycle, when a
//! readiness adapter attempts an operation and when it suspends, and in which
//! order candidate addresses are tried. Every function takes what the outside
//! world answered as a plain value and states in its contract what follows.

pub mod implementors;
pub mod poll;
pub mod runtime;
pub mod sys;
pub mod traits;
pub mod util;

pub use implementors::async_global_executor::{AGERuntime, AsyncGlobalExecutor};
pub use implementors::async_io::AsyncIO;
pub use implementors::noop::{NTask, Noop, NoopRuntime};
pub use implementors::smol::{STask, Smol, SmolRuntime};
pub use implementors::tokio_engine::{TTask, Tokio, TokioRuntime};
pub use poll::Poll;
pub use runtime::Runtime;
