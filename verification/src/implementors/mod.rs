//! Models of the engine bindings.

pub mod async_fd;
pub mod async_global_executor;
pub mod async_io;
pub mod hickory;
pub mod noop;
pub mod smol;
pub mod tokio_engine;
