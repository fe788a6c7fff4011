//! What the capabilities are built from.

pub mod addr;
pub mod block_on;
pub mod dummy;
pub mod future;
pub mod io;
pub mod runtime;
pub mod task;
pub mod tokio_context;
