//! Telling whether a call is made from inside the thread-pool engine.

use crate::traits::executor::Ambient;
use vstd::prelude::*;

verus! {

/// The handle to an execution context of the thread-pool engine.
#[verifier::external_type_specification]
#[verifier::external_body]
pub struct ExHandle(tokio::runtime::Handle);

/// The failure to find an execution context around the caller.
#[verifier::external_type_specification]
#[verifier::external_body]
pub struct ExTryCurrentError(tokio::runtime::TryCurrentError);

/// Calls `tokio::runtime::Handle::try_current`, which gives the handle of the
/// context that the calling thread is in, or the failure to find one. It
/// never panics. What it gives depends on the calling thread, so nothing is
/// claimed of the result.
#[verifier::external_body]
fn try_current() -> (current: Result<tokio::runtime::Handle, tokio::runtime::TryCurrentError>) {
    tokio::runtime::Handle::try_current()
}

/// The context in which an operation is blocked on.
#[derive(Debug, PartialEq, Eq)]
pub enum TokioContext<H> {
    /// The context that the caller is in, through its handle.
    Current(H),
    /// A runtime of its own, made for the one operation.
    Fresh,
}

/// Whether the search for the context of the caller found one.
pub fn found<H, E>(current: &Result<H, E>) -> (inside: bool)
    ensures
        inside == (*current is Ok),
{
    current.is_ok()
}

/// Where to block on an operation, given what the search for the context of
/// the caller found: in that context when there is one, in a fresh runtime
/// otherwise.
pub fn context_for<H, E>(current: Result<H, E>) -> (context: TokioContext<H>)
    ensures
        context == match current {
            Ok(handle) => TokioContext::Current(handle),
            Err(_) => TokioContext::Fresh,
        },
{
    match current {
        Ok(handle) => TokioContext::Current(handle),
        Err(_) => TokioContext::Fresh,
    }
}

/// Whether the caller is inside a context of the engine.
pub fn inside_tokio() -> bool {
    let current = try_current();
    found(&current)
}

/// What is known of the place of the call, on a system that is a unix system
/// or not: whether the caller is inside a context of the engine is found out
/// here.
pub fn ambient(unix: bool) -> (here: Ambient)
    ensures
        here.unix == unix,
{
    Ambient { inside_tokio: inside_tokio(), unix }
}

/// Where to block on an operation that needs the engine: in the context of
/// the caller when it is in one, in a fresh runtime otherwise.
pub fn block_on_tokio() -> TokioContext<tokio::runtime::Handle> {
    context_for(try_current())
}

} // verus!
