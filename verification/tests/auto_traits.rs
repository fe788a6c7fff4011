use async_rs::{AGERuntime, NoopRuntime, SmolRuntime, TokioRuntime};
use std::sync::Arc;

fn assert_send<T: Send>(_t: T) {}

fn assert_sync<T: Sync>(_t: T) {}

fn assert_clone<T: Clone>(_t: T) {}

#[test]
fn noop_auto_traits() {
    let runtime = NoopRuntime::noop();
    assert_send(&runtime);
    assert_sync(&runtime);
    assert_clone(&runtime);
}

#[test]
fn smol_auto_traits() {
    let runtime = SmolRuntime::smol();
    assert_send(&runtime);
    assert_sync(&runtime);
    assert_clone(&runtime);
}

#[test]
fn tokio_auto_traits() {
    let created = tokio::runtime::Runtime::new().map(|runtime| {
        let handle = runtime.handle().clone();
        (Arc::new(runtime), handle)
    });
    let runtime = TokioRuntime::tokio(created).unwrap();
    assert_send(&runtime);
    assert_sync(&runtime);
    assert_clone(&runtime);
}

#[test]
fn async_global_executor_auto_traits() {
    let runtime = AGERuntime::async_global_executor();
    assert_send(&runtime);
    assert_sync(&runtime);
    assert_clone(&runtime);
}
