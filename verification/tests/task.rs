use async_rs::util::task::{late_result, Release, Task, TaskImpl};
use async_rs::{NTask, Poll, STask, TTask};

#[test]
fn a_spawned_task_is_running() {
    assert!(STask::new(1u8).is_running());
    assert!(TTask::new(1u8).is_running());
    assert!(NTask::new().is_running());
    assert!(Task::new(STask::new(1u8)).is_running());
    assert!(Task::from(TTask::new(1u8)).is_running());
}

#[test]
fn cancel_gives_the_handle_up_for_abort() {
    let mut task = Task::new(STask::new("native"));
    assert_eq!(task.cancel(), Release::Cancel("native"));
    assert!(!task.is_running());
    assert_eq!(task.handle_mut(), None);

    let mut task = Task::new(TTask::new("native"));
    assert_eq!(task.cancel(), Release::Cancel("native"));
    assert!(!task.is_running());
    assert_eq!(task.handle_mut(), None);
}

#[test]
fn detach_gives_the_handle_up_to_run_on() {
    let mut task = Task::new(STask::new(7u32));
    assert_eq!(task.detach(), Release::Detach(7));
    assert!(!task.is_running());
    assert_eq!(task.handle_mut(), None);

    let mut task = Task::new(TTask::new(7u32));
    assert_eq!(task.detach(), Release::Detach(7));
    assert!(!task.is_running());
    assert_eq!(task.handle_mut(), None);
}

#[test]
fn a_task_without_engine_handle_releases_nothing() {
    let mut task = Task::new(NTask::new());
    assert_eq!(task.handle_mut(), None);
    assert_eq!(task.cancel(), Release::Nothing);
    assert!(!task.is_running());

    let mut task = Task::new(NTask::new());
    assert_eq!(task.detach(), Release::Nothing);
    assert!(!task.is_running());

    let mut task = Task::new(NTask::new());
    assert_eq!(task.on_drop(), Release::Nothing);
    assert!(!task.is_running());
}

#[test]
fn the_noop_task_never_resolves() {
    let task = NTask::new();
    assert_eq!(task.pending::<u32>(), Poll::Pending);
    assert_eq!(task.pending::<()>(), Poll::Pending);
    assert!(task.is_running());
}

#[test]
fn awaiting_ends_with_the_result() {
    let mut task = Task::new(STask::new(()));
    assert_eq!(task.poll(Poll::<u32>::Pending), Poll::Pending);
    assert!(task.is_running());
    assert!(task.handle_mut().is_some());
    assert_eq!(task.poll(Poll::Ready(30)), Poll::Ready(30));
    assert!(!task.is_running());
    assert_eq!(task.handle_mut(), None);
}

#[test]
fn the_handle_can_be_polled_in_place() {
    let mut task = Task::new(TTask::new(vec![1u8]));
    task.handle_mut().unwrap().push(2);
    assert_eq!(task.handle_mut(), Some(&mut vec![1u8, 2]));
    assert_eq!(task.detach(), Release::Detach(vec![1u8, 2]));
}

#[test]
fn joined_work_gives_its_value() {
    let mut task = TTask::new(());
    let pending: Poll<Result<u32, ()>> = Poll::Pending;
    assert_eq!(task.poll_join(pending), Poll::Pending);
    assert!(task.is_running());
    let ready: Poll<Result<u32, ()>> = Poll::Ready(Ok(12));
    assert_eq!(task.poll_join(ready), Poll::Ready(12));
    assert!(!task.is_running());
}

#[test]
fn dropping_a_running_task_detaches_it() {
    let mut dropped = Task::new(STask::new("work"));
    let mut detached = Task::new(STask::new("work"));
    assert_eq!(dropped.on_drop(), detached.detach());
    assert!(!dropped.is_running());

    let mut dropped = Task::new(TTask::new("work"));
    assert_eq!(dropped.on_drop(), Release::Detach("work"));
    assert!(!dropped.is_running());
}

#[test]
fn dropping_an_ended_task_asks_for_nothing() {
    let mut task = Task::new(STask::new(1u8));
    task.cancel();
    assert_eq!(task.on_drop(), Release::Nothing);

    let mut task = Task::new(STask::new(1u8));
    task.detach();
    assert_eq!(task.on_drop(), Release::Nothing);

    let mut task = Task::new(TTask::new(1u8));
    task.poll(Poll::Ready(()));
    assert_eq!(task.on_drop(), Release::Nothing);

    let mut task = Task::new(TTask::new(1u8));
    assert_eq!(task.on_drop(), Release::Detach(1));
    assert_eq!(task.on_drop(), Release::Nothing);
}

#[test]
fn dropped_work_still_counts() {
    // The engine runs what it is not told to cancel. A handle that is
    // dropped at once must leave the work with the engine, to be run.
    let mut counter = 0;
    let mut engine: Vec<u32> = Vec::new();
    let mut task = Task::new(STask::new(5u32));
    match task.on_drop() {
        Release::Detach(work) => engine.push(work),
        Release::Cancel(_) => {}
        Release::Nothing => {}
    }
    for work in engine {
        counter += work;
    }
    assert_eq!(counter, 5);
}

#[test]
fn a_cancel_keeps_a_late_result() {
    assert_eq!(late_result::<u32, &str>(Ok(3)), Some(3));
    assert_eq!(late_result::<u32, &str>(Err("aborted")), None);
}

#[test]
fn unwrapping_gives_the_engine_task_back() {
    let task = Task::new(NTask::new());
    let inner = task.into_inner();
    assert!(inner.is_running());
}
