use async_rs::implementors::async_fd::{
    AsyncFdWrapper, Attempt, Direction, Next, Pass, ReadyPoll, Readiness,
};
use async_rs::Poll;

type Io = Result<usize, &'static str>;

#[test]
fn new_adapter_knows_nothing() {
    let adapter = AsyncFdWrapper::new(7u32);
    assert_eq!(adapter.readiness(Direction::Read), Readiness::Unknown);
    assert_eq!(adapter.readiness(Direction::Write), Readiness::Unknown);
    assert_eq!(*adapter.get_ref(), 7);
    assert_eq!(adapter.into_inner(), 7);
}

#[test]
fn get_mut_reaches_the_descriptor_only() {
    let mut adapter = AsyncFdWrapper::new(vec![1u8]);
    adapter.on_readiness::<()>(Direction::Read, ReadyPoll::Ready);
    adapter.get_mut().push(2);
    assert_eq!(adapter.get_ref(), &vec![1u8, 2]);
    assert_eq!(adapter.readiness(Direction::Read), Readiness::Ready);
    assert_eq!(adapter.readiness(Direction::Write), Readiness::Unknown);
}

#[test]
fn readiness_answers() {
    let mut adapter = AsyncFdWrapper::new(());
    assert_eq!(adapter.on_readiness::<&str>(Direction::Read, ReadyPoll::Pending), Next::Suspend);
    assert_eq!(adapter.readiness(Direction::Read), Readiness::AwaitingNotification);
    assert_eq!(adapter.on_readiness::<&str>(Direction::Read, ReadyPoll::Ready), Next::Attempt);
    assert_eq!(adapter.readiness(Direction::Read), Readiness::Ready);
    assert_eq!(
        adapter.on_readiness(Direction::Read, ReadyPoll::Failed("gone")),
        Next::Fail("gone")
    );
    assert_eq!(adapter.readiness(Direction::Read), Readiness::Ready);
    assert_eq!(adapter.readiness(Direction::Write), Readiness::Unknown);
}

#[test]
fn attempt_uses_readiness_up() {
    let mut adapter = AsyncFdWrapper::new(());
    adapter.on_readiness::<&str>(Direction::Write, ReadyPoll::Ready);
    let surfaced: Option<Io> = adapter.on_attempt(Direction::Write, Attempt::WouldBlock);
    assert_eq!(surfaced, None);
    assert_eq!(adapter.readiness(Direction::Write), Readiness::AwaitingNotification);

    adapter.on_readiness::<&str>(Direction::Write, ReadyPoll::Ready);
    let surfaced: Option<Io> = adapter.on_attempt(Direction::Write, Attempt::Done(Ok(5)));
    assert_eq!(surfaced, Some(Ok(5)));
    assert_eq!(adapter.readiness(Direction::Write), Readiness::AwaitingNotification);

    adapter.on_readiness::<&str>(Direction::Write, ReadyPoll::Ready);
    let surfaced: Option<Io> = adapter.on_attempt(Direction::Write, Attempt::Done(Err("reset")));
    assert_eq!(surfaced, Some(Err("reset")));
    assert_eq!(adapter.readiness(Direction::Write), Readiness::AwaitingNotification);
    assert_eq!(adapter.readiness(Direction::Read), Readiness::Unknown);
}

#[test]
fn one_pass_of_a_read() {
    let mut adapter = AsyncFdWrapper::new(());
    let polled: Option<Poll<Io>> = adapter.read(Pass::NotReady);
    assert_eq!(polled, Some(Poll::Pending));
    assert_eq!(adapter.readiness(Direction::Read), Readiness::AwaitingNotification);

    let polled: Option<Poll<Io>> = adapter.read(Pass::Failed("poll failed"));
    assert_eq!(polled, Some(Poll::Ready(Err("poll failed"))));

    let polled: Option<Poll<Io>> = adapter.read(Pass::Attempted(Attempt::WouldBlock));
    assert_eq!(polled, None);
    assert_eq!(adapter.readiness(Direction::Read), Readiness::AwaitingNotification);

    let polled: Option<Poll<Io>> = adapter.read(Pass::Attempted(Attempt::Done(Ok(3))));
    assert_eq!(polled, Some(Poll::Ready(Ok(3))));
    assert_eq!(adapter.readiness(Direction::Write), Readiness::Unknown);
}

#[test]
fn one_pass_of_a_write() {
    let mut adapter = AsyncFdWrapper::new(());
    let polled: Option<Poll<Io>> = adapter.write(Pass::Attempted(Attempt::Done(Ok(13))));
    assert_eq!(polled, Some(Poll::Ready(Ok(13))));
    assert_eq!(adapter.readiness(Direction::Write), Readiness::AwaitingNotification);
    assert_eq!(adapter.readiness(Direction::Read), Readiness::Unknown);
    let polled: Option<Poll<Io>> = adapter.pass(Direction::Write, Pass::NotReady);
    assert_eq!(polled, Some(Poll::Pending));
}

#[test]
fn failed_readiness_leaves_the_slot() {
    let mut adapter = AsyncFdWrapper::new(());
    let polled: Option<Poll<Io>> = adapter.read(Pass::Failed("nope"));
    assert_eq!(polled, Some(Poll::Ready(Err("nope"))));
    assert_eq!(adapter.readiness(Direction::Read), Readiness::Unknown);
}

#[test]
fn spurious_wakeups_never_reach_the_caller() {
    for retries in 0..20usize {
        let mut passes: Vec<Pass<usize, &'static str>> = Vec::new();
        for _ in 0..retries {
            passes.push(Pass::Attempted(Attempt::WouldBlock));
        }
        passes.push(Pass::Attempted(Attempt::Done(Ok(retries))));
        // What follows the first pass that settles is never looked at.
        passes.push(Pass::Failed("unused"));
        let mut adapter = AsyncFdWrapper::new(());
        assert_eq!(adapter.poll_read(passes), Some(Poll::Ready(Ok(retries))));
    }
}

#[test]
fn a_run_of_spurious_wakeups_is_unfinished() {
    let mut adapter = AsyncFdWrapper::new(());
    let passes: Vec<Pass<usize, ()>> =
        vec![Pass::Attempted(Attempt::WouldBlock), Pass::Attempted(Attempt::WouldBlock)];
    assert_eq!(adapter.poll_write(passes), None);
    assert_eq!(adapter.readiness(Direction::Write), Readiness::AwaitingNotification);
    assert_eq!(adapter.poll_write(Vec::<Pass<usize, ()>>::new()), None);
}

#[test]
fn retry_then_suspend() {
    let mut adapter = AsyncFdWrapper::new(());
    let passes: Vec<Pass<usize, ()>> = vec![Pass::Attempted(Attempt::WouldBlock), Pass::NotReady];
    assert_eq!(adapter.poll_read(passes), Some(Poll::Pending));
    assert_eq!(adapter.readiness(Direction::Read), Readiness::AwaitingNotification);
}

#[test]
fn flush_and_close_go_by_write_readiness() {
    let mut adapter = AsyncFdWrapper::new(());
    let passes: Vec<Pass<(), &str>> =
        vec![Pass::Attempted(Attempt::WouldBlock), Pass::Attempted(Attempt::Done(Ok(())))];
    assert_eq!(adapter.poll_flush(passes), Some(Poll::Ready(Ok(()))));
    assert_eq!(adapter.readiness(Direction::Write), Readiness::AwaitingNotification);
    assert_eq!(adapter.readiness(Direction::Read), Readiness::Unknown);
    let passes: Vec<Pass<(), &str>> = vec![Pass::Attempted(Attempt::Done(Err("closed")))];
    assert_eq!(adapter.poll_close(passes), Some(Poll::Ready(Err("closed"))));
    assert_eq!(adapter.readiness(Direction::Read), Readiness::Unknown);
}

#[test]
fn round_trip_through_two_adapters() {
    // One side writes the bytes, the other reads them; the pipe between the
    // two adapters would block on every other attempt.
    let message = b"0123456789abcdef".to_vec();
    let mut pipe: Vec<u8> = Vec::new();
    let mut writer = AsyncFdWrapper::new(());
    let mut reader = AsyncFdWrapper::new(());
    let mut received: Vec<u8> = Vec::new();
    let mut sent = 0;
    let mut turn = 0;
    while received.len() < message.len() {
        turn += 1;
        let blocked = turn % 2 == 0;
        if sent < message.len() {
            let pass: Pass<usize, ()> = if blocked {
                Pass::Attempted(Attempt::WouldBlock)
            } else {
                pipe.push(message[sent]);
                Pass::Attempted(Attempt::Done(Ok(1)))
            };
            if let Some(Poll::Ready(Ok(n))) = writer.write(pass) {
                sent += n;
            }
        }
        let pass: Pass<usize, ()> = if blocked || pipe.is_empty() {
            Pass::Attempted(Attempt::WouldBlock)
        } else {
            received.push(pipe.remove(0));
            Pass::Attempted(Attempt::Done(Ok(1)))
        };
        reader.read(pass);
    }
    assert_eq!(received, message);
}

#[test]
fn hello_world_through_a_registered_descriptor() {
    // The accepted side reads through an adapter what the connector sent.
    let sent = b"Hello, world!";
    let mut adapter = AsyncFdWrapper::new(sent.to_vec());
    let mut buf = vec![0u8; 13];
    let n = {
        let source = adapter.get_mut();
        let n = source.len().min(buf.len());
        buf[..n].copy_from_slice(&source[..n]);
        n
    };
    let polled: Option<Poll<Result<usize, ()>>> =
        adapter.poll_read(vec![Pass::Attempted(Attempt::Done(Ok(n)))]);
    assert_eq!(polled, Some(Poll::Ready(Ok(13))));
    assert_eq!(String::from_utf8(buf).unwrap().as_str(), "Hello, world!");
}
