use async_rs::traits::addr::{IpAddress, Resolution, SocketAddress};
use async_rs::traits::executor::{Ambient, Entry, HandleSource, Route};
use async_rs::traits::reactor::{tcp_connect, Candidates, Connect, ConnectError, Reactor};
use async_rs::{Noop, Tokio};

fn addr(last: u8, port: u16) -> SocketAddress {
    SocketAddress::new(IpAddress::V4([127, 0, 0, last]), port)
}

const AMBIENT: Ambient = Ambient { inside_tokio: false, unix: true };

#[test]
fn candidates_are_handed_out_in_order_and_once() {
    let mut run: Candidates<SocketAddress, ()> =
        Candidates::new(vec![addr(1, 80), addr(2, 80), addr(3, 80)]);
    assert_eq!(run.next(), Some(addr(1, 80)));
    assert_eq!(run.next(), Some(addr(2, 80)));
    assert_eq!(run.next(), Some(addr(3, 80)));
    assert_eq!(run.next(), None);
    assert_eq!(run.next(), None);
}

#[test]
fn no_candidate_is_no_address() {
    let mut run: Candidates<SocketAddress, &str> = Candidates::new(Vec::new());
    assert_eq!(run.next(), None);
    assert_eq!(run.finish(), ConnectError::AddrNotAvailable);
}

#[test]
fn the_last_failure_is_reported() {
    let mut run: Candidates<SocketAddress, &str> = Candidates::new(vec![addr(1, 1), addr(2, 2)]);
    assert_eq!(run.next(), Some(addr(1, 1)));
    run.failed("refused");
    assert_eq!(run.next(), Some(addr(2, 2)));
    run.failed("timed out");
    assert_eq!(run.next(), None);
    assert_eq!(run.finish(), ConnectError::Connect("timed out"));
}

#[test]
fn first_success_wins_for_every_number_of_failures() {
    for k in 0..6usize {
        let mut candidates: Vec<(SocketAddress, Result<usize, usize>)> = Vec::new();
        for i in 0..k {
            candidates.push((addr(i as u8, 1000 + i as u16), Err(i)));
        }
        candidates.push((addr(k as u8, 2000), Ok(k)));
        // Candidates after the first success are never attempted.
        candidates.push((addr(200, 3000), Ok(999)));
        candidates.push((addr(201, 3001), Err(998)));

        let (attempted, result) = tcp_connect(candidates);
        assert_eq!(result, Ok(k));
        let mut expected: Vec<SocketAddress> = Vec::new();
        for i in 0..k {
            expected.push(addr(i as u8, 1000 + i as u16));
        }
        expected.push(addr(k as u8, 2000));
        assert_eq!(attempted, expected);
    }
}

#[test]
fn every_candidate_fails() {
    let candidates: Vec<(SocketAddress, Result<(), &str>)> =
        vec![(addr(1, 1), Err("first")), (addr(2, 2), Err("second")), (addr(3, 3), Err("third"))];
    let (attempted, result) = tcp_connect(candidates);
    assert_eq!(result, Err(ConnectError::Connect("third")));
    assert_eq!(attempted, vec![addr(1, 1), addr(2, 2), addr(3, 3)]);
}

#[test]
fn connecting_to_nothing() {
    let candidates: Vec<(SocketAddress, Result<(), &str>)> = Vec::new();
    let (attempted, result) = tcp_connect(candidates);
    assert_eq!(result, Err(ConnectError::AddrNotAvailable));
    assert!(attempted.is_empty());
}

#[test]
fn candidates_driven_by_hand_agree_with_the_run() {
    // The first two fail, the third connects.
    let addrs = vec![addr(1, 1), addr(2, 2), addr(3, 3), addr(4, 4)];
    let mut run: Candidates<SocketAddress, &str> = Candidates::new(addrs);
    let mut attempts = Vec::new();
    let mut connection = None;
    while let Some(candidate) = run.next() {
        attempts.push(candidate);
        if candidate.port == 3 {
            connection = Some(candidate);
            break;
        }
        run.failed("refused");
    }
    assert_eq!(connection, Some(addr(3, 3)));
    assert_eq!(attempts, vec![addr(1, 1), addr(2, 2), addr(3, 3)]);
}

#[test]
fn connect_plan_of_a_literal_address() {
    let plan = Noop.tcp_connect(addr(1, 7654), AMBIENT);
    assert_eq!(
        plan,
        Ok(Connect { route: Route::Noop, resolution: Resolution::Resolved(vec![addr(1, 7654)]) })
    );
}

#[test]
fn connect_plan_of_an_ip_and_a_port() {
    let binding: Tokio<u8, u8> = Tokio::default().with_handle(1);
    let plan = binding.tcp_connect(([127u8, 0, 0, 1], 7654u16), AMBIENT);
    assert_eq!(
        plan,
        Ok(Connect {
            route: Route::Tokio(Entry::Handle(HandleSource::Stored)),
            resolution: Resolution::Resolved(vec![addr(1, 7654)]),
        })
    );
}
