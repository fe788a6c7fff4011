//! The I/O capability, and the order in which candidate addresses are tried.

use crate::traits::addr::{resolves_as, AsyncToSocketAddrs, Resolution, ResolveError};
use crate::traits::executor::{Ambient, Route};
use std::rc::Rc;
use std::sync::Arc;
use vstd::prelude::*;

verus! {

/// Why a descriptor cannot be registered.
#[derive(Debug, Clone, Copy, PartialEq, Eq, Structural)]
pub enum RegisterError {
    /// The engine registers descriptors on unix systems only.
    Unsupported,
}

/// An outbound connection that is about to be made: where the connections
/// are attempted, and what has to be resolved first.
#[derive(Debug, PartialEq, Eq)]
pub struct Connect<N> {
    /// The route of every single attempt.
    pub route: Route,
    /// The candidate addresses, or what has to happen to get them.
    pub resolution: Resolution<N>,
}

/// The I/O capability of an engine.
pub trait Reactor {
    /// Where a blocking descriptor is registered, if the engine can.
    spec fn register_route(&self, ambient: Ambient) -> Result<Route, RegisterError>;

    /// Where a sleep is timed.
    spec fn sleep_route(&self, ambient: Ambient) -> Route;

    /// Where an interval is timed.
    spec fn interval_route(&self, ambient: Ambient) -> Route;

    /// Where a connection to one address is made.
    spec fn tcp_connect_addr_route(&self, ambient: Ambient) -> Route;

    /// Routes the registration of a blocking descriptor.
    fn register(&self, ambient: Ambient) -> (route: Result<Route, RegisterError>)
        ensures
            route == self.register_route(ambient),
    ;

    /// Routes a sleep.
    fn sleep(&self, ambient: Ambient) -> (route: Route)
        ensures
            route == self.sleep_route(ambient),
    ;

    /// Routes an interval.
    fn interval(&self, ambient: Ambient) -> (route: Route)
        ensures
            route == self.interval_route(ambient),
    ;

    /// Routes a connection to one address.
    fn tcp_connect_addr(&self, ambient: Ambient) -> (route: Route)
        ensures
            route == self.tcp_connect_addr_route(ambient),
    ;

    /// Plans a connection to whatever `addrs` resolves to: the input is
    /// resolved first, and every candidate is then attempted where a
    /// connection to one address is.
    fn tcp_connect<A: AsyncToSocketAddrs>(&self, addrs: A, ambient: Ambient) -> (plan: Result<
        Connect<A::Name>,
        ResolveError,
    >) where Self: Sized
        ensures
            match plan {
                Ok(connect) => connect.route == self.tcp_connect_addr_route(ambient) && resolves_as(
                    Ok(connect.resolution),
                    addrs.resolution(ambient),
                ),
                Err(e) => resolves_as(
                    Err::<Resolution<A::Name>, ResolveError>(e),
                    addrs.resolution(ambient),
                ),
            },
    {
        match addrs.to_socket_addrs(ambient) {
            Ok(resolution) => Ok(Connect { route: self.tcp_connect_addr(ambient), resolution }),
            Err(e) => Err(e),
        }
    }
}

impl<'a, R: Reactor> Reactor for &'a R {
    open spec fn register_route(&self, ambient: Ambient) -> Result<Route, RegisterError> {
        (**self).register_route(ambient)
    }

    open spec fn sleep_route(&self, ambient: Ambient) -> Route {
        (**self).sleep_route(ambient)
    }

    open spec fn interval_route(&self, ambient: Ambient) -> Route {
        (**self).interval_route(ambient)
    }

    open spec fn tcp_connect_addr_route(&self, ambient: Ambient) -> Route {
        (**self).tcp_connect_addr_route(ambient)
    }

    fn register(&self, ambient: Ambient) -> (route: Result<Route, RegisterError>) {
        (**self).register(ambient)
    }

    fn sleep(&self, ambient: Ambient) -> (route: Route) {
        (**self).sleep(ambient)
    }

    fn interval(&self, ambient: Ambient) -> (route: Route) {
        (**self).interval(ambient)
    }

    fn tcp_connect_addr(&self, ambient: Ambient) -> (route: Route) {
        (**self).tcp_connect_addr(ambient)
    }
}

impl<R: Reactor> Reactor for Box<R> {
    open spec fn register_route(&self, ambient: Ambient) -> Result<Route, RegisterError> {
        (**self).register_route(ambient)
    }

    open spec fn sleep_route(&self, ambient: Ambient) -> Route {
        (**self).sleep_route(ambient)
    }

    open spec fn interval_route(&self, ambient: Ambient) -> Route {
        (**self).interval_route(ambient)
    }

    open spec fn tcp_connect_addr_route(&self, ambient: Ambient) -> Route {
        (**self).tcp_connect_addr_route(ambient)
    }

    fn register(&self, ambient: Ambient) -> (route: Result<Route, RegisterError>) {
        (**self).register(ambient)
    }

    fn sleep(&self, ambient: Ambient) -> (route: Route) {
        (**self).sleep(ambient)
    }

    fn interval(&self, ambient: Ambient) -> (route: Route) {
        (**self).interval(ambient)
    }

    fn tcp_connect_addr(&self, ambient: Ambient) -> (route: Route) {
        (**self).tcp_connect_addr(ambient)
    }
}

impl<R: Reactor> Reactor for Rc<R> {
    open spec fn register_route(&self, ambient: Ambient) -> Result<Route, RegisterError> {
        (**self).register_route(ambient)
    }

    open spec fn sleep_route(&self, ambient: Ambient) -> Route {
        (**self).sleep_route(ambient)
    }

    open spec fn interval_route(&self, ambient: Ambient) -> Route {
        (**self).interval_route(ambient)
    }

    open spec fn tcp_connect_addr_route(&self, ambient: Ambient) -> Route {
        (**self).tcp_connect_addr_route(ambient)
    }

    fn register(&self, ambient: Ambient) -> (route: Result<Route, RegisterError>) {
        (**self).register(ambient)
    }

    fn sleep(&self, ambient: Ambient) -> (route: Route) {
        (**self).sleep(ambient)
    }

    fn interval(&self, ambient: Ambient) -> (route: Route) {
        (**self).interval(ambient)
    }

    fn tcp_connect_addr(&self, ambient: Ambient) -> (route: Route) {
        (**self).tcp_connect_addr(ambient)
    }
}

impl<R: Reactor> Reactor for Arc<R> {
    open spec fn register_route(&self, ambient: Ambient) -> Result<Route, RegisterError> {
        (**self).register_route(ambient)
    }

    open spec fn sleep_route(&self, ambient: Ambient) -> Route {
        (**self).sleep_route(ambient)
    }

    open spec fn interval_route(&self, ambient: Ambient) -> Route {
        (**self).interval_route(ambient)
    }

    open spec fn tcp_connect_addr_route(&self, ambient: Ambient) -> Route {
        (**self).tcp_connect_addr_route(ambient)
    }

    fn register(&self, ambient: Ambient) -> (route: Result<Route, RegisterError>) {
        (**self).register(ambient)
    }

    fn sleep(&self, ambient: Ambient) -> (route: Route) {
        (**self).sleep(ambient)
    }

    fn interval(&self, ambient: Ambient) -> (route: Route) {
        (**self).interval(ambient)
    }

    fn tcp_connect_addr(&self, ambient: Ambient) -> (route: Route) {
        (**self).tcp_connect_addr(ambient)
    }
}

/// Whatever holds a reactor routes as the reactor does: a reference, a box
/// and a shared pointer forward every call unchanged.
pub proof fn lemma_wrappers_forward<R: Reactor>(reactor: R, ambient: Ambient)
    ensures
        (&reactor).register_route(ambient) == reactor.register_route(ambient),
        (&reactor).sleep_route(ambient) == reactor.sleep_route(ambient),
        (&reactor).interval_route(ambient) == reactor.interval_route(ambient),
        (&reactor).tcp_connect_addr_route(ambient) == reactor.tcp_connect_addr_route(ambient),
        Box::new(reactor).register_route(ambient) == reactor.register_route(ambient),
        Box::new(reactor).sleep_route(ambient) == reactor.sleep_route(ambient),
        Box::new(reactor).interval_route(ambient) == reactor.interval_route(ambient),
        Box::new(reactor).tcp_connect_addr_route(ambient) == reactor.tcp_connect_addr_route(
            ambient,
        ),
        Rc::new(reactor).register_route(ambient) == reactor.register_route(ambient),
        Rc::new(reactor).sleep_route(ambient) == reactor.sleep_route(ambient),
        Rc::new(reactor).interval_route(ambient) == reactor.interval_route(ambient),
        Rc::new(reactor).tcp_connect_addr_route(ambient) == reactor.tcp_connect_addr_route(ambient),
        Arc::new(reactor).register_route(ambient) == reactor.register_route(ambient),
        Arc::new(reactor).sleep_route(ambient) == reactor.sleep_route(ambient),
        Arc::new(reactor).interval_route(ambient) == reactor.interval_route(ambient),
        Arc::new(reactor).tcp_connect_addr_route(ambient) == reactor.tcp_connect_addr_route(
            ambient,
        ),
{
}

/// Why no connection came of a run over the candidates.
#[derive(Debug, PartialEq, Eq)]
pub enum ConnectError<E> {
    /// There was no candidate at all: the host could not be resolved.
    AddrNotAvailable,
    /// Every candidate failed; this is the failure of the last one.
    Connect(E),
}

/// The candidates of one connection, tried one by one in the order they
/// came in. Each is handed out at most once.
#[derive(Debug)]
pub struct Candidates<A, E> {
    addrs: Vec<A>,
    tried: usize,
    last_error: Option<E>,
}

impl<A, E> Candidates<A, E> {
    #[verifier::type_invariant]
    spec fn in_bounds(self) -> bool {
        self.tried <= self.addrs.len()
    }

    /// All candidates, in resolution order.
    pub closed spec fn addrs(&self) -> Seq<A> {
        self.addrs@
    }

    /// How many candidates have been handed out.
    pub closed spec fn tried(&self) -> nat {
        self.tried as nat
    }

    /// The failure of the latest attempt that was reported.
    pub closed spec fn last_error(&self) -> Option<E> {
        self.last_error
    }
}

impl<A: Copy, E> Candidates<A, E> {
    /// Starts a run over the candidates: none is tried, nothing has failed.
    pub fn new(addrs: Vec<A>) -> (candidates: Self)
        ensures
            candidates.addrs() == addrs@,
            candidates.tried() == 0,
            candidates.last_error() is None,
    {
        Candidates { addrs, tried: 0, last_error: None }
    }

    /// Hands out the next candidate to attempt, `None` when all were tried.
    pub fn next(&mut self) -> (candidate: Option<A>)
        ensures
            final(self).addrs() == old(self).addrs(),
            final(self).last_error() == old(self).last_error(),
            old(self).tried() <= old(self).addrs().len(),
            old(self).tried() < old(self).addrs().len() ==> candidate == Some(
                old(self).addrs()[old(self).tried() as int],
            ) && final(self).tried() == old(self).tried() + 1,
            old(self).tried() == old(self).addrs().len() ==> candidate is None
                && final(self).tried() == old(self).tried(),
    {
        proof {
            use_type_invariant(&*self);
        }
        if self.tried < self.addrs.len() {
            let candidate = self.addrs[self.tried];
            self.tried = self.tried + 1;
            Some(candidate)
        } else {
            None
        }
    }

    /// Records that the attempt on the latest candidate failed.
    pub fn failed(&mut self, error: E)
        ensures
            final(self).addrs() == old(self).addrs(),
            final(self).tried() == old(self).tried(),
            final(self).last_error() == Some(error),
    {
        proof {
            use_type_invariant(&*self);
        }
        self.last_error = Some(error);
    }

    /// Ends a run without a connection: the failure of the last attempt, or
    /// that there was no address when nothing was attempted and reported.
    pub fn finish(self) -> (error: ConnectError<E>)
        ensures
            error == match self.last_error() {
                Some(e) => ConnectError::Connect(e),
                None => ConnectError::AddrNotAvailable,
            },
    {
        match self.last_error {
            Some(e) => ConnectError::Connect(e),
            None => ConnectError::AddrNotAvailable,
        }
    }
}

/// The position of the first attempt that succeeds, the number of attempts
/// when none does. `outcomes[i]` is what connecting to candidate `i` gives.
pub open spec fn first_success<S, E>(outcomes: Seq<Result<S, E>>) -> nat
    decreases outcomes.len(),
{
    if outcomes.len() == 0 {
        0
    } else if outcomes[0] is Ok {
        0
    } else {
        1 + first_success(outcomes.skip(1))
    }
}

/// How many candidates are attempted: all up to and including the first
/// that succeeds.
pub open spec fn attempts_made<S, E>(outcomes: Seq<Result<S, E>>) -> nat {
    if first_success(outcomes) < outcomes.len() {
        first_success(outcomes) + 1
    } else {
        outcomes.len()
    }
}

/// What a run over the candidates gives: the first connection that is made;
/// the failure of the last candidate when every one fails; and that there
/// was no address when there was no candidate.
pub open spec fn connect_result<S, E>(outcomes: Seq<Result<S, E>>) -> Result<S, ConnectError<E>> {
    if first_success(outcomes) < outcomes.len() {
        Ok(outcomes[first_success(outcomes) as int]->Ok_0)
    } else if outcomes.len() == 0 {
        Err(ConnectError::AddrNotAvailable)
    } else {
        Err(ConnectError::Connect(outcomes.last()->Err_0))
    }
}

/// The first success is where every earlier outcome is a failure and the
/// outcome at hand, if there is one, is a success.
pub proof fn lemma_first_success_at<S, E>(outcomes: Seq<Result<S, E>>, k: nat)
    requires
        k <= outcomes.len(),
        forall|j: int| 0 <= j < k ==> (#[trigger] outcomes[j]) is Err,
        k < outcomes.len() ==> outcomes[k as int] is Ok,
    ensures
        first_success(outcomes) == k,
    decreases k,
{
    if k > 0 {
        let rest = outcomes.skip(1);
        assert(outcomes[0] is Err);
        assert forall|j: int| 0 <= j < k - 1 implies (#[trigger] rest[j]) is Err by {
            assert(rest[j] == outcomes[j + 1]);
        }
        lemma_first_success_at(rest, (k - 1) as nat);
    }
}

/// The addresses of a sequence of candidates with their outcomes.
pub open spec fn candidate_addrs<A, S, E>(candidates: Seq<(A, Result<S, E>)>) -> Seq<A> {
    candidates.map_values(|c: (A, Result<S, E>)| c.0)
}

/// The outcomes of a sequence of candidates with their outcomes.
pub open spec fn candidate_outcomes<A, S, E>(candidates: Seq<(A, Result<S, E>)>) -> Seq<
    Result<S, E>,
> {
    candidates.map_values(|c: (A, Result<S, E>)| c.1)
}

/// Runs a connection over candidates whose outcomes are known: each pair is
/// an address and what connecting to it gives. Returns the addresses that
/// were attempted, in the order of the attempts, and what came of the run.
pub fn tcp_connect<A: Copy, S, E>(candidates: Vec<(A, Result<S, E>)>) -> (run: (
    Vec<A>,
    Result<S, ConnectError<E>>,
))
    ensures
        run.0@ == candidate_addrs(candidates@).take(
            attempts_made(candidate_outcomes(candidates@)) as int,
        ),
        run.1 == connect_result(candidate_outcomes(candidates@)),
{
    let ghost all = candidates@;
    let ghost outcomes = candidate_outcomes(all);
    let mut rest = candidates;
    let mut addrs: Vec<A> = Vec::new();
    let mut results: Vec<Result<S, E>> = Vec::new();
    while rest.len() > 0
        invariant
            addrs@ + candidate_addrs(rest@) == candidate_addrs(all),
            results@ + candidate_outcomes(rest@) == outcomes,
            addrs@.len() == results@.len(),
        decreases rest.len(),
    {
        let ghost before = rest@;
        let (addr, outcome) = rest.remove(0);
        addrs.push(addr);
        results.push(outcome);
        assert(rest@ =~= before.skip(1));
        assert(addrs@ + candidate_addrs(rest@) =~= (addrs@.drop_last() + candidate_addrs(before)));
        assert(results@ + candidate_outcomes(rest@) =~= (results@.drop_last() + candidate_outcomes(
            before,
        )));
    }
    assert(addrs@ =~= candidate_addrs(all));
    assert(results@ =~= outcomes);
    let mut run: Candidates<A, E> = Candidates::new(addrs);
    let mut attempted: Vec<A> = Vec::new();
    loop
        invariant
            all == candidates@,
            outcomes == candidate_outcomes(all),
            run.addrs() == candidate_addrs(all),
            outcomes.len() == all.len(),
            run.tried() <= all.len(),
            attempted@ == candidate_addrs(all).take(run.tried() as int),
            results@ == outcomes.skip(run.tried() as int),
            forall|j: int| 0 <= j < run.tried() ==> (#[trigger] outcomes[j]) is Err,
            run.last_error() == if run.tried() == 0 {
                None
            } else {
                Some(outcomes[run.tried() - 1]->Err_0)
            },
        decreases all.len() - run.tried(),
    {
        let ghost tried = run.tried();
        match run.next() {
            None => {
                proof {
                    lemma_first_success_at(outcomes, tried);
                }
                return (attempted, Err(run.finish()));
            },
            Some(addr) => {
                attempted.push(addr);
                assert(attempted@ =~= candidate_addrs(all).take((tried + 1) as int));
                let ghost before = results@;
                let outcome = results.remove(0);
                assert(results@ =~= outcomes.skip((tried + 1) as int));
                assert(outcome == outcomes[tried as int]);
                match outcome {
                    Ok(connection) => {
                        proof {
                            lemma_first_success_at(outcomes, tried);
                        }
                        return (attempted, Ok(connection));
                    },
                    Err(e) => {
                        run.failed(e);
                    },
                }
            },
        }
    }
}

/// When the first `k` candidates fail and the next one connects, exactly
/// the first `k + 1` candidates are attempted, in the order they came in,
/// and the run gives the connection of the last of them.
pub proof fn lemma_first_success_wins<A, S, E>(candidates: Seq<(A, Result<S, E>)>, k: nat)
    requires
        k < candidates.len(),
        forall|j: int| 0 <= j < k ==> (#[trigger] candidates[j]).1 is Err,
        candidates[k as int].1 is Ok,
    ensures
        connect_result(candidate_outcomes(candidates)) == Ok::<S, ConnectError<E>>(
            candidates[k as int].1->Ok_0,
        ),
        attempts_made(candidate_outcomes(candidates)) == k + 1,
        candidate_addrs(candidates).take(attempts_made(candidate_outcomes(candidates)) as int)
            == candidate_addrs(candidates.take((k + 1) as int)),
{
    let outcomes = candidate_outcomes(candidates);
    assert forall|j: int| 0 <= j < k implies (#[trigger] outcomes[j]) is Err by {
        assert(candidates[j].1 is Err);
    }
    lemma_first_success_at(outcomes, k);
    assert(candidate_addrs(candidates).take((k + 1) as int) =~= candidate_addrs(
        candidates.take((k + 1) as int),
    ));
}

/// When every candidate fails, every candidate is attempted and the run
/// gives the failure of the last one; with no candidate at all it gives that
/// no address was available.
pub proof fn lemma_all_fail_gives_last_error<A, S, E>(candidates: Seq<(A, Result<S, E>)>)
    requires
        forall|j: int| 0 <= j < candidates.len() ==> (#[trigger] candidates[j]).1 is Err,
    ensures
        attempts_made(candidate_outcomes(candidates)) == candidates.len(),
        candidates.len() == 0 ==> connect_result(candidate_outcomes(candidates)) == Err::<
            S,
            ConnectError<E>,
        >(ConnectError::AddrNotAvailable),
        candidates.len() > 0 ==> connect_result(candidate_outcomes(candidates)) == Err::<
            S,
            ConnectError<E>,
        >(ConnectError::Connect(candidates.last().1->Err_0)),
{
    let outcomes = candidate_outcomes(candidates);
    assert forall|j: int| 0 <= j < outcomes.len() implies (#[trigger] outcomes[j]) is Err by {
        assert(candidates[j].1 is Err);
    }
    lemma_first_success_at(outcomes, outcomes.len());
}

} // verus!
