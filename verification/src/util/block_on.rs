//! Blocking a thread on an operation without an engine.
//!
//! The thread polls the operation and parks itself while the operation is
//! pending. A flag of the thread forbids doing so from within itself.

use crate::poll::Poll;
use vstd::prelude::*;

verus! {

/// The flag of one thread that says whether it is blocked on an operation.
#[derive(Debug)]
pub struct Busy {
    busy: bool,
}

/// The proof that a thread entered: it can only be had from `Busy::enter`,
/// and giving it back is what clears the flag.
#[derive(Debug)]
pub struct EnterGuard(());

impl Busy {
    /// Whether the thread is blocked on an operation.
    pub closed spec fn busy(&self) -> bool {
        self.busy
    }

    /// The flag of a thread that is not blocked on anything.
    pub fn new() -> (flag: Self)
        ensures
            !flag.busy(),
    {
        Busy { busy: false }
    }

    /// Whether the thread is blocked on an operation.
    pub fn is_busy(&self) -> (busy: bool)
        ensures
            busy == self.busy(),
    {
        self.busy
    }

    /// Marks the thread as blocked on an operation. A thread that is blocked
    /// already cannot enter again.
    pub fn enter(&mut self) -> (guard: EnterGuard)
        requires
            !old(self).busy(),
        ensures
            final(self).busy(),
    {
        self.busy = true;
        EnterGuard(())
    }

    /// Clears the flag, whatever came of the operation.
    pub fn leave(&mut self, guard: EnterGuard)
        ensures
            !final(self).busy(),
    {
        self.busy = false;
    }
}

/// What wakes a thread that is blocked on an operation. The flag is set
/// from the start and by every call to park, and cleared by every wake: the
/// thread is put to sleep only by a call to park that finds it cleared, and
/// is woken only by a wake that finds it set.
#[derive(Debug)]
pub struct ThreadWaker {
    parked: bool,
}

impl ThreadWaker {
    /// Whether the flag is set.
    pub closed spec fn parked(&self) -> bool {
        self.parked
    }

    /// The waker of a thread that is about to poll for the first time.
    pub fn new() -> (waker: Self)
        ensures
            waker.parked(),
    {
        ThreadWaker { parked: true }
    }

    /// Sets the flag, and says whether the thread is to be put to sleep: it
    /// is when the flag was cleared.
    pub fn park(&mut self) -> (sleep: bool)
        ensures
            final(self).parked(),
            sleep == !old(self).parked(),
    {
        let was = self.parked;
        self.parked = true;
        !was
    }

    /// Clears the flag, and says whether the thread is to be woken: it is
    /// when the flag was set.
    pub fn unpark(&mut self) -> (notify: bool)
        ensures
            !final(self).parked(),
            notify == old(self).parked(),
    {
        let was = self.parked;
        self.parked = false;
        was
    }

    /// A wake that gives the waker up: the same as `unpark`.
    pub fn wake(&mut self) -> (notify: bool)
        ensures
            !final(self).parked(),
            notify == old(self).parked(),
    {
        self.unpark()
    }

    /// A wake through a reference: the same as `unpark`.
    pub fn wake_by_ref(&mut self) -> (notify: bool)
        ensures
            !final(self).parked(),
            notify == old(self).parked(),
    {
        self.unpark()
    }
}

/// What a blocked thread does after one poll of its operation.
#[derive(Debug, PartialEq, Eq)]
pub enum BlockOnStep<T> {
    /// The operation resolved: return its result.
    Return(T),
    /// The operation is pending: park, then poll again.
    Park,
}

/// Decides what a blocked thread does after one poll.
pub fn block_on_step<T>(polled: Poll<T>) -> (step: BlockOnStep<T>)
    ensures
        step == match polled {
            Poll::Ready(value) => BlockOnStep::Return(value),
            Poll::Pending => BlockOnStep::Park,
        },
{
    match polled {
        Poll::Ready(value) => BlockOnStep::Return(value),
        Poll::Pending => BlockOnStep::Park,
    }
}

/// How often a thread parks over a run of polls: once for every poll that
/// is pending before the first one that is ready.
pub open spec fn parks<T>(polls: Seq<Poll<T>>) -> nat
    decreases polls.len(),
{
    if polls.len() == 0 || polls[0] is Ready {
        0
    } else {
        1 + parks(polls.skip(1))
    }
}

/// What blocking on an operation gives over a run of polls: the value of
/// the first poll that is ready, `None` while every poll is pending.
pub open spec fn block_on_result<T>(polls: Seq<Poll<T>>) -> Option<T> {
    if parks(polls) < polls.len() {
        Some(polls[parks(polls) as int]->Ready_0)
    } else {
        None
    }
}

/// The polls before the first one that is ready are pending, and the poll
/// at that place, if there is one, is ready.
pub proof fn lemma_parks<T>(polls: Seq<Poll<T>>)
    ensures
        parks(polls) <= polls.len(),
        forall|i: int| 0 <= i < parks(polls) ==> (#[trigger] polls[i]) is Pending,
        parks(polls) < polls.len() ==> polls[parks(polls) as int] is Ready,
    decreases polls.len(),
{
    if polls.len() > 0 && polls[0] is Pending {
        let rest = polls.skip(1);
        lemma_parks(rest);
        assert forall|i: int| 0 <= i < parks(polls) implies (#[trigger] polls[i]) is Pending by {
            if i > 0 {
                assert(rest[i - 1] == polls[i]);
            }
        }
        assert(parks(rest) < rest.len() ==> rest[parks(rest) as int] == polls[parks(polls) as int]);
    }
}

/// Blocks on an operation whose polls are known, on a thread that is not
/// blocked already. Returns what the operation resolved to, `None` when
/// the polls ran out while it was pending, and how often the thread parked.
/// The flag of the thread is set for the duration and cleared at the end.
pub fn simple_block_on<T>(busy: &mut Busy, polls: Vec<Poll<T>>) -> (run: (Option<T>, usize))
    requires
        !old(busy).busy(),
    ensures
        !final(busy).busy(),
        run.0 == block_on_result(polls@),
        run.1 == parks(polls@),
{
    let guard = busy.enter();
    let mut rest = polls;
    let mut parked: usize = 0;
    let mut result: Option<T> = None;
    proof {
        lemma_parks(polls@);
    }
    while rest.len() > 0
        invariant_except_break
            result is None,
            parked + rest.len() == polls.len(),
            rest@ == polls@.skip(parked as int),
            parked + parks(rest@) == parks(polls@),
        ensures
            result == block_on_result(polls@),
            parked == parks(polls@),
        decreases rest.len(),
    {
        let ghost before = rest@;
        let polled = rest.remove(0);
        assert(rest@ =~= before.skip(1));
        assert(polled == polls@[parked as int]);
        match block_on_step(polled) {
            BlockOnStep::Return(value) => {
                result = Some(value);
                break;
            },
            BlockOnStep::Park => {
                parked = parked + 1;
                assert(rest@ =~= polls@.skip(parked as int));
            },
        }
    }
    busy.leave(guard);
    (result, parked)
}

/// An operation that is resolved already is returned at once: the thread
/// never parks, whatever polls would have followed.
pub proof fn lemma_ready_returns_at_once<T>(value: T, later: Seq<Poll<T>>)
    ensures
        block_on_result(seq![Poll::Ready(value)] + later) == Some(value),
        parks(seq![Poll::Ready(value)] + later) == 0,
{
    let polls = seq![Poll::Ready(value)] + later;
    assert(polls[0] == Poll::Ready(value));
}

/// An operation that is pending `pending` times and then ready with a
/// value is returned with that value after exactly `pending` parks.
pub proof fn lemma_block_on_waits<T>(pending: nat, value: T)
    ensures
        block_on_result(Seq::new(pending, |i: int| Poll::<T>::Pending).push(Poll::Ready(value)))
            == Some(value),
        parks(Seq::new(pending, |i: int| Poll::<T>::Pending).push(Poll::Ready(value))) == pending,
    decreases pending,
{
    let polls = Seq::new(pending, |i: int| Poll::<T>::Pending).push(Poll::Ready(value));
    if pending == 0 {
        assert(polls[0] == Poll::Ready(value));
    } else {
        let shorter = Seq::new((pending - 1) as nat, |i: int| Poll::<T>::Pending).push(
            Poll::Ready(value),
        );
        assert(polls[0] == Poll::<T>::Pending);
        assert(polls.skip(1) =~= shorter);
        lemma_block_on_waits((pending - 1) as nat, value);
        assert(polls[pending as int] == Poll::Ready(value));
    }
}

} // verus!
