//! The readiness adapter: a blocking-style descriptor made usable from
//! suspension-capable code.
//!
//! The readiness primitive and the operations on the descriptor belong to
//! the engine. The adapter takes their answers and decides: an operation is
//! attempted only after the primitive said ready, no readiness is used
//! twice, and an attempt that would block leads back to the primitive
//! without the caller seeing an error.

use crate::poll::Poll;
use vstd::prelude::*;

verus! {

/// What an adapter knows about one direction of its descriptor.
#[derive(Debug, Clone, Copy, PartialEq, Eq, Structural)]
pub enum Readiness {
    /// The readiness primitive has not been asked yet.
    Unknown,
    /// The primitive has no notification; the operation is suspended.
    AwaitingNotification,
    /// The primitive reported the descriptor ready; nothing has used that up.
    Ready,
}

/// The direction of an operation on a descriptor.
#[derive(Debug, Clone, Copy, PartialEq, Eq, Structural)]
pub enum Direction {
    /// Reading from the descriptor.
    Read,
    /// Writing to the descriptor, flushing and closing included.
    Write,
}

/// The answer of the readiness primitive for one direction.
#[derive(Debug, PartialEq, Eq)]
pub enum ReadyPoll<E> {
    /// No notification has arrived.
    Pending,
    /// The descriptor is reported ready.
    Ready,
    /// The primitive itself failed.
    Failed(E),
}

/// The outcome of one blocking-style operation on a descriptor reported ready.
#[derive(Debug, PartialEq, Eq)]
pub enum Attempt<R, E> {
    /// The operation could not proceed: the notification was spurious.
    WouldBlock,
    /// The operation ran and succeeded or failed for good.
    Done(Result<R, E>),
}

/// What the adapter does after the readiness primitive answered.
#[derive(Debug, PartialEq, Eq)]
pub enum Next<E> {
    /// Attempt the operation now.
    Attempt,
    /// Suspend until a notification arrives.
    Suspend,
    /// Give the primitive's failure to the caller.
    Fail(E),
}

/// One pass over the descriptor: the primitive's answer and, when it said
/// ready, the outcome of the attempt that followed.
#[derive(Debug, PartialEq, Eq)]
pub enum Pass<R, E> {
    /// The primitive had no notification.
    NotReady,
    /// The primitive itself failed.
    Failed(E),
    /// The primitive said ready and the operation was attempted.
    Attempted(Attempt<R, E>),
}

/// What one pass gives the caller: `None` when the pass has to be repeated.
pub open spec fn pass_result<R, E>(pass: Pass<R, E>) -> Option<Poll<Result<R, E>>> {
    match pass {
        Pass::NotReady => Some(Poll::Pending),
        Pass::Failed(e) => Some(Poll::Ready(Err(e))),
        Pass::Attempted(Attempt::WouldBlock) => None,
        Pass::Attempted(Attempt::Done(res)) => Some(Poll::Ready(res)),
    }
}

/// The readiness slot after one pass that started from `before`.
pub open spec fn pass_readiness<R, E>(before: Readiness, pass: Pass<R, E>) -> Readiness {
    match pass {
        Pass::NotReady => Readiness::AwaitingNotification,
        Pass::Failed(_) => before,
        Pass::Attempted(_) => Readiness::AwaitingNotification,
    }
}

/// What a run of passes gives the caller: the result of the first pass that
/// does not have to be repeated, `None` when every pass would block.
pub open spec fn poll_result<R, E>(passes: Seq<Pass<R, E>>) -> Option<Poll<Result<R, E>>>
    decreases passes.len(),
{
    if passes.len() == 0 {
        None
    } else if pass_result(passes[0]) is Some {
        pass_result(passes[0])
    } else {
        poll_result(passes.skip(1))
    }
}

/// The readiness slot after a run of passes that started from `before`.
pub open spec fn poll_readiness<R, E>(before: Readiness, passes: Seq<Pass<R, E>>) -> Readiness
    decreases passes.len(),
{
    if passes.len() == 0 {
        before
    } else if pass_result(passes[0]) is Some {
        pass_readiness(before, passes[0])
    } else {
        poll_readiness(pass_readiness(before, passes[0]), passes.skip(1))
    }
}

/// A blocking-style descriptor together with what is known of its readiness,
/// tracked for reading and for writing independently.
#[derive(Debug)]
pub struct AsyncFdWrapper<D> {
    descriptor: D,
    read: Readiness,
    write: Readiness,
}

impl<D> AsyncFdWrapper<D> {
    /// The descriptor that the adapter owns.
    pub closed spec fn descriptor(&self) -> D {
        self.descriptor
    }

    /// What is known of the readiness of one direction.
    pub closed spec fn slot(&self, direction: Direction) -> Readiness {
        match direction {
            Direction::Read => self.read,
            Direction::Write => self.write,
        }
    }

    /// Registers a descriptor: nothing is known of its readiness yet.
    pub fn new(descriptor: D) -> (adapter: Self)
        ensures
            adapter.descriptor() == descriptor,
            adapter.slot(Direction::Read) == Readiness::Unknown,
            adapter.slot(Direction::Write) == Readiness::Unknown,
    {
        AsyncFdWrapper { descriptor, read: Readiness::Unknown, write: Readiness::Unknown }
    }

    /// The descriptor, for the readiness primitive and for the operation.
    pub fn get_ref(&self) -> (descriptor: &D)
        ensures
            *descriptor == self.descriptor(),
    {
        &self.descriptor
    }

    /// The descriptor, mutably; the readiness slots are out of reach.
    pub fn get_mut(&mut self) -> (descriptor: &mut D)
        ensures
            *descriptor == old(self).descriptor(),
            final(self).descriptor() == *final(descriptor),
            final(self).slot(Direction::Read) == old(self).slot(Direction::Read),
            final(self).slot(Direction::Write) == old(self).slot(Direction::Write),
    {
        &mut self.descriptor
    }

    /// Gives the descriptor back, ending the registration.
    pub fn into_inner(self) -> (descriptor: D)
        ensures
            descriptor == self.descriptor(),
    {
        self.descriptor
    }

    /// What is known of the readiness of one direction.
    pub fn readiness(&self, direction: Direction) -> (slot: Readiness)
        ensures
            slot == self.slot(direction),
    {
        match direction {
            Direction::Read => self.read,
            Direction::Write => self.write,
        }
    }

    fn set_slot(&mut self, direction: Direction, slot: Readiness)
        ensures
            final(self).descriptor() == old(self).descriptor(),
            final(self).slot(direction) == slot,
            forall|other: Direction|
                other != direction ==> final(self).slot(other) == old(self).slot(other),
    {
        match direction {
            Direction::Read => {
                self.read = slot;
            },
            Direction::Write => {
                self.write = slot;
            },
        }
    }

    /// Takes the answer of the readiness primitive and says what to do next.
    ///
    /// Only an answer of ready lets the operation be attempted. Without a
    /// notification the operation suspends, and a failure of the primitive
    /// goes to the caller with the slot left as it was.
    pub fn on_readiness<E>(&mut self, direction: Direction, answer: ReadyPoll<E>) -> (next: Next<E>)
        ensures
            final(self).descriptor() == old(self).descriptor(),
            forall|other: Direction|
                other != direction ==> final(self).slot(other) == old(self).slot(other),
            match answer {
                ReadyPoll::Pending => next is Suspend
                    && final(self).slot(direction) == Readiness::AwaitingNotification,
                ReadyPoll::Ready => next is Attempt
                    && final(self).slot(direction) == Readiness::Ready,
                ReadyPoll::Failed(e) => next == Next::Fail(e)
                    && final(self).slot(direction) == old(self).slot(direction),
            },
    {
        match answer {
            ReadyPoll::Pending => {
                self.set_slot(direction, Readiness::AwaitingNotification);
                Next::Suspend
            },
            ReadyPoll::Ready => {
                self.set_slot(direction, Readiness::Ready);
                Next::Attempt
            },
            ReadyPoll::Failed(e) => Next::Fail(e),
        }
    }

    /// Takes the outcome of an attempt and gives what the caller sees of it.
    ///
    /// An attempt uses the readiness up whatever came of it. One that would
    /// block gives `None`: the caller sees nothing and the readiness primitive
    /// is asked again. Any other outcome goes to the caller as it is.
    pub fn on_attempt<R, E>(&mut self, direction: Direction, attempt: Attempt<R, E>) -> (surfaced:
        Option<Result<R, E>>)
        requires
            old(self).slot(direction) == Readiness::Ready,
        ensures
            final(self).descriptor() == old(self).descriptor(),
            final(self).slot(direction) == Readiness::AwaitingNotification,
            forall|other: Direction|
                other != direction ==> final(self).slot(other) == old(self).slot(other),
            match attempt {
                Attempt::WouldBlock => surfaced is None,
                Attempt::Done(res) => surfaced == Some(res),
            },
    {
        self.set_slot(direction, Readiness::AwaitingNotification);
        match attempt {
            Attempt::WouldBlock => None,
            Attempt::Done(res) => Some(res),
        }
    }

    /// One pass in one direction: `None` when the pass has to be repeated.
    pub fn pass<R, E>(&mut self, direction: Direction, pass: Pass<R, E>) -> (polled: Option<
        Poll<Result<R, E>>,
    >)
        ensures
            polled == pass_result(pass),
            final(self).descriptor() == old(self).descriptor(),
            final(self).slot(direction) == pass_readiness(old(self).slot(direction), pass),
            forall|other: Direction|
                other != direction ==> final(self).slot(other) == old(self).slot(other),
    {
        match pass {
            Pass::NotReady => {
                self.on_readiness::<E>(direction, ReadyPoll::Pending);
                Some(Poll::Pending)
            },
            Pass::Failed(e) => {
                match self.on_readiness(direction, ReadyPoll::Failed(e)) {
                    Next::Fail(e) => Some(Poll::Ready(Err(e))),
                    _ => None,
                }
            },
            Pass::Attempted(attempt) => {
                self.on_readiness::<E>(direction, ReadyPoll::Ready);
                match self.on_attempt(direction, attempt) {
                    Some(res) => Some(Poll::Ready(res)),
                    None => None,
                }
            },
        }
    }

    /// Replays a run of passes in one direction, stopping at the first pass
    /// that does not have to be repeated. `None` when every pass would block:
    /// the operation is still under way.
    pub fn replay<R, E>(&mut self, direction: Direction, passes: Vec<Pass<R, E>>) -> (polled:
        Option<Poll<Result<R, E>>>)
        ensures
            polled == poll_result(passes@),
            final(self).descriptor() == old(self).descriptor(),
            final(self).slot(direction) == poll_readiness(old(self).slot(direction), passes@),
            forall|other: Direction|
                other != direction ==> final(self).slot(other) == old(self).slot(other),
    {
        let mut rest = passes;
        while rest.len() > 0
            invariant
                self.descriptor() == old(self).descriptor(),
                forall|other: Direction|
                    other != direction ==> self.slot(other) == old(self).slot(other),
                poll_result(rest@) == poll_result(passes@),
                poll_readiness(self.slot(direction), rest@) == poll_readiness(
                    old(self).slot(direction),
                    passes@,
                ),
            decreases rest.len(),
        {
            let ghost before = rest@;
            let pass = rest.remove(0);
            assert(rest@ =~= before.skip(1));
            let polled = self.pass(direction, pass);
            if polled.is_some() {
                return polled;
            }
        }
        None
    }

    /// One pass of a read: `None` when the pass has to be repeated.
    pub fn read<R, E>(&mut self, pass: Pass<R, E>) -> (polled: Option<Poll<Result<R, E>>>)
        ensures
            polled == pass_result(pass),
            final(self).descriptor() == old(self).descriptor(),
            final(self).slot(Direction::Read) == pass_readiness(
                old(self).slot(Direction::Read),
                pass,
            ),
            final(self).slot(Direction::Write) == old(self).slot(Direction::Write),
    {
        self.pass(Direction::Read, pass)
    }

    /// One pass of a write: `None` when the pass has to be repeated.
    pub fn write<R, E>(&mut self, pass: Pass<R, E>) -> (polled: Option<Poll<Result<R, E>>>)
        ensures
            polled == pass_result(pass),
            final(self).descriptor() == old(self).descriptor(),
            final(self).slot(Direction::Write) == pass_readiness(
                old(self).slot(Direction::Write),
                pass,
            ),
            final(self).slot(Direction::Read) == old(self).slot(Direction::Read),
    {
        self.pass(Direction::Write, pass)
    }
}

impl<D> AsyncFdWrapper<D> {
    /// Polls a read over a run of passes.
    pub fn poll_read<E>(&mut self, passes: Vec<Pass<usize, E>>) -> (polled: Option<
        Poll<Result<usize, E>>,
    >)
        ensures
            polled == poll_result(passes@),
            final(self).descriptor() == old(self).descriptor(),
            final(self).slot(Direction::Read) == poll_readiness(
                old(self).slot(Direction::Read),
                passes@,
            ),
            final(self).slot(Direction::Write) == old(self).slot(Direction::Write),
    {
        self.replay(Direction::Read, passes)
    }

    /// Polls a write over a run of passes.
    pub fn poll_write<E>(&mut self, passes: Vec<Pass<usize, E>>) -> (polled: Option<
        Poll<Result<usize, E>>,
    >)
        ensures
            polled == poll_result(passes@),
            final(self).descriptor() == old(self).descriptor(),
            final(self).slot(Direction::Write) == poll_readiness(
                old(self).slot(Direction::Write),
                passes@,
            ),
            final(self).slot(Direction::Read) == old(self).slot(Direction::Read),
    {
        self.replay(Direction::Write, passes)
    }

    /// Polls a flush over a run of passes. Flushing goes by write readiness.
    pub fn poll_flush<E>(&mut self, passes: Vec<Pass<(), E>>) -> (polled: Option<
        Poll<Result<(), E>>,
    >)
        ensures
            polled == poll_result(passes@),
            final(self).descriptor() == old(self).descriptor(),
            final(self).slot(Direction::Write) == poll_readiness(
                old(self).slot(Direction::Write),
                passes@,
            ),
            final(self).slot(Direction::Read) == old(self).slot(Direction::Read),
    {
        self.replay(Direction::Write, passes)
    }

    /// Polls a close over a run of passes. Closing is one last flush.
    pub fn poll_close<E>(&mut self, passes: Vec<Pass<(), E>>) -> (polled: Option<
        Poll<Result<(), E>>,
    >)
        ensures
            polled == poll_result(passes@),
            final(self).descriptor() == old(self).descriptor(),
            final(self).slot(Direction::Write) == poll_readiness(
                old(self).slot(Direction::Write),
                passes@,
            ),
            final(self).slot(Direction::Read) == old(self).slot(Direction::Read),
    {
        self.poll_flush(passes)
    }
}

/// A run of `retries` passes that would block, followed by `last`.
pub open spec fn spurious_then<R, E>(retries: nat, last: Pass<R, E>) -> Seq<Pass<R, E>> {
    Seq::new(retries, |i: int| Pass::Attempted(Attempt::WouldBlock)).push(last)
}

/// However many spurious notifications come first, the caller sees exactly
/// what the first pass that does not block gives, and nothing of the
/// retries before it.
pub proof fn lemma_spurious_retries_are_invisible<R, E>(retries: nat, last: Pass<R, E>)
    requires
        pass_result(last) is Some,
    ensures
        poll_result(spurious_then(retries, last)) == pass_result(last),
    decreases retries,
{
    let run = spurious_then(retries, last);
    if retries == 0 {
        assert(run[0] == last);
    } else {
        assert(run[0] == Pass::<R, E>::Attempted(Attempt::WouldBlock));
        assert(run.skip(1) =~= spurious_then((retries - 1) as nat, last));
        lemma_spurious_retries_are_invisible((retries - 1) as nat, last);
    }
}

/// A run in which every pass would block gives the caller nothing: the
/// operation is neither finished nor failed.
pub proof fn lemma_all_spurious_is_unfinished<R, E>(passes: Seq<Pass<R, E>>)
    requires
        forall|i: int| 0 <= i < passes.len() ==> pass_result(#[trigger] passes[i]) is None,
    ensures
        poll_result(passes) is None,
    decreases passes.len(),
{
    if passes.len() > 0 {
        assert forall|i: int| 0 <= i < passes.skip(1).len() implies pass_result(
            #[trigger] passes.skip(1)[i],
        ) is None by {
            assert(passes.skip(1)[i] == passes[i + 1]);
        }
        lemma_all_spurious_is_unfinished(passes.skip(1));
    }
}

/// After any pass the slot is not ready: readiness is never carried over
/// from one attempt to the next, so no attempt is made without asking the
/// readiness primitive first.
pub proof fn lemma_pass_uses_readiness_up<R, E>(before: Readiness, pass: Pass<R, E>)
    requires
        before != Readiness::Ready,
    ensures
        pass_readiness(before, pass) != Readiness::Ready,
{
}

} // verus!
