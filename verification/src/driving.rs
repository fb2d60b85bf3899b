//! A synchronous driver for poll-based computations.
//!
//! A suspended computation is a value that can repeatedly be asked, via
//! `poll_once`, whether it is done; the answer is either "still pending" or
//! "ready with the final value".  `drive` and `block_on` advance such a
//! computation to completion on the calling thread by polling it in a
//! busy-spin loop: no sleeping, no backoff, and no external wake
//! notification of any kind.  The loop is therefore only suitable for
//! computations that become ready through their own polls; one that waits
//! for an outside signal would spin forever.

use vstd::prelude::*;

verus! {

/// The answer a suspended computation gives to one poll.
pub enum PollStatus<T> {
    /// The computation is not done yet; poll again.
    Pending,
    /// The computation finished and produced this value.
    Ready(T),
}

/// A suspended computation that a busy-spin loop can drive to completion.
///
/// The specification functions model the computation's visible behaviour:
/// it answers "pending" to exactly `pending_polls()` more polls, then
/// answers "ready" with `result_value()`.  Once it has reported ready,
/// `completed()` holds and it must never be polled again.
pub trait BlockOn: Sized {
    /// The value the computation eventually produces.
    type Output;

    /// True once the computation has reported ready.  A completed
    /// computation must not be polled again.
    spec fn completed(&self) -> bool;

    /// How many more polls will be answered "pending" before the
    /// computation reports ready.
    spec fn pending_polls(&self) -> nat;

    /// The value the computation will hand out when it reports ready.
    spec fn result_value(&self) -> Self::Output;

    /// How many polls the computation has answered so far.
    spec fn polls_answered(&self) -> nat;

    /// Ask the computation once whether it is done.
    fn poll_once(&mut self) -> (step: PollStatus<Self::Output>)
        requires
            !old(self).completed(),
        ensures
            final(self).polls_answered() == old(self).polls_answered() + 1,
            old(self).pending_polls() == 0 ==> {
                &&& final(self).completed()
                &&& step == PollStatus::Ready(old(self).result_value())
            },
            old(self).pending_polls() > 0 ==> {
                &&& !final(self).completed()
                &&& step == PollStatus::<Self::Output>::Pending
                &&& final(self).pending_polls() == old(self).pending_polls() - 1
                &&& final(self).result_value() == old(self).result_value()
            },
    ;

    /// Poll the computation in a busy-spin loop until it reports ready,
    /// and return the value it produced.  The computation is polled
    /// exactly once more than it answers "pending": never again after it
    /// reports ready, and never skipping a first poll of one that is
    /// immediately ready.
    fn drive(&mut self) -> (value: Self::Output)
        requires
            !old(self).completed(),
        ensures
            final(self).completed(),
            value == old(self).result_value(),
            final(self).polls_answered() == old(self).polls_answered() + old(self).pending_polls()
                + 1,
    {
        loop
            invariant
                !self.completed(),
                self.result_value() == old(self).result_value(),
                self.polls_answered() + self.pending_polls() == old(self).polls_answered() + old(
                    self,
                ).pending_polls(),
            decreases self.pending_polls(),
        {
            match self.poll_once() {
                PollStatus::Ready(value) => {
                    return value;
                },
                PollStatus::Pending => {
                },
            }
        }
    }

    /// Consume the computation and drive it to completion, returning the
    /// value it produced.
    fn block_on(self) -> (value: Self::Output)
        requires
            !self.completed(),
        ensures
            value == self.result_value(),
    {
        let mut computation = self;
        computation.drive()
    }
}

/// A suspended computation that answers "pending" a fixed number of times
/// and is then ready with a stored value.  It counts the polls it answers,
/// so a caller can observe how often the driver polled it.
pub struct Countdown<T> {
    remaining: u64,
    value: T,
    polls: u64,
    done: bool,
}

impl<T> Countdown<T> {
    #[verifier::type_invariant]
    spec fn wf(self) -> bool {
        !self.done ==> self.polls + self.remaining < u64::MAX
    }
}

impl<T: Copy> Countdown<T> {
    /// A computation that will answer "pending" `pending` times before it
    /// is ready with `value`.  With `pending == 0` it is ready on the very
    /// first poll.
    pub fn new(pending: u64, value: T) -> (c: Self)
        requires
            pending < u64::MAX,
        ensures
            !c.completed(),
            c.pending_polls() == pending,
            c.result_value() == value,
            c.polls_answered() == 0,
    {
        Countdown { remaining: pending, value, polls: 0, done: false }
    }

    /// How many polls this computation has answered so far.
    pub fn poll_count(&self) -> (n: u64)
        ensures
            n == self.polls_answered(),
    {
        self.polls
    }
}

impl<T: Copy> BlockOn for Countdown<T> {
    type Output = T;

    closed spec fn completed(&self) -> bool {
        self.done
    }

    closed spec fn pending_polls(&self) -> nat {
        self.remaining as nat
    }

    closed spec fn result_value(&self) -> T {
        self.value
    }

    closed spec fn polls_answered(&self) -> nat {
        self.polls as nat
    }

    fn poll_once(&mut self) -> (step: PollStatus<T>) {
        proof {
            use_type_invariant(&*self);
        }
        if self.remaining == 0 {
            self.done = true;
            self.polls = self.polls + 1;
            PollStatus::Ready(self.value)
        } else {
            self.remaining = self.remaining - 1;
            self.polls = self.polls + 1;
            PollStatus::Pending
        }
    }
}

} // verus!
