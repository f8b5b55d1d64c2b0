//! The counting waiter: the binary waiter's flag plus a generation counter
//! that every notification advances, so that a waiter holding a token can
//! tell whether a notification came since the token was taken.
use vstd::prelude::*;

use crate::hooked_waiter::{after_wake_one, notify_one_wake, notify_wake, HookedWaiter};
use crate::Wake;

verus! {

/// A snapshot of the generation counter, taken before waiting.
#[derive(Clone, Copy, Debug, PartialEq, Eq, Structural)]
pub struct CountingToken(u64);

impl View for CountingToken {
    type V = u64;

    closed spec fn view(&self) -> u64 {
        self.0
    }
}

impl CountingToken {
    /// The generation this token was taken at.
    pub fn value(&self) -> (r: u64)
        ensures
            r == self@,
    {
        self.0
    }
}

/// The generation counter is at its largest value: one more notification
/// would wrap it and break the ordering of tokens.
#[derive(Clone, Copy, Debug, PartialEq, Eq, Structural)]
pub struct CounterExhausted;

/// The generation that follows `generation`, if it does not overflow.
pub open spec fn advanced(generation: u64) -> Option<u64> {
    if generation < u64::MAX {
        Some((generation + 1) as u64)
    } else {
        None
    }
}

/// A token wait parks exactly when no notification has moved the
/// generation past the token.
pub open spec fn must_park(generation: u64, token: u64) -> bool {
    generation <= token
}

/// Bookkeeping of a counting waiter: a generation counter that starts at 1
/// and is never 0, and the binary waiter's `waiting` flag.
#[derive(Clone, Copy, Debug, PartialEq, Eq, Structural)]
pub struct CountingWaiter {
    generation: u64,
    flag: HookedWaiter,
}

impl CountingWaiter {
    /// The live generation.
    pub closed spec fn generation(&self) -> u64 {
        self.generation
    }

    /// The `waiting` flag.
    pub closed spec fn waiting(&self) -> bool {
        self.flag@
    }

    /// Well-formedness: the generation is never 0.
    pub closed spec fn wf(&self) -> bool {
        self.generation != 0
    }

    /// The generation counter's rule: advance by exactly one, and refuse to
    /// wrap past the largest value.
    pub fn next_generation(generation: u64) -> (r: Option<u64>)
        ensures
            r == advanced(generation),
    {
        if generation < u64::MAX {
            Some(generation + 1)
        } else {
            None
        }
    }

    /// A fresh waiter: generation 1, nobody waiting.
    pub fn new() -> (r: Self)
        ensures
            r.wf(),
            r.generation() == 1,
            !r.waiting(),
    {
        CountingWaiter { generation: 1, flag: HookedWaiter::new() }
    }

    /// A waiter whose counter starts at `generation`, nobody waiting; none
    /// for 0, which no generation ever is.
    pub fn with_generation(generation: u64) -> (r: Option<Self>)
        ensures
            r is Some <==> generation != 0,
            r matches Some(w) ==> w.wf() && w.generation() == generation && !w.waiting(),
    {
        if generation == 0 {
            None
        } else {
            Some(CountingWaiter { generation, flag: HookedWaiter::new() })
        }
    }

    /// The live generation, as a token.
    pub fn token(&self) -> (r: CountingToken)
        ensures
            r@ == self.generation(),
    {
        CountingToken(self.generation)
    }

    /// Whether the `waiting` flag is set.
    pub fn is_waiting(&self) -> (r: bool)
        ensures
            r == self.waiting(),
    {
        self.flag.is_waiting()
    }

    /// Wake everyone: advance the generation by one, then ask the queue for
    /// a wake-all when the flag is set, clearing it. At the largest
    /// generation nothing changes and the exhaustion is reported.
    pub fn notify(&mut self) -> (r: Result<Wake, CounterExhausted>)
        requires
            old(self).wf(),
        ensures
            final(self).wf(),
            advanced(old(self).generation()) is None ==> r == Err::<Wake, CounterExhausted>(
                CounterExhausted,
            ) && *final(self) == *old(self),
            advanced(old(self).generation()) matches Some(g) ==> r == Ok::<
                Wake,
                CounterExhausted,
            >(notify_wake(old(self).waiting())) && final(self).generation() == g
                && !final(self).waiting(),
    {
        match Self::next_generation(self.generation) {
            None => Err(CounterExhausted),
            Some(g) => {
                self.generation = g;
                Ok(self.flag.notify())
            },
        }
    }

    /// Wake one: advance the generation by one, then ask the queue for a
    /// wake-one when the flag is set; the flag waits for the queue's answer
    /// (see `woke_one`). At the largest generation nothing changes and the
    /// exhaustion is reported.
    pub fn notify_one(&mut self) -> (r: Result<Wake, CounterExhausted>)
        requires
            old(self).wf(),
        ensures
            final(self).wf(),
            advanced(old(self).generation()) is None ==> r == Err::<Wake, CounterExhausted>(
                CounterExhausted,
            ) && *final(self) == *old(self),
            advanced(old(self).generation()) matches Some(g) ==> r == Ok::<
                Wake,
                CounterExhausted,
            >(notify_one_wake(old(self).waiting())) && final(self).generation() == g
                && final(self).waiting() == old(self).waiting(),
    {
        match Self::next_generation(self.generation) {
            None => Err(CounterExhausted),
            Some(g) => {
                self.generation = g;
                Ok(self.flag.notify_one())
            },
        }
    }

    /// The queue's answer to a wake-one: the flag is cleared exactly when
    /// no other thread remains parked.
    pub fn woke_one(&mut self, have_more_threads: bool)
        requires
            old(self).wf(),
        ensures
            final(self).wf(),
            final(self).generation() == old(self).generation(),
            final(self).waiting() == after_wake_one(old(self).waiting(), have_more_threads),
    {
        self.flag.woke_one(have_more_threads);
    }

    /// The validation step of a token wait. When a notification has moved
    /// the generation past `token` the caller returns at once; otherwise
    /// the flag is set and the caller parks. Either way the token is
    /// brought to the live generation (a parked caller takes it again once
    /// woken).
    pub fn wait_token(&mut self, token: &mut CountingToken) -> (park: bool)
        requires
            old(self).wf(),
        ensures
            final(self).wf(),
            park == must_park(old(self).generation(), old(token)@),
            final(self).generation() == old(self).generation(),
            final(self).waiting() == (old(self).waiting() || park),
            final(token)@ == old(self).generation(),
    {
        let park = self.generation <= token.0;
        if park {
            self.flag.mark_waiting();
        }
        *token = CountingToken(self.generation);
        park
    }
}

/// The generation after `n` notifications, of either kind, from
/// `generation`; none once one of them would overflow.
pub open spec fn after_notifies(generation: u64, n: nat) -> Option<u64>
    decreases n,
{
    if n == 0 {
        Some(generation)
    } else {
        match after_notifies(generation, (n - 1) as nat) {
            Some(g) => advanced(g),
            None => None,
        }
    }
}

/// Tokens count notifications: from any valid generation, every
/// notification moves the generation up by exactly one, so the tokens read
/// in between strictly increase and are never 0; the only failure is
/// running out of values.
pub proof fn lemma_tokens_count_notifies(generation: u64, n: nat)
    requires
        generation != 0,
    ensures
        generation + n <= u64::MAX ==> after_notifies(generation, n) == Some(
            (generation + n) as u64,
        ),
        generation + n > u64::MAX ==> after_notifies(generation, n) is None,
        after_notifies(generation, n) matches Some(g) ==> g != 0,
        after_notifies(generation, n + 1) matches Some(h) ==> (after_notifies(
            generation,
            n,
        ) matches Some(g) && h == g + 1),
    decreases n,
{
    if n > 0 {
        lemma_tokens_count_notifies(generation, (n - 1) as nat);
    }
    assert(after_notifies(generation, n + 1) == match after_notifies(generation, n) {
        Some(g) => advanced(g),
        None => None::<u64>,
    });
}

/// A token wait never waits again on a generation it has consumed: with a
/// token that the generation has moved past it does not park, and the
/// token it leaves is the live generation. With that token a later wait
/// parks until the next notification, after which it returns at once.
pub proof fn lemma_stale_token_never_parks(generation: u64, token: u64)
    requires
        token < generation,
    ensures
        !must_park(generation, token),
        must_park(generation, generation),
        advanced(generation) matches Some(g) ==> !must_park(g, generation),
{
}

} // verus!
