//! The binary waiter: a single "someone may be parked" flag.
use vstd::prelude::*;

use crate::Wake;

verus! {

/// Bookkeeping of a binary waiter. Its view is the `waiting` flag: set by a
/// thread as it commits to parking, cleared by a notifier once nobody is
/// left in the queue. The flag may be set while nobody is parked, but must
/// never be clear while a thread is parked.
#[derive(Clone, Copy, Debug, PartialEq, Eq, Structural)]
pub struct HookedWaiter {
    waiting: bool,
}

impl View for HookedWaiter {
    type V = bool;

    closed spec fn view(&self) -> bool {
        self.waiting
    }
}

/// The queue request of `notify` for a given flag.
pub open spec fn notify_wake(waiting: bool) -> Wake {
    if waiting { Wake::All } else { Wake::Nobody }
}

/// The queue request of `notify_one` for a given flag.
pub open spec fn notify_one_wake(waiting: bool) -> Wake {
    if waiting { Wake::One } else { Wake::Nobody }
}

/// The flag once a wake-one has been answered by the queue.
pub open spec fn after_wake_one(waiting: bool, have_more_threads: bool) -> bool {
    waiting && have_more_threads
}

impl HookedWaiter {
    /// A waiter that nobody waits on.
    pub fn new() -> (r: Self)
        ensures
            !r@,
    {
        HookedWaiter { waiting: false }
    }

    /// A waiter whose flag is `waiting`.
    pub fn with_waiting(waiting: bool) -> (r: Self)
        ensures
            r@ == waiting,
    {
        HookedWaiter { waiting }
    }

    /// Whether the flag is set.
    pub fn is_waiting(&self) -> (r: bool)
        ensures
            r == self@,
    {
        self.waiting
    }

    /// Wake everyone: the queue is asked to wake all parked threads only
    /// when the flag is set, and the flag is clear afterwards.
    pub fn notify(&mut self) -> (r: Wake)
        ensures
            r == notify_wake(old(self)@),
            !final(self)@,
    {
        if self.waiting {
            self.waiting = false;
            Wake::All
        } else {
            Wake::Nobody
        }
    }

    /// Wake one: the queue is asked to wake a single thread only when the
    /// flag is set. The flag is left alone until the queue has answered
    /// (see `woke_one`).
    pub fn notify_one(&self) -> (r: Wake)
        ensures
            r == notify_one_wake(self@),
    {
        if self.waiting {
            Wake::One
        } else {
            Wake::Nobody
        }
    }

    /// The queue's answer to a wake-one: the flag is cleared exactly when
    /// no other thread remains parked.
    pub fn woke_one(&mut self, have_more_threads: bool)
        ensures
            final(self)@ == after_wake_one(old(self)@, have_more_threads),
    {
        if !have_more_threads {
            self.waiting = false;
        }
    }

    /// The before-sleep step of a thread that has committed to parking.
    pub fn mark_waiting(&mut self)
        ensures
            final(self)@,
    {
        self.waiting = true;
    }
}

/// One step of a binary waiter together with its parking queue, each taken
/// atomically with respect to the queue's internal lock.
#[derive(Clone, Copy, Debug, PartialEq, Eq, Structural)]
pub enum QueueStep {
    /// A thread marks itself waiting and joins the queue.
    Park,
    /// A `notify` call, with the wake-all it may ask for.
    Notify,
    /// A `notify_one` call, with the wake-one it may ask for.
    NotifyOne,
}

/// The flag and the number of parked threads after one step. The queue
/// empties on a wake-all; a wake-one removes one thread, if any, and
/// reports whether others remain.
pub open spec fn step(waiting: bool, parked: nat, s: QueueStep) -> (bool, nat) {
    match s {
        QueueStep::Park => (true, parked + 1),
        QueueStep::Notify => if notify_wake(waiting) == Wake::All {
            (false, 0)
        } else {
            (false, parked)
        },
        QueueStep::NotifyOne => if notify_one_wake(waiting) == Wake::One {
            let left: nat = if parked > 0 { (parked - 1) as nat } else { 0 };
            (after_wake_one(waiting, left > 0), left)
        } else {
            (waiting, parked)
        },
    }
}

/// The flag and the number of parked threads after `steps`, starting from
/// a fresh waiter with an empty queue.
pub open spec fn run(steps: Seq<QueueStep>) -> (bool, nat)
    decreases steps.len(),
{
    if steps.len() == 0 {
        (false, 0)
    } else {
        let before = run(steps.drop_last());
        step(before.0, before.1, steps.last())
    }
}

/// The flag and the number of parked threads after `k` wake-one
/// notifications from the given state.
pub open spec fn notify_one_times(waiting: bool, parked: nat, k: nat) -> (bool, nat)
    decreases k,
{
    if k == 0 {
        (waiting, parked)
    } else {
        let before = notify_one_times(waiting, parked, (k - 1) as nat);
        step(before.0, before.1, QueueStep::NotifyOne)
    }
}

/// Every step keeps parked threads covered by the flag.
proof fn lemma_step_covers(waiting: bool, parked: nat, s: QueueStep)
    requires
        parked > 0 ==> waiting,
    ensures
        step(waiting, parked, s).1 > 0 ==> step(waiting, parked, s).0,
{
}

/// Every reachable state has its parked threads covered by the flag.
proof fn lemma_run_covers(steps: Seq<QueueStep>)
    ensures
        run(steps).1 > 0 ==> run(steps).0,
    decreases steps.len(),
{
    if steps.len() > 0 {
        lemma_run_covers(steps.drop_last());
        let before = run(steps.drop_last());
        lemma_step_covers(before.0, before.1, steps.last());
    }
}

/// No lost wakeup: whatever order threads park and notifiers run in, a
/// thread that is parked is covered by the flag, so the next `notify` asks
/// the queue to wake everyone and leaves nobody parked.
pub proof fn lemma_no_lost_wakeup(steps: Seq<QueueStep>)
    ensures
        run(steps).1 > 0 ==> run(steps).0,
        run(steps).1 > 0 ==> notify_wake(run(steps).0) == Wake::All,
        step(run(steps).0, run(steps).1, QueueStep::Notify).1 == 0,
{
    lemma_run_covers(steps);
}

proof fn lemma_drain_from(waiting: bool, parked: nat, k: nat)
    requires
        parked > 0 ==> waiting,
        0 < k <= parked,
    ensures
        notify_one_times(waiting, parked, k).1 == parked - k,
        notify_one_times(waiting, parked, k).0 <==> k < parked,
    decreases k,
{
    let before = notify_one_times(waiting, parked, (k - 1) as nat);
    if k > 1 {
        lemma_drain_from(waiting, parked, (k - 1) as nat);
    } else {
        assert(before == (waiting, parked));
    }
    assert(notify_one_times(waiting, parked, k) == step(before.0, before.1, QueueStep::NotifyOne));
}

/// Wake-one starves nobody: from any reachable state with `n` threads
/// parked, `k` wake-one notifications (`0 < k <= n`) leave `n - k` parked,
/// and the flag is cleared exactly when the last of them is woken.
pub proof fn lemma_notify_one_drains(steps: Seq<QueueStep>, k: nat)
    requires
        0 < k <= run(steps).1,
    ensures
        notify_one_times(run(steps).0, run(steps).1, k).1 == run(steps).1 - k,
        notify_one_times(run(steps).0, run(steps).1, k).0 <==> k < run(steps).1,
{
    lemma_run_covers(steps);
    lemma_drain_from(run(steps).0, run(steps).1, k);
}

} // verus!
