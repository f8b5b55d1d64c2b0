//! The decisions of the validate-under-lock retry loop: wait until an
//! externally checked condition holds, re-validating it under the caller's
//! lock after every wakeup. The driver performs each action (parking,
//! calling the caller's closures) and answers with the matching event.
use vstd::prelude::*;

use crate::ValidateResult;

verus! {

/// Where the retry loop stands.
#[derive(Clone, Copy, Debug, PartialEq, Eq, Structural)]
pub enum WaitPhase {
    /// Parked, waiting for a notification.
    Parked,
    /// Asking whether the condition may hold (`is_done`).
    Checking,
    /// Taking the lock and re-checking the condition under it.
    Validating,
    /// Releasing the lock; `finish` says whether the loop ends afterwards.
    Releasing { finish: bool },
    /// The loop is over.
    Finished,
}

/// The driver's answer to the pending action.
#[derive(Clone, Copy, Debug, PartialEq, Eq, Structural)]
pub enum WaitEvent {
    /// The park returned.
    Woken,
    /// `is_done` answered.
    Checked { done: bool },
    /// `lock_and_validate` answered.
    Validated(ValidateResult),
    /// `unlock` was called.
    Unlocked,
}

/// What the driver must do next.
#[derive(Clone, Copy, Debug, PartialEq, Eq, Structural)]
pub enum WaitAction {
    /// Park, marking the waiter as waiting before sleep; with
    /// `release_lock`, the caller's `unlock` runs right after the mark.
    Park { release_lock: bool },
    /// Call `is_done`.
    CheckDone,
    /// Call `lock_and_validate`.
    LockAndValidate,
    /// Call `unlock`.
    Unlock,
    /// Return to the caller.
    Return,
}

/// The first action: park, releasing the caller's lock as the commitment
/// to sleep.
pub open spec fn start_action() -> WaitAction {
    WaitAction::Park { release_lock: true }
}

/// The next phase and action for an event, or none when the event does not
/// answer the action pending in `phase`.
pub open spec fn transition(phase: WaitPhase, event: WaitEvent) -> Option<(WaitPhase, WaitAction)> {
    match (phase, event) {
        (WaitPhase::Parked, WaitEvent::Woken) => Some((WaitPhase::Checking, WaitAction::CheckDone)),
        (WaitPhase::Checking, WaitEvent::Checked { done }) => if done {
            Some((WaitPhase::Validating, WaitAction::LockAndValidate))
        } else {
            Some((WaitPhase::Parked, WaitAction::Park { release_lock: false }))
        },
        (WaitPhase::Validating, WaitEvent::Validated(v)) => match v {
            ValidateResult::Success => Some((WaitPhase::Finished, WaitAction::Return)),
            ValidateResult::Abort { run_hook } => if run_hook {
                Some((WaitPhase::Releasing { finish: true }, WaitAction::Unlock))
            } else {
                Some((WaitPhase::Finished, WaitAction::Return))
            },
            ValidateResult::Retry => Some((WaitPhase::Releasing { finish: false }, WaitAction::Unlock)),
        },
        (WaitPhase::Releasing { finish }, WaitEvent::Unlocked) => if finish {
            Some((WaitPhase::Finished, WaitAction::Return))
        } else {
            Some((WaitPhase::Checking, WaitAction::CheckDone))
        },
        _ => None,
    }
}

/// The retry loop's state.
#[derive(Clone, Copy, Debug, PartialEq, Eq, Structural)]
pub struct WaitUntil {
    phase: WaitPhase,
}

impl View for WaitUntil {
    type V = WaitPhase;

    closed spec fn view(&self) -> WaitPhase {
        self.phase
    }
}

impl WaitUntil {
    /// A loop that has just committed to its first park.
    pub fn start() -> (r: (Self, WaitAction))
        ensures
            r.0@ == WaitPhase::Parked,
            r.1 == start_action(),
    {
        (WaitUntil { phase: WaitPhase::Parked }, WaitAction::Park { release_lock: true })
    }

    /// Whether `event` answers the pending action.
    pub fn expects(&self, event: WaitEvent) -> (r: bool)
        ensures
            r == transition(self@, event) is Some,
    {
        match (self.phase, event) {
            (WaitPhase::Parked, WaitEvent::Woken) => true,
            (WaitPhase::Checking, WaitEvent::Checked { .. }) => true,
            (WaitPhase::Validating, WaitEvent::Validated(_)) => true,
            (WaitPhase::Releasing { .. }, WaitEvent::Unlocked) => true,
            _ => false,
        }
    }

    /// Whether the loop is over.
    pub fn is_finished(&self) -> (r: bool)
        ensures
            r == (self@ == WaitPhase::Finished),
    {
        self.phase == WaitPhase::Finished
    }

    /// Take the answer to the pending action and decide the next one:
    /// after a wakeup, ask `is_done`; park again while it says no, else
    /// validate under the lock; on `Success` or `Abort { run_hook: false }`
    /// return; on `Abort { run_hook: true }` unlock, then return; on
    /// `Retry` unlock, then ask `is_done` again.
    pub fn next(&mut self, event: WaitEvent) -> (r: WaitAction)
        requires
            transition(old(self)@, event) is Some,
        ensures
            transition(old(self)@, event) == Some((final(self)@, r)),
    {
        let (phase, action) = match (self.phase, event) {
            (WaitPhase::Parked, WaitEvent::Woken) => (WaitPhase::Checking, WaitAction::CheckDone),
            (WaitPhase::Checking, WaitEvent::Checked { done }) => if done {
                (WaitPhase::Validating, WaitAction::LockAndValidate)
            } else {
                (WaitPhase::Parked, WaitAction::Park { release_lock: false })
            },
            (WaitPhase::Validating, WaitEvent::Validated(v)) => match v {
                ValidateResult::Success => (WaitPhase::Finished, WaitAction::Return),
                ValidateResult::Abort { run_hook } => if run_hook {
                    (WaitPhase::Releasing { finish: true }, WaitAction::Unlock)
                } else {
                    (WaitPhase::Finished, WaitAction::Return)
                },
                ValidateResult::Retry => (WaitPhase::Releasing { finish: false }, WaitAction::Unlock),
            },
            (WaitPhase::Releasing { finish }, WaitEvent::Unlocked) => if finish {
                (WaitPhase::Finished, WaitAction::Return)
            } else {
                (WaitPhase::Checking, WaitAction::CheckDone)
            },
            _ => (self.phase, WaitAction::Return),
        };
        self.phase = phase;
        action
    }
}

/// The final phase and the actions asked for while answering `events` in
/// order from `phase`; none if an event does not answer its action.
pub open spec fn run(phase: WaitPhase, events: Seq<WaitEvent>) -> Option<(WaitPhase, Seq<WaitAction>)>
    decreases events.len(),
{
    if events.len() == 0 {
        Some((phase, Seq::empty()))
    } else {
        match transition(phase, events[0]) {
            Some((next, action)) => match run(next, events.skip(1)) {
                Some((last, actions)) => Some((last, seq![action] + actions)),
                None => None,
            },
            None => None,
        }
    }
}

/// The number of lock acquisitions (`lock_and_validate` calls) in `actions`.
pub open spec fn locks(actions: Seq<WaitAction>) -> nat
    decreases actions.len(),
{
    if actions.len() == 0 {
        0
    } else {
        (if actions[0] == WaitAction::LockAndValidate { 1nat } else { 0nat }) + locks(actions.skip(1))
    }
}

/// The number of lock releases in `actions`: `unlock` calls, and parks that
/// release the lock as they commit to sleep.
pub open spec fn releases(actions: Seq<WaitAction>) -> nat
    decreases actions.len(),
{
    if actions.len() == 0 {
        0
    } else {
        (if actions[0] == WaitAction::Unlock || actions[0] == (WaitAction::Park { release_lock: true }) {
            1nat
        } else {
            0nat
        }) + releases(actions.skip(1))
    }
}

/// The answers, from `Checking`, of a caller whose condition always looks
/// done and whose `lock_and_validate` says `Retry` `k` times, then `Success`.
pub open spec fn retry_events(k: nat) -> Seq<WaitEvent>
    decreases k,
{
    if k == 0 {
        seq![WaitEvent::Checked { done: true }, WaitEvent::Validated(ValidateResult::Success)]
    } else {
        seq![
            WaitEvent::Checked { done: true },
            WaitEvent::Validated(ValidateResult::Retry),
            WaitEvent::Unlocked,
        ] + retry_events((k - 1) as nat)
    }
}

proof fn lemma_counts_prepend(a: WaitAction, rest: Seq<WaitAction>)
    ensures
        locks(seq![a] + rest) == (if a == WaitAction::LockAndValidate { 1nat } else { 0nat }) + locks(rest),
        releases(seq![a] + rest) == (if a == WaitAction::Unlock || a == (WaitAction::Park { release_lock: true }) {
            1nat
        } else {
            0nat
        }) + releases(rest),
{
    assert((seq![a] + rest).skip(1) =~= rest);
}

proof fn lemma_run_prepend(phase: WaitPhase, e: WaitEvent, rest: Seq<WaitEvent>)
    requires
        transition(phase, e) is Some,
    ensures
        run(phase, seq![e] + rest) == match run(transition(phase, e).unwrap().0, rest) {
            Some((last, actions)) => Some((last, seq![transition(phase, e).unwrap().1] + actions)),
            None => None,
        },
{
    assert((seq![e] + rest).skip(1) =~= rest);
}

proof fn lemma_retry_run(k: nat)
    ensures
        run(WaitPhase::Checking, retry_events(k)) matches Some((last, actions)) && last
            == WaitPhase::Finished && locks(actions) == k + 1 && releases(actions) == k
            && actions.len() > 0 && actions.last() == WaitAction::Return && forall|i: int|
            0 <= i < actions.len() - 1 ==> actions[i] != WaitAction::Return,
    decreases k,
{
    let c = WaitEvent::Checked { done: true };
    if k == 0 {
        let v = WaitEvent::Validated(ValidateResult::Success);
        lemma_run_prepend(WaitPhase::Validating, v, Seq::empty());
        assert(seq![v] + Seq::<WaitEvent>::empty() =~= seq![v]);
        lemma_run_prepend(WaitPhase::Checking, c, seq![v]);
        assert(retry_events(0) =~= seq![c] + seq![v]);
        let acts = seq![WaitAction::LockAndValidate] + (seq![WaitAction::Return] + Seq::<WaitAction>::empty());
        lemma_counts_prepend(WaitAction::Return, Seq::empty());
        lemma_counts_prepend(WaitAction::LockAndValidate, seq![WaitAction::Return] + Seq::<WaitAction>::empty());
        assert(run(WaitPhase::Checking, retry_events(0)) == Some((WaitPhase::Finished, acts)));
    } else {
        let v = WaitEvent::Validated(ValidateResult::Retry);
        let u = WaitEvent::Unlocked;
        let rest = retry_events((k - 1) as nat);
        lemma_retry_run((k - 1) as nat);
        let tail = run(WaitPhase::Checking, rest).unwrap().1;
        lemma_run_prepend(WaitPhase::Releasing { finish: false }, u, rest);
        lemma_run_prepend(WaitPhase::Validating, v, seq![u] + rest);
        lemma_run_prepend(WaitPhase::Checking, c, seq![v] + (seq![u] + rest));
        assert(retry_events(k) =~= seq![c] + (seq![v] + (seq![u] + rest)));
        let a2 = seq![WaitAction::CheckDone] + tail;
        let a1 = seq![WaitAction::Unlock] + a2;
        let acts = seq![WaitAction::LockAndValidate] + a1;
        lemma_counts_prepend(WaitAction::CheckDone, tail);
        lemma_counts_prepend(WaitAction::Unlock, a2);
        lemma_counts_prepend(WaitAction::LockAndValidate, a1);
        assert(run(WaitPhase::Checking, retry_events(k)) == Some((WaitPhase::Finished, acts)));
        assert forall|i: int| 0 <= i < acts.len() - 1 implies acts[i] != WaitAction::Return by {
            if i >= 3 {
                assert(acts[i] == tail[i - 3]);
            }
        }
    }
}

/// The retry loop re-validates until it succeeds: when `is_done` always
/// says yes and `lock_and_validate` says `Retry` `k` times, then `Success`,
/// the loop (its first park included) takes the lock `k + 1` times,
/// releases it `k + 1` times, and returns only after the `Success`.
pub proof fn lemma_retry_cycles(k: nat)
    ensures
        run(WaitPhase::Parked, seq![WaitEvent::Woken] + retry_events(k)) matches Some(
            (last, actions),
        ) && last == WaitPhase::Finished && locks(seq![start_action()] + actions) == k + 1
            && releases(seq![start_action()] + actions) == k + 1 && actions.last()
            == WaitAction::Return && forall|i: int|
            0 <= i < actions.len() - 1 ==> actions[i] != WaitAction::Return,
{
    lemma_retry_run(k);
    lemma_run_prepend(WaitPhase::Parked, WaitEvent::Woken, retry_events(k));
    let tail = run(WaitPhase::Checking, retry_events(k)).unwrap().1;
    let acts = seq![WaitAction::CheckDone] + tail;
    lemma_counts_prepend(WaitAction::CheckDone, tail);
    lemma_counts_prepend(start_action(), acts);
    assert forall|i: int| 0 <= i < acts.len() - 1 implies acts[i] != WaitAction::Return by {
        if i >= 1 {
            assert(acts[i] == tail[i - 1]);
        }
    }
}

} // verus!
