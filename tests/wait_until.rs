use park_waiters::wait_until::{WaitAction, WaitEvent, WaitUntil};
use park_waiters::ValidateResult;

/// Drives the loop with a condition that always looks done and the given
/// validation answers; returns the actions asked for, the first included.
fn drive(answers: &[ValidateResult]) -> Vec<WaitAction> {
    let (mut m, mut action) = WaitUntil::start();
    let mut actions = vec![action];
    let mut next_answer = 0;
    while action != WaitAction::Return {
        let event = match action {
            WaitAction::Park { .. } => WaitEvent::Woken,
            WaitAction::CheckDone => WaitEvent::Checked { done: true },
            WaitAction::LockAndValidate => {
                next_answer += 1;
                WaitEvent::Validated(answers[next_answer - 1])
            }
            WaitAction::Unlock => WaitEvent::Unlocked,
            WaitAction::Return => unreachable!(),
        };
        assert!(m.expects(event));
        action = m.next(event);
        actions.push(action);
    }
    assert!(m.is_finished());
    actions
}

fn count_locks(actions: &[WaitAction]) -> usize {
    actions.iter().filter(|a| **a == WaitAction::LockAndValidate).count()
}

fn count_releases(actions: &[WaitAction]) -> usize {
    actions
        .iter()
        .filter(|a| matches!(a, WaitAction::Unlock | WaitAction::Park { release_lock: true }))
        .count()
}

#[test]
fn three_retries_then_success_take_four_lock_cycles() {
    let r = ValidateResult::Retry;
    let actions = drive(&[r, r, r, ValidateResult::Success]);
    assert_eq!(count_locks(&actions), 4);
    assert_eq!(count_releases(&actions), 4);
    assert_eq!(actions.last(), Some(&WaitAction::Return));
    assert_eq!(actions.iter().filter(|a| **a == WaitAction::Return).count(), 1);
}

#[test]
fn immediate_success_returns_holding_the_lock() {
    let actions = drive(&[ValidateResult::Success]);
    assert_eq!(
        actions,
        vec![
            WaitAction::Park { release_lock: true },
            WaitAction::CheckDone,
            WaitAction::LockAndValidate,
            WaitAction::Return,
        ]
    );
}

#[test]
fn abort_with_hook_unlocks_before_returning() {
    let actions = drive(&[ValidateResult::Abort { run_hook: true }]);
    assert_eq!(&actions[2..], &[WaitAction::LockAndValidate, WaitAction::Unlock, WaitAction::Return]);
}

#[test]
fn abort_without_hook_returns_at_once() {
    let actions = drive(&[ValidateResult::Retry, ValidateResult::Abort { run_hook: false }]);
    assert_eq!(
        &actions[2..],
        &[
            WaitAction::LockAndValidate,
            WaitAction::Unlock,
            WaitAction::CheckDone,
            WaitAction::LockAndValidate,
            WaitAction::Return,
        ]
    );
}

#[test]
fn not_done_parks_again_without_releasing() {
    let (mut m, first) = WaitUntil::start();
    assert_eq!(first, WaitAction::Park { release_lock: true });
    assert_eq!(m.next(WaitEvent::Woken), WaitAction::CheckDone);
    assert_eq!(m.next(WaitEvent::Checked { done: false }), WaitAction::Park { release_lock: false });
    assert!(!m.expects(WaitEvent::Unlocked));
    assert_eq!(m.next(WaitEvent::Woken), WaitAction::CheckDone);
    assert_eq!(m.next(WaitEvent::Checked { done: true }), WaitAction::LockAndValidate);
    assert_eq!(m.next(WaitEvent::Validated(ValidateResult::Success)), WaitAction::Return);
    assert!(m.is_finished());
}
