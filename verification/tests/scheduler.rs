use placer::palette::Color;
use placer::scheduler::{
    cooldown_secs, offset_template, placement_wait_secs, task_step, AccountPool, TaskAction,
    TaskEvent, TaskPhase, COOLDOWN_SECS,
};

#[test]
fn pool_hands_out_each_account_once() {
    let mut pool = AccountPool::new(2);
    let first = pool.checkout().unwrap();
    let second = pool.checkout().unwrap();
    assert_ne!(first, second);
    assert!(first < 2 && second < 2);
    // Both accounts are held: the pool has nothing left to hand out.
    assert_eq!(pool.checkout(), None);
    // A returned account becomes available again.
    pool.give_back(first);
    assert_eq!(pool.checkout(), Some(first));
}

#[test]
fn task_lifecycle_runs_through_all_phases() {
    let wait = cooldown_secs(0);
    let (phase, action) = task_step(TaskPhase::Pending, TaskEvent::AccountGranted { account: 1 }, wait);
    assert_eq!(phase, TaskPhase::AccountAcquired { account: 1 });
    assert_eq!(action, TaskAction::IssueCall { account: 1 });

    let (phase, action) = task_step(phase, TaskEvent::CallIssued, wait);
    assert_eq!(phase, TaskPhase::InFlight { account: 1 });
    assert_eq!(action, TaskAction::AwaitCall { account: 1 });

    let (phase, action) = task_step(phase, TaskEvent::CallFinished { ok: true }, wait);
    assert_eq!(phase, TaskPhase::Cooldown { account: 1 });
    assert_eq!(action, TaskAction::WaitCooldown { account: 1, secs: 300 });

    let (phase, action) = task_step(phase, TaskEvent::CooldownElapsed, wait);
    assert_eq!(phase, TaskPhase::Complete);
    assert_eq!(action, TaskAction::ReleaseAccount { account: 1 });
}

#[test]
fn failed_call_takes_the_same_cooldown_as_a_success() {
    let in_flight = TaskPhase::InFlight { account: 0 };
    let failed = task_step(in_flight, TaskEvent::CallFinished { ok: false }, 307);
    let succeeded = task_step(in_flight, TaskEvent::CallFinished { ok: true }, 307);
    assert_eq!(failed, succeeded);
    assert_eq!(failed.0, TaskPhase::Cooldown { account: 0 });
    assert_eq!(failed.1, TaskAction::WaitCooldown { account: 0, secs: 307 });
}

/// Two accounts, a three-intent template, no looping: exactly three calls
/// are issued, each account's lifecycle windows never overlap, and every
/// task completes.
#[test]
fn three_intents_over_two_accounts_complete_with_three_calls() {
    let mut pool = AccountPool::new(2);
    let mut phases = vec![TaskPhase::Pending; 3];
    let mut held = [false; 2];
    let mut calls_issued = 0;
    let mut rounds = 0;

    while phases.iter().any(|p| *p != TaskPhase::Complete) {
        rounds += 1;
        assert!(rounds < 100, "tasks failed to make progress");
        for i in 0..phases.len() {
            let event = match phases[i] {
                TaskPhase::Complete => continue,
                TaskPhase::Pending => match pool.checkout() {
                    // Pool empty: the placement stays blocked; siblings go on.
                    None => continue,
                    Some(account) => {
                        // The pool never hands an account to two tasks.
                        assert!(!held[account]);
                        held[account] = true;
                        TaskEvent::AccountGranted { account }
                    }
                },
                TaskPhase::AccountAcquired { .. } => TaskEvent::CallIssued,
                // The second task's remote call fails; the others succeed.
                TaskPhase::InFlight { .. } => TaskEvent::CallFinished { ok: i != 1 },
                TaskPhase::Cooldown { .. } => TaskEvent::CooldownElapsed,
            };
            let (next, action) = task_step(phases[i], event, COOLDOWN_SECS);
            phases[i] = next;
            match action {
                TaskAction::IssueCall { account } => {
                    assert!(held[account]);
                    calls_issued += 1;
                }
                TaskAction::ReleaseAccount { account } => {
                    held[account] = false;
                    pool.give_back(account);
                }
                TaskAction::AwaitCall { .. } | TaskAction::WaitCooldown { .. } => {}
            }
        }
    }

    assert_eq!(calls_issued, 3);
    assert!(phases.iter().all(|p| *p == TaskPhase::Complete));
    // Every account came back to the pool, the failed task's included.
    let a = pool.checkout().unwrap();
    let b = pool.checkout().unwrap();
    assert_ne!(a, b);
    assert_eq!(pool.checkout(), None);
}

#[test]
fn cooldown_is_the_base_wait_plus_jitter() {
    assert_eq!(cooldown_secs(0), 300);
    assert_eq!(cooldown_secs(7), 307);
    assert_eq!(placement_wait_secs(0), 300);
    for _ in 0..20 {
        let wait = placement_wait_secs(5);
        assert!((300..=305).contains(&wait));
    }
}

#[test]
fn offsetting_preserves_order_and_shifts_every_intent() {
    let template = vec![(0, 0, Color::Red), (1, 0, Color::Blue), (0, 1, Color::White)];
    let placed = offset_template(&template, 10, -20);
    assert_eq!(
        placed,
        vec![(10, -20, Color::Red), (11, -20, Color::Blue), (10, -19, Color::White)]
    );
}

#[test]
fn offsetting_drops_intents_outside_the_coordinate_range() {
    let template = vec![(i32::MAX, 0, Color::Red), (0, 0, Color::Blue)];
    let placed = offset_template(&template, 1, 0);
    assert_eq!(placed, vec![(1, 0, Color::Blue)]);
}
