use biliticket::executor::{
    backoff_delay, exec_init, exec_step, AttemptOutcome, ExecAction, ExecEvent, ExecPhase,
    RetryPolicy,
};
use biliticket::taskmanager::{GrabTicketRequest, IdBind, TaskManager, TaskRequest, TaskStatus};

fn policy(max_attempts: u32) -> RetryPolicy {
    RetryPolicy {
        max_attempts,
        base_delay_ms: 100,
        max_delay_ms: 6400,
    }
}

#[test]
fn future_start_waits_without_attempt() {
    let (phase, action) = exec_init(Some(5000), 1000);
    assert!(matches!(phase, ExecPhase::Waiting { until: 5000 }));
    assert_eq!(action, ExecAction::SleepUntil { deadline: 5000 });
}

#[test]
fn past_or_absent_start_attempts_at_once() {
    let (phase, action) = exec_init(Some(1000), 5000);
    assert!(matches!(phase, ExecPhase::Attempting { attempts_made: 0 }));
    assert_eq!(action, ExecAction::AttemptPurchase);
    let (phase2, action2) = exec_init(None, 0);
    assert!(matches!(phase2, ExecPhase::Attempting { attempts_made: 0 }));
    assert_eq!(action2, ExecAction::AttemptPurchase);
}

#[test]
fn cancel_during_wait_yields_cancelled_with_no_attempt() {
    let p = policy(3);
    let (phase, _) = exec_init(Some(5000), 1000);
    let (next, action) = exec_step(&p, phase, ExecEvent::CancelObserved, 0);
    match next {
        ExecPhase::Finished { status, message } => {
            assert_eq!(status, TaskStatus::Cancelled);
            assert_eq!(message, "cancelled before start");
        }
        _ => panic!("expected a finished phase"),
    }
    assert_eq!(action, ExecAction::Idle);
}

#[test]
fn early_time_check_keeps_waiting() {
    let p = policy(3);
    let (phase, _) = exec_init(Some(5000), 1000);
    let (next, action) = exec_step(&p, phase, ExecEvent::TimeCheck { now: 4999 }, 0);
    assert!(matches!(next, ExecPhase::Waiting { until: 5000 }));
    assert_eq!(action, ExecAction::SleepUntil { deadline: 5000 });
}

#[test]
fn due_time_check_starts_attempting() {
    let p = policy(3);
    let (phase, _) = exec_init(Some(5000), 1000);
    let (next, action) = exec_step(&p, phase, ExecEvent::TimeCheck { now: 5000 }, 0);
    assert!(matches!(next, ExecPhase::Attempting { attempts_made: 0 }));
    assert_eq!(action, ExecAction::AttemptPurchase);
}

#[test]
fn confirmed_attempt_succeeds_and_notifies() {
    let p = policy(3);
    let (phase, _) = exec_init(None, 0);
    let (next, action) = exec_step(
        &p,
        phase,
        ExecEvent::AttemptDone {
            outcome: AttemptOutcome::Confirmed,
        },
        0,
    );
    match next {
        ExecPhase::Finished { status, message } => {
            assert_eq!(status, TaskStatus::Succeeded);
            assert_eq!(message, "ticket secured");
        }
        _ => panic!("expected a finished phase"),
    }
    assert_eq!(action, ExecAction::Notify);
}

#[test]
fn permanent_failure_ends_without_retry() {
    let p = policy(3);
    let (phase, _) = exec_init(None, 0);
    let (next, action) = exec_step(
        &p,
        phase,
        ExecEvent::AttemptDone {
            outcome: AttemptOutcome::Permanent {
                reason: "sold out".to_string(),
            },
        },
        0,
    );
    match next {
        ExecPhase::Finished { status, message } => {
            assert_eq!(status, TaskStatus::Failed);
            assert_eq!(message, "purchase failed: sold out");
        }
        _ => panic!("expected a finished phase"),
    }
    assert_eq!(action, ExecAction::Notify);
}

#[test]
fn transient_failures_exhaust_the_budget() {
    let p = policy(3);
    let (mut phase, mut action) = exec_init(None, 0);
    let mut attempts = 0u32;
    loop {
        match action {
            ExecAction::AttemptPurchase | ExecAction::RetryAfter { .. } => {
                attempts += 1;
                let (next, a) = exec_step(
                    &p,
                    phase,
                    ExecEvent::AttemptDone {
                        outcome: AttemptOutcome::Transient {
                            reason: "rate limited".to_string(),
                        },
                    },
                    17,
                );
                phase = next;
                action = a;
            }
            _ => break,
        }
        assert!(attempts <= 3, "attempt count must stay within the budget");
    }
    assert_eq!(attempts, 3);
    match phase {
        ExecPhase::Finished { status, message } => {
            assert_eq!(status, TaskStatus::Failed);
            assert_eq!(
                message,
                "retry budget exhausted after 3 attempts: rate limited"
            );
        }
        _ => panic!("expected a finished phase"),
    }
    assert_eq!(action, ExecAction::Notify);
}

#[test]
fn cancel_between_attempts_yields_cancelled() {
    let p = policy(5);
    let (phase, _) = exec_init(None, 0);
    let (phase, action) = exec_step(
        &p,
        phase,
        ExecEvent::AttemptDone {
            outcome: AttemptOutcome::Transient {
                reason: "timeout".to_string(),
            },
        },
        0,
    );
    assert!(matches!(action, ExecAction::RetryAfter { .. }));
    let (next, action) = exec_step(&p, phase, ExecEvent::CancelObserved, 0);
    match next {
        ExecPhase::Finished { status, message } => {
            assert_eq!(status, TaskStatus::Cancelled);
            assert_eq!(message, "cancelled before next attempt");
        }
        _ => panic!("expected a finished phase"),
    }
    assert_eq!(action, ExecAction::Idle);
}

#[test]
fn finished_phase_absorbs_events() {
    let p = policy(2);
    let (phase, _) = exec_init(None, 0);
    let (phase, _) = exec_step(
        &p,
        phase,
        ExecEvent::AttemptDone {
            outcome: AttemptOutcome::Confirmed,
        },
        0,
    );
    let (next, action) = exec_step(&p, phase, ExecEvent::CancelObserved, 0);
    match next {
        ExecPhase::Finished { status, .. } => assert_eq!(status, TaskStatus::Succeeded),
        _ => panic!("terminal phase must not change"),
    }
    assert_eq!(action, ExecAction::Idle);
}

#[test]
fn backoff_doubles_then_caps() {
    let p = policy(10);
    assert_eq!(backoff_delay(&p, 0, 0), 100);
    assert_eq!(backoff_delay(&p, 1, 0), 200);
    assert_eq!(backoff_delay(&p, 3, 0), 800);
    assert_eq!(backoff_delay(&p, 6, 0), 6400);
    assert_eq!(backoff_delay(&p, 30, 0), 6400);
}

#[test]
fn backoff_jitter_subtracts_at_most_half() {
    let p = policy(10);
    for jitter in [0u64, 1, 7, 99, 100, 1000, u64::MAX] {
        let d = backoff_delay(&p, 3, jitter);
        assert!(d >= 400 && d <= 800, "delay {} out of the jitter window", d);
    }
    assert_eq!(backoff_delay(&p, 3, 401), 800 - 401 % 401);
}

#[test]
fn scheduled_purchase_walks_to_terminal_state() {
    let start = 2000u64;
    let mut m = TaskManager::new();
    let buyers = vec![
        biliticket::taskmanager::BuyerInfo {
            id: 1,
            name: "a".to_string(),
            tel: "1".to_string(),
            personal_id: "x".to_string(),
            id_type: 0,
        },
        biliticket::taskmanager::BuyerInfo {
            id: 2,
            name: "b".to_string(),
            tel: "2".to_string(),
            personal_id: "y".to_string(),
            id_type: 0,
        },
    ];
    let id = m
        .submit_task(
            TaskRequest::GrabTicketRequest(GrabTicketRequest {
                uid: 42,
                project_id: "85939".to_string(),
                screen_id: "1".to_string(),
                ticket_id: "7".to_string(),
                count: 2,
                buyer_info: buyers,
                no_bind_buyer: None,
                id_bind: IdBind::PerSeatRealName,
                grab_mode: 0,
                start_time: Some(start),
                session: 1,
                captcha: 1,
                skip_words: Vec::new(),
            }),
            0,
        )
        .unwrap();
    assert_eq!(m.query_status(id), Some(TaskStatus::Pending));

    let p = policy(3);
    let (phase, action) = exec_init(Some(start), 0);
    assert_eq!(action, ExecAction::SleepUntil { deadline: start });
    assert_eq!(m.query_status(id), Some(TaskStatus::Pending));

    let (phase, action) = exec_step(&p, phase, ExecEvent::TimeCheck { now: start + 1 }, 0);
    assert_eq!(action, ExecAction::AttemptPurchase);
    assert!(m.update_status(id, TaskStatus::Running, None));
    assert_eq!(m.query_status(id), Some(TaskStatus::Running));

    let (phase, action) = exec_step(
        &p,
        phase,
        ExecEvent::AttemptDone {
            outcome: AttemptOutcome::Confirmed,
        },
        0,
    );
    assert_eq!(action, ExecAction::Notify);
    match phase {
        ExecPhase::Finished { status, message } => {
            assert!(!message.is_empty());
            assert!(m.update_status(id, status, Some(message)));
        }
        _ => panic!("expected a finished phase"),
    }
    assert_eq!(m.query_status(id), Some(TaskStatus::Succeeded));
}
