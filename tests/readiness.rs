use server_supervisor::readiness::{
    probe_is_healthy, timeout_error, ProbeOutcome, ReadinessWait, WaitAction,
    DUPLICATE_CHECK_TIMEOUT_MS, MAX_ATTEMPTS, RETRY_DELAY_MS,
};

/// Drives a wait against probes that answer as `answers` says (and
/// unhealthy once it runs out); returns the final action, the probes made and
/// the milliseconds slept.
fn drive(mut wait: ReadinessWait, answers: &[bool]) -> (WaitAction, u32, u64) {
    let mut probes: u32 = 0;
    let mut slept: u64 = 0;
    let mut action = wait.action();
    loop {
        match action {
            WaitAction::Probe => {
                let healthy = answers.get(probes as usize).copied().unwrap_or(false);
                probes += 1;
                action = wait.record_probe(healthy);
            }
            WaitAction::Sleep { ms } => {
                slept += ms;
                action = wait.record_sleep();
            }
            done => return (done, probes, slept),
        }
    }
}

#[test]
fn probe_health_follows_the_status_class() {
    assert!(probe_is_healthy(ProbeOutcome::Responded { status: 200 }));
    assert!(probe_is_healthy(ProbeOutcome::Responded { status: 204 }));
    assert!(probe_is_healthy(ProbeOutcome::Responded { status: 299 }));
    assert!(!probe_is_healthy(ProbeOutcome::Responded { status: 199 }));
    assert!(!probe_is_healthy(ProbeOutcome::Responded { status: 300 }));
    assert!(!probe_is_healthy(ProbeOutcome::Responded { status: 404 }));
    assert!(!probe_is_healthy(ProbeOutcome::Responded { status: 503 }));
    assert!(!probe_is_healthy(ProbeOutcome::Responded { status: 0 }));
    assert!(!probe_is_healthy(ProbeOutcome::Responded { status: 1200 }));
    assert!(!probe_is_healthy(ProbeOutcome::Failed));
    assert!(!probe_is_healthy(ProbeOutcome::TimedOut));
}

#[test]
fn standard_constants() {
    assert_eq!(MAX_ATTEMPTS, 30);
    assert_eq!(RETRY_DELAY_MS, 500);
    assert_eq!(DUPLICATE_CHECK_TIMEOUT_MS, 1000);
}

#[test]
fn bounded_wait_gives_up_after_thirty_probes() {
    let (action, probes, slept) = drive(ReadinessWait::standard(), &[]);
    assert_eq!(action, WaitAction::GiveUp { attempts: 30 });
    assert_eq!(probes, 30);
    assert_eq!(slept, 14_500);
    assert!(slept + 500 >= 15_000 && slept <= 15_000 + 500);
}

#[test]
fn first_healthy_probe_ends_the_wait() {
    let (action, probes, slept) = drive(ReadinessWait::standard(), &[false, false, true]);
    assert_eq!(action, WaitAction::Ready { attempts: 3 });
    assert_eq!(probes, 3);
    assert_eq!(slept, 1000);
}

#[test]
fn healthy_at_once_needs_no_pause() {
    let (action, probes, slept) = drive(ReadinessWait::new(5, 100), &[true]);
    assert_eq!(action, WaitAction::Ready { attempts: 1 });
    assert_eq!((probes, slept), (1, 0));
}

#[test]
fn zero_attempts_gives_up_at_once() {
    let wait = ReadinessWait::new(0, 500);
    assert_eq!(wait.action(), WaitAction::GiveUp { attempts: 0 });
    let (action, probes, slept) = drive(wait, &[true]);
    assert_eq!(action, WaitAction::GiveUp { attempts: 0 });
    assert_eq!((probes, slept), (0, 0));
}

#[test]
fn single_attempt_never_sleeps() {
    let (action, probes, slept) = drive(ReadinessWait::new(1, 500), &[]);
    assert_eq!(action, WaitAction::GiveUp { attempts: 1 });
    assert_eq!((probes, slept), (1, 0));
}

#[test]
fn finished_wait_ignores_further_events() {
    let mut wait = ReadinessWait::new(2, 10);
    assert_eq!(wait.record_probe(true), WaitAction::Ready { attempts: 1 });
    assert_eq!(wait.record_probe(false), WaitAction::Ready { attempts: 1 });
    assert_eq!(wait.record_sleep(), WaitAction::Ready { attempts: 1 });
    assert_eq!(wait.attempts(), 1);
}

#[test]
fn sleep_only_follows_a_failed_probe() {
    let mut wait = ReadinessWait::new(3, 250);
    assert_eq!(wait.record_sleep(), WaitAction::Probe);
    assert_eq!(wait.record_probe(false), WaitAction::Sleep { ms: 250 });
    assert_eq!(wait.record_probe(true), WaitAction::Sleep { ms: 250 });
    assert_eq!(wait.record_sleep(), WaitAction::Probe);
    assert_eq!(wait.attempts(), 1);
}

#[test]
fn timeout_error_names_url_and_attempts() {
    let e = timeout_error(4567, 30);
    assert_eq!(e.url, "http://localhost:4567/health");
    assert_eq!(e.attempts, 30);
}
