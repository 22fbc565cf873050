use server_supervisor::readiness::{
    ProbeAction, ProbeState, ProbeStep, ReadinessProbe, CONNECT_TIMEOUT_MS,
};

/// Drives a wait as the shell does, with the given outcomes of the
/// connection attempts; returns the final action, the number of attempts
/// made and the milliseconds paused.
fn drive(max_retries: u32, interval_ms: u64, results: &[bool]) -> (ProbeAction, u32, u64) {
    let mut probe = ReadinessProbe::new(max_retries, interval_ms);
    let mut action = probe.action();
    let mut connects: u32 = 0;
    let mut paused: u64 = 0;
    loop {
        match action {
            ProbeAction::Connect { attempt, timeout_ms } => {
                assert_eq!(timeout_ms, CONNECT_TIMEOUT_MS);
                assert_eq!(attempt, connects + 1);
                let connected = results[connects as usize];
                connects += 1;
                action = probe.connect_finished(connected);
            }
            ProbeAction::Sleep { millis } => {
                assert_eq!(millis, interval_ms);
                paused += millis;
                action = probe.sleep_finished();
            }
            ProbeAction::Ready { .. } | ProbeAction::GiveUp { .. } => {
                assert!(probe.is_finished());
                return (action, connects, paused);
            }
        }
    }
}

#[test]
fn connect_timeout_is_a_tenth_of_a_second() {
    assert_eq!(CONNECT_TIMEOUT_MS, 100);
}

#[test]
fn fresh_wait_asks_for_the_first_attempt() {
    let probe = ReadinessProbe::new(30, 200);
    assert_eq!(probe.action(), ProbeAction::Connect { attempt: 1, timeout_ms: 100 });
    assert!(!probe.is_finished());
    assert_eq!(
        probe.state(),
        ProbeState { max_retries: 30, interval_ms: 200, attempts: 0, step: ProbeStep::Connect }
    );
}

#[test]
fn wait_without_attempts_gives_up_at_once() {
    let probe = ReadinessProbe::new(0, 200);
    assert_eq!(probe.action(), ProbeAction::GiveUp { attempts: 0 });
    assert!(probe.is_finished());
    assert_eq!(drive(0, 200, &[]), (ProbeAction::GiveUp { attempts: 0 }, 0, 0));
}

#[test]
fn ready_at_the_first_attempt() {
    assert_eq!(drive(30, 200, &[true]), (ProbeAction::Ready { attempt: 1 }, 1, 0));
}

#[test]
fn ready_at_the_first_success() {
    assert_eq!(
        drive(30, 200, &[false, false, true, true]),
        (ProbeAction::Ready { attempt: 3 }, 3, 400)
    );
}

#[test]
fn ready_at_the_last_attempt_allowed() {
    let mut results = vec![false; 29];
    results.push(true);
    assert_eq!(drive(30, 200, &results), (ProbeAction::Ready { attempt: 30 }, 30, 5800));
}

#[test]
fn gives_up_after_the_allowed_attempts() {
    let results = vec![false; 30];
    assert_eq!(drive(30, 200, &results), (ProbeAction::GiveUp { attempts: 30 }, 30, 6000));
}

#[test]
fn never_more_attempts_than_allowed() {
    for max_retries in 0..6u32 {
        let results = vec![false; 10];
        let (action, connects, paused) = drive(max_retries, 7, &results);
        assert_eq!(action, ProbeAction::GiveUp { attempts: max_retries });
        assert_eq!(connects, max_retries);
        assert_eq!(paused, 7 * max_retries as u64);
    }
}

#[test]
fn pause_follows_a_failed_attempt() {
    let mut probe = ReadinessProbe::new(2, 50);
    assert_eq!(probe.connect_finished(false), ProbeAction::Sleep { millis: 50 });
    assert_eq!(probe.state().attempts, 1);
    assert_eq!(probe.state().step, ProbeStep::Sleep);
    assert_eq!(probe.sleep_finished(), ProbeAction::Connect { attempt: 2, timeout_ms: 100 });
    assert_eq!(probe.connect_finished(false), ProbeAction::Sleep { millis: 50 });
    assert_eq!(probe.sleep_finished(), ProbeAction::GiveUp { attempts: 2 });
    assert_eq!(probe.state().step, ProbeStep::TimedOut);
    assert_eq!(probe.state().attempts, 2);
}

#[test]
fn reports_that_are_not_due_change_nothing() {
    let mut probe = ReadinessProbe::new(3, 50);
    let fresh = probe.state();
    assert_eq!(probe.sleep_finished(), ProbeAction::Connect { attempt: 1, timeout_ms: 100 });
    assert_eq!(probe.state(), fresh);

    probe.connect_finished(false);
    let pausing = probe.state();
    assert_eq!(probe.connect_finished(true), ProbeAction::Sleep { millis: 50 });
    assert_eq!(probe.state(), pausing);

    probe.sleep_finished();
    assert_eq!(probe.connect_finished(true), ProbeAction::Ready { attempt: 2 });
    let ready = probe.state();
    assert_eq!(probe.connect_finished(false), ProbeAction::Ready { attempt: 2 });
    assert_eq!(probe.sleep_finished(), ProbeAction::Ready { attempt: 2 });
    assert_eq!(probe.state(), ready);
}

#[test]
fn largest_allowance_does_not_overflow() {
    let mut probe = ReadinessProbe::new(u32::MAX, u64::MAX);
    assert_eq!(probe.connect_finished(false), ProbeAction::Sleep { millis: u64::MAX });
    assert_eq!(probe.sleep_finished(), ProbeAction::Connect { attempt: 2, timeout_ms: 100 });
    assert_eq!(probe.connect_finished(true), ProbeAction::Ready { attempt: 2 });
}
