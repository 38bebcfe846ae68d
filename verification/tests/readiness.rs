use service_supervisor::probe::ProbeOutcome;
use service_supervisor::readiness::{
    progress_percent, ProberStep, Readiness, ReadinessProber, TimeoutError, DEFAULT_INTERVAL_MS,
    DEFAULT_MAX_ATTEMPTS, PROGRESS_BASE, PROGRESS_CAP, PROGRESS_READY, PROGRESS_STEP,
};

fn prober(max_attempts: u32) -> ReadinessProber {
    ReadinessProber::new("http://127.0.0.1:7860".to_string(), max_attempts, 300)
}

#[test]
fn ramp_values() {
    assert_eq!(progress_percent(0), 10);
    assert_eq!(progress_percent(1), 13);
    assert_eq!(progress_percent(2), 16);
    assert_eq!(progress_percent(10), 40);
    assert_eq!(progress_percent(28), 94);
    assert_eq!(progress_percent(29), 95);
    assert_eq!(progress_percent(30), 95);
    assert_eq!(progress_percent(u32::MAX), 95);
}

#[test]
fn ramp_constants() {
    assert_eq!(PROGRESS_BASE, 10);
    assert_eq!(PROGRESS_STEP, 3);
    assert_eq!(PROGRESS_CAP, 95);
    assert_eq!(PROGRESS_READY, 100);
    assert_eq!(DEFAULT_MAX_ATTEMPTS, 30);
    assert_eq!(DEFAULT_INTERVAL_MS, 300);
}

#[test]
fn ramp_never_goes_down() {
    let mut last = 0;
    for attempt in 0..200u32 {
        let now = progress_percent(attempt);
        assert!(now >= last);
        assert!(now < PROGRESS_READY);
        last = now;
    }
}

#[test]
fn status_classes() {
    assert!(!ProbeOutcome::Unreachable.succeeded());
    assert!(!ProbeOutcome::Status(0).succeeded());
    assert!(!ProbeOutcome::Status(99).succeeded());
    assert!(!ProbeOutcome::Status(100).succeeded());
    assert!(!ProbeOutcome::Status(199).succeeded());
    assert!(ProbeOutcome::Status(200).succeeded());
    assert!(ProbeOutcome::Status(204).succeeded());
    assert!(ProbeOutcome::Status(299).succeeded());
    assert!(!ProbeOutcome::Status(300).succeeded());
    assert!(!ProbeOutcome::Status(404).succeeded());
    assert!(!ProbeOutcome::Status(500).succeeded());
    assert!(!ProbeOutcome::Status(999).succeeded());
    assert!(!ProbeOutcome::Status(1200).succeeded());
    assert!(!ProbeOutcome::Status(u16::MAX).succeeded());
}

#[test]
fn new_prober_is_pending() {
    let p = prober(30);
    assert_eq!(p.url(), "http://127.0.0.1:7860");
    assert_eq!(p.interval_ms(), 300);
    assert_eq!(p.max_attempts(), 30);
    assert_eq!(p.attempts(), 0);
    assert_eq!(p.readiness(), Readiness::Pending);
    assert_eq!(p.step(), ProberStep::Probe);
}

#[test]
fn first_success_ends_the_wait() {
    let mut p = prober(30);
    let seen = p.observe(ProbeOutcome::Unreachable).unwrap();
    assert_eq!(seen.event.percent, 13);
    assert_eq!(seen.event.message, "Starting engine...");
    assert_eq!(seen.pause_ms, Some(300));
    assert_eq!(p.step(), ProberStep::Probe);
    let seen = p.observe(ProbeOutcome::Status(503)).unwrap();
    assert_eq!(seen.event.percent, 16);
    assert_eq!(seen.pause_ms, Some(300));
    let seen = p.observe(ProbeOutcome::Status(200)).unwrap();
    assert_eq!(seen.event.percent, 100);
    assert_eq!(seen.event.message, "Engine ready");
    assert_eq!(seen.pause_ms, None);
    assert_eq!(p.attempts(), 3);
    assert_eq!(p.readiness(), Readiness::Ready);
    assert_eq!(p.step(), ProberStep::Finished(Ok(())));
}

#[test]
fn nothing_is_counted_after_success() {
    let mut p = prober(30);
    assert!(p.observe(ProbeOutcome::Status(200)).is_some());
    assert!(p.observe(ProbeOutcome::Status(200)).is_none());
    assert!(p.observe(ProbeOutcome::Unreachable).is_none());
    assert_eq!(p.attempts(), 1);
    assert_eq!(p.step(), ProberStep::Finished(Ok(())));
}

#[test]
fn success_publishes_exactly_one_hundred_once() {
    let mut p = prober(30);
    let mut percents = Vec::new();
    let outcomes = [
        ProbeOutcome::Unreachable,
        ProbeOutcome::Status(500),
        ProbeOutcome::Unreachable,
        ProbeOutcome::Status(201),
        ProbeOutcome::Status(200),
        ProbeOutcome::Status(200),
    ];
    for outcome in outcomes {
        if let Some(seen) = p.observe(outcome) {
            percents.push(seen.event.percent);
        }
    }
    assert_eq!(percents, vec![13, 16, 19, 100]);
    assert_eq!(percents.iter().filter(|p| **p == 100).count(), 1);
}

#[test]
fn exhausted_attempts_time_out() {
    let mut p = prober(30);
    let mut percents = Vec::new();
    let mut probes = 0;
    while p.step() == ProberStep::Probe {
        probes += 1;
        let seen = p.observe(ProbeOutcome::Unreachable).unwrap();
        assert_eq!(seen.pause_ms, Some(300));
        percents.push(seen.event.percent);
    }
    assert_eq!(probes, 30);
    assert_eq!(percents.len(), 30);
    assert_eq!(percents[0], 13);
    assert_eq!(percents[27], 94);
    assert_eq!(percents[28], 95);
    assert_eq!(percents[29], 95);
    assert!(percents.iter().all(|p| *p != 100));
    assert!(percents.windows(2).all(|w| w[0] <= w[1]));
    assert_eq!(p.readiness(), Readiness::TimedOut);
    assert_eq!(p.step(), ProberStep::Finished(Err(TimeoutError { attempts: 30 })));
    assert!(p.observe(ProbeOutcome::Status(200)).is_none());
    assert_eq!(p.readiness(), Readiness::TimedOut);
}

#[test]
fn success_at_the_last_attempt_counts() {
    let mut p = prober(3);
    p.observe(ProbeOutcome::Unreachable).unwrap();
    p.observe(ProbeOutcome::Unreachable).unwrap();
    let seen = p.observe(ProbeOutcome::Status(200)).unwrap();
    assert_eq!(seen.event.percent, 100);
    assert_eq!(p.step(), ProberStep::Finished(Ok(())));
}

#[test]
fn no_attempts_allowed_times_out_at_once() {
    let mut p = prober(0);
    assert_eq!(p.readiness(), Readiness::TimedOut);
    assert_eq!(p.step(), ProberStep::Finished(Err(TimeoutError { attempts: 0 })));
    assert!(p.observe(ProbeOutcome::Status(200)).is_none());
}
