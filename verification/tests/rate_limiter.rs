use rand_guard::normalize::{FileOpen, NormalizedEvent, ProcessExit, ProcessStart};
use rand_guard::rate_limiter::RateLimiter;

fn sample_process_start() -> NormalizedEvent {
    NormalizedEvent::ProcessStart(ProcessStart {
        pid: 1,
        tid: 1,
        ppid: 0,
        uid: 1000,
        gid: 1000,
        comm: "sh".to_string(),
        exe_path: "/bin/sh".to_string(),
        source: None,
        timestamp_ns: 1000,
        filename_truncated: false,
    })
}

fn sample_process_exit() -> NormalizedEvent {
    NormalizedEvent::ProcessExit(ProcessExit {
        pid: 1,
        tid: 1,
        comm: "sh".to_string(),
        group_dead: true,
        uid: 1000,
        gid: 1000,
        timestamp_ns: 2000,
    })
}

fn sample_file_open() -> NormalizedEvent {
    NormalizedEvent::FileOpen(FileOpen {
        pid: 1,
        tid: 1,
        ppid: 0,
        uid: 1000,
        gid: 1000,
        comm: "cat".to_string(),
        exe_path: "/bin/cat".to_string(),
        filename: "/etc/passwd".to_string(),
        flags: 0,
        filename_truncated: false,
        alert: false,
        detection_type: None,
        timestamp_ns: 3000,
    })
}

#[test]
fn process_lifecycle_always_allowed() {
    let mut limiter = RateLimiter::new(0);
    assert!(limiter.allow(&sample_process_start()));
    assert!(limiter.allow(&sample_process_exit()));
}

#[test]
fn non_lifecycle_within_limit_allowed() {
    let mut limiter = RateLimiter::new(2);
    assert!(limiter.allow(&sample_file_open()));
    assert!(limiter.allow(&sample_file_open()));
}

#[test]
fn non_lifecycle_over_limit_rejected() {
    let mut limiter = RateLimiter::new(1);
    assert!(limiter.allow(&sample_file_open()));
    assert!(!limiter.allow(&sample_file_open()));
}

#[test]
fn process_lifecycle_does_not_consume_budget() {
    let mut limiter = RateLimiter::new(1);
    assert!(limiter.allow(&sample_process_start()));
    assert!(limiter.allow(&sample_file_open()));
    assert!(!limiter.allow(&sample_file_open()));
}

#[test]
fn new_window_restores_the_budget() {
    let mut limiter = RateLimiter::new(1);
    let t0 = std::time::Instant::now();
    assert!(limiter.allow_at(&sample_file_open(), t0, 0));
    assert!(!limiter.allow_at(&sample_file_open(), t0, 0));
    assert!(limiter.allow_at(&sample_file_open(), t0, 1));
    assert!(!limiter.allow_at(&sample_file_open(), t0, 0));
}

#[test]
fn zero_budget_rejects_everything_but_lifecycle() {
    let mut limiter = RateLimiter::new(0);
    let t0 = std::time::Instant::now();
    assert!(!limiter.allow_at(&sample_file_open(), t0, 5));
    assert!(limiter.allow_at(&sample_process_exit(), t0, 0));
}
