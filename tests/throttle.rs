use hello::error::CoreError;
use hello::stream::{CountedSource, ReadStep, ThrottledReader};
use hello::throttle::{compute_quota, AdmitResult, RateLimiter, DEFAULT_WINDOW_NANOS};
use hello::transfer::{Destination, TransferSpec};

const SEC: u64 = 1_000_000_000;

#[test]
fn quota_is_rate_times_window() {
    assert_eq!(compute_quota(1000, DEFAULT_WINDOW_NANOS), 100);
    assert_eq!(compute_quota(1_048_576, DEFAULT_WINDOW_NANOS), 104_857);
    assert_eq!(compute_quota(9, DEFAULT_WINDOW_NANOS), 0);
    assert_eq!(compute_quota(u64::MAX, u64::MAX), u64::MAX);
}

#[test]
fn fresh_window_allows_quota_then_waits() {
    let mut l = RateLimiter::new(1000, DEFAULT_WINDOW_NANOS, 0).unwrap();
    assert_eq!(l.quota(), 100);
    assert_eq!(l.grant(500, 0), AdmitResult::Allow(100));
    l.record(100);
    assert_eq!(l.grant(500, 1), AdmitResult::WaitUntil(DEFAULT_WINDOW_NANOS));
    assert_eq!(l.pending_wake(), Some(DEFAULT_WINDOW_NANOS));
}

#[test]
fn window_resets_after_its_length() {
    let mut l = RateLimiter::new(1000, DEFAULT_WINDOW_NANOS, 0).unwrap();
    assert_eq!(l.grant(100, 0), AdmitResult::Allow(100));
    l.record(100);
    assert_eq!(l.grant(10, DEFAULT_WINDOW_NANOS - 1), AdmitResult::WaitUntil(DEFAULT_WINDOW_NANOS));
    assert_eq!(l.grant(10, DEFAULT_WINDOW_NANOS), AdmitResult::Allow(10));
    assert_eq!(l.window_start(), DEFAULT_WINDOW_NANOS);
    assert_eq!(l.released(), 0);
    assert_eq!(l.pending_wake(), None);
}

#[test]
fn zero_request_is_allowed_without_the_window() {
    let mut l = RateLimiter::new(1000, DEFAULT_WINDOW_NANOS, 0).unwrap();
    l.record(100);
    assert_eq!(l.grant(0, 5 * DEFAULT_WINDOW_NANOS), AdmitResult::Allow(0));
    assert_eq!(l.window_start(), 0);
    assert_eq!(l.released(), 100);
}

#[test]
fn partial_read_charges_only_what_was_read() {
    let mut l = RateLimiter::new(1000, DEFAULT_WINDOW_NANOS, 0).unwrap();
    assert_eq!(l.grant(80, 0), AdmitResult::Allow(80));
    l.record(30);
    assert_eq!(l.remaining(), 70);
    assert_eq!(l.grant(500, 0), AdmitResult::Allow(70));
}

#[test]
fn zero_rate_is_a_configuration_error() {
    assert_eq!(
        TransferSpec::new(1024, 0, Destination::Network).err(),
        Some(CoreError::Configuration)
    );
    assert_eq!(
        RateLimiter::new(0, DEFAULT_WINDOW_NANOS, 0).err(),
        Some(CoreError::Configuration)
    );
    assert!(ThrottledReader::new(CountedSource::new(10), 0, 0).is_err());
    // 79 bits per second is 9 bytes per second: no byte fits a 100 ms window.
    assert!(TransferSpec::new(1024, 79, Destination::Disk).is_err());
    assert!(TransferSpec::new(1024, 80, Destination::Disk).is_ok());
}

#[test]
fn released_never_exceeds_quota() {
    let mut l = RateLimiter::new(12_345, DEFAULT_WINDOW_NANOS, 0).unwrap();
    let mut now: u64 = 0;
    for i in 0..500u64 {
        match l.grant(97 + i % 13, now) {
            AdmitResult::Allow(n) => l.record(n - n % 3),
            AdmitResult::WaitUntil(d) => assert_eq!(d, l.window_start() + l.window_len()),
        }
        assert!(l.released() <= l.quota());
        now += 1_700_000;
    }
}

/// Drains a throttled reader on a simulated clock, jumping to each deadline.
fn drain(mut t: ThrottledReader, capacity: usize) -> (u64, u64) {
    let mut now: u64 = 0;
    let mut total: u64 = 0;
    loop {
        match t.poll_read(capacity, now) {
            ReadStep::Pending(d) => {
                assert!(d > now);
                now = d;
            }
            ReadStep::Ready(bytes) => {
                assert!(bytes.iter().all(|b| *b == 1));
                if bytes.is_empty() {
                    return (total, now);
                }
                total += bytes.len() as u64;
            }
        }
    }
}

#[test]
fn one_mebibyte_at_one_megabyte_per_second() {
    let spec = TransferSpec::new(1_048_576, 8_388_608, Destination::Network).unwrap();
    assert_eq!(spec.bytes_per_sec(), 1_048_576);
    let t = spec.open(0).unwrap();
    let (total, elapsed) = drain(t, 8192);
    assert_eq!(total, 1_048_576);
    assert!(elapsed >= SEC * 9 / 10, "elapsed {elapsed}");
    assert!(elapsed <= SEC * 13 / 10, "elapsed {elapsed}");
}

#[test]
fn transfer_takes_at_least_size_over_rate() {
    for (n, rate) in [(10_000u64, 1_000u64), (50_000, 7_777), (123_456, 100_000)] {
        let t = ThrottledReader::new(CountedSource::new(n), rate, 0).unwrap();
        let (total, elapsed) = drain(t, 4096);
        assert_eq!(total, n);
        // n / rate seconds, less one window of slack
        assert!(elapsed + DEFAULT_WINDOW_NANOS >= n * SEC / rate);
        assert!(elapsed <= n * SEC / rate + DEFAULT_WINDOW_NANOS);
    }
}

#[test]
fn reads_are_narrowed_to_the_grant() {
    let mut t = ThrottledReader::new(CountedSource::new(1000), 1000, 0).unwrap();
    match t.poll_read(30, 0) {
        ReadStep::Ready(b) => assert_eq!(b, vec![1u8; 30]),
        ReadStep::Pending(_) => panic!("expected data"),
    }
    match t.poll_read(500, 0) {
        ReadStep::Ready(b) => assert_eq!(b.len(), 70),
        ReadStep::Pending(_) => panic!("expected data"),
    }
    match t.poll_read(500, 0) {
        ReadStep::Pending(d) => assert_eq!(d, DEFAULT_WINDOW_NANOS),
        ReadStep::Ready(_) => panic!("expected a wait"),
    }
    assert_eq!(t.remaining(), 900);
    assert_eq!(t.limiter().released(), 100);
}

#[test]
fn counted_source_ends_with_empty_reads() {
    let mut s = CountedSource::new(5);
    assert_eq!(s.read_into(3), vec![1, 1, 1]);
    assert_eq!(s.read_into(3), vec![1, 1]);
    assert!(s.read_into(3).is_empty());
    assert_eq!(s.remaining(), 0);
}

#[test]
fn wait_is_followed_by_data_at_the_deadline() {
    let mut t = ThrottledReader::new(CountedSource::new(1000), 1000, 0).unwrap();
    assert!(matches!(t.poll_read(100, 0), ReadStep::Ready(ref b) if b.len() == 100));
    let deadline = match t.poll_read(100, 50) {
        ReadStep::Pending(d) => d,
        ReadStep::Ready(_) => panic!("expected a wait"),
    };
    assert_eq!(deadline, DEFAULT_WINDOW_NANOS);
    assert_eq!(t.limiter().pending_wake(), Some(deadline));
    match t.poll_read(100, deadline) {
        ReadStep::Ready(b) => assert_eq!(b.len(), 100),
        ReadStep::Pending(_) => panic!("a second wait"),
    }
    assert_eq!(t.limiter().pending_wake(), None);
    assert_eq!(t.limiter().window_start(), deadline);
}
