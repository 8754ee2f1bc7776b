use egress_agent::config::{ConfigError, ShippingConfig};
use egress_agent::engine::{ConnectionAttempt, DenyReason, Verdict};
use egress_agent::ip::IpAddress;
use egress_agent::log_buffer::{LogBuffer, LogEvent, DEFAULT_BUFFER_CAPACITY};
use egress_agent::scheduler::{backoff_for, Action, Phase, ShippingScheduler};

fn event(ts: u64) -> LogEvent {
    let a = ConnectionAttempt::new("app", "host.example", IpAddress::v4(192, 0, 2, 1), "https");
    LogEvent::new(ts, a, Verdict::Denied(DenyReason::UnknownApp))
}

fn stamps(events: &[LogEvent]) -> Vec<u64> {
    events.iter().map(|e| e.timestamp).collect()
}

fn config(max_retries: u32) -> ShippingConfig {
    ShippingConfig::new(60, 2, 16, max_retries).unwrap()
}

#[test]
fn drain_twice_returns_nothing_second_time() {
    let mut b = LogBuffer::new(4).unwrap();
    b.record(event(1));
    b.record(event(2));
    assert_eq!(stamps(&b.drain()), vec![1, 2]);
    assert!(b.drain().is_empty());
    assert_eq!(b.len(), 0);
}

#[test]
fn below_capacity_nothing_is_lost() {
    let mut b = LogBuffer::new(5).unwrap();
    for ts in 0..5 {
        b.record(event(ts));
    }
    let out = b.drain();
    assert_eq!(out.len(), 5);
    assert_eq!(stamps(&out), vec![0, 1, 2, 3, 4]);
    assert_eq!(b.overflow_count(), 0);
}

#[test]
fn full_buffer_evicts_oldest_and_counts() {
    let mut b = LogBuffer::new(3).unwrap();
    for ts in 0..5 {
        b.record(event(ts));
    }
    assert_eq!(b.len(), 3);
    assert_eq!(b.overflow_count(), 2);
    assert_eq!(stamps(&b.drain()), vec![2, 3, 4]);
    assert_eq!(b.capacity(), 3);
}

#[test]
fn zero_capacity_is_refused() {
    assert!(matches!(LogBuffer::new(0), Err(ConfigError::ZeroCapacity)));
    let d = LogBuffer::with_default_capacity();
    assert_eq!(d.capacity(), DEFAULT_BUFFER_CAPACITY);
}

#[test]
fn requeue_goes_before_newer_events() {
    let mut b = LogBuffer::new(10).unwrap();
    b.record(event(5));
    b.requeue(vec![event(1), event(2)]);
    assert_eq!(stamps(&b.drain()), vec![1, 2, 5]);
    assert_eq!(b.overflow_count(), 0);
}

#[test]
fn requeue_drops_oldest_beyond_capacity() {
    let mut b = LogBuffer::new(3).unwrap();
    b.record(event(9));
    b.requeue(vec![event(1), event(2), event(3), event(4)]);
    assert_eq!(stamps(&b.drain()), vec![3, 4, 9]);
    assert_eq!(b.overflow_count(), 2);
}

#[test]
fn config_validation() {
    assert_eq!(ShippingConfig::new(0, 1, 2, 3), Err(ConfigError::ZeroInterval));
    assert_eq!(ShippingConfig::new(1, 0, 2, 3), Err(ConfigError::ZeroBackoff));
    assert_eq!(ShippingConfig::new(1, 5, 4, 3), Err(ConfigError::CeilingBelowBackoff));
    let c = ShippingConfig::new(1, 4, 4, 0).unwrap();
    assert_eq!(c.max_backoff, 4);
    let d = ShippingConfig::default_options();
    assert_eq!(d.interval, 60);
    assert!(ShippingScheduler::new(ShippingConfig { interval: 0, initial_backoff: 1, max_backoff: 1, max_retries: 1 }).is_err());
}

#[test]
fn backoff_doubles_up_to_ceiling() {
    let c = config(10);
    let delays: Vec<u64> = (1..=6).map(|n| backoff_for(&c, n)).collect();
    assert_eq!(delays, vec![2, 4, 8, 16, 16, 16]);
    let big = ShippingConfig::new(1, u64::MAX / 2 + 1, u64::MAX, 3).unwrap();
    assert_eq!(backoff_for(&big, 2), u64::MAX);
}

#[test]
fn empty_tick_makes_no_send() {
    let mut s = ShippingScheduler::new(config(3)).unwrap();
    let mut b = LogBuffer::new(8).unwrap();
    assert_eq!(s.tick(&mut b, false), Action::AwaitTick);
    assert_eq!(s.phase(), Phase::Idle);
}

#[test]
fn fails_twice_then_delivers_once_in_order() {
    let mut s = ShippingScheduler::new(config(3)).unwrap();
    let mut b = LogBuffer::new(8).unwrap();
    for ts in 1..=3 {
        b.record(event(ts));
    }
    let mut delivered: Vec<u64> = Vec::new();
    let mut answers = vec![false, false, true].into_iter();
    let mut action = s.tick(&mut b, false);
    let mut sends = 0;
    while action != Action::AwaitTick {
        action = match action {
            Action::Send => {
                sends += 1;
                assert_eq!(stamps(s.pending()), vec![1, 2, 3]);
                let ok = answers.next().unwrap();
                if ok {
                    delivered.extend(stamps(s.pending()));
                }
                s.delivered(&mut b, ok)
            }
            Action::Sleep(_) => {
                s.backoff_elapsed();
                s.tick(&mut b, false)
            }
            other => panic!("unexpected action {:?}", other),
        };
    }
    assert_eq!(sends, 3);
    assert_eq!(delivered, vec![1, 2, 3]);
    assert_eq!(b.len(), 0);
    assert!(s.pending().is_empty());
    assert_eq!(s.failures(), 0);
    assert_eq!(s.dropped(), 0);
    assert_eq!(b.overflow_count(), 0);
}

#[test]
fn retry_keeps_order_with_new_events() {
    let mut s = ShippingScheduler::new(config(3)).unwrap();
    let mut b = LogBuffer::new(8).unwrap();
    b.record(event(1));
    b.record(event(2));
    assert_eq!(s.tick(&mut b, false), Action::Send);
    b.record(event(3));
    assert_eq!(s.delivered(&mut b, false), Action::Sleep(2));
    assert_eq!(s.backoff_elapsed(), Action::AwaitTick);
    assert_eq!(s.tick(&mut b, false), Action::Send);
    assert_eq!(stamps(s.pending()), vec![1, 2, 3]);
    assert_eq!(s.delivered(&mut b, false), Action::Sleep(4));
}

#[test]
fn batch_dropped_after_retries_run_out() {
    let mut s = ShippingScheduler::new(config(1)).unwrap();
    let mut b = LogBuffer::new(8).unwrap();
    b.record(event(1));
    b.record(event(2));
    assert_eq!(s.tick(&mut b, false), Action::Send);
    assert_eq!(s.delivered(&mut b, false), Action::Sleep(2));
    assert_eq!(s.failures(), 1);
    s.backoff_elapsed();
    assert_eq!(s.tick(&mut b, false), Action::Send);
    assert_eq!(s.delivered(&mut b, false), Action::AwaitTick);
    assert_eq!(s.dropped(), 2);
    assert_eq!(s.failures(), 0);
    assert_eq!(b.len(), 0);
    assert_eq!(s.phase(), Phase::Idle);
}

#[test]
fn shutdown_during_backoff_waits_for_cycle() {
    let mut s = ShippingScheduler::new(config(3)).unwrap();
    let mut b = LogBuffer::new(8).unwrap();
    b.record(event(1));
    assert_eq!(s.tick(&mut b, false), Action::Send);
    let delay = match s.delivered(&mut b, false) {
        Action::Sleep(d) => d,
        other => panic!("unexpected action {:?}", other),
    };
    assert!(delay <= s.config().max_backoff);
    assert_eq!(s.phase(), Phase::Backoff);
    // Shutdown is asked for now; the backoff still runs out first.
    assert_eq!(s.backoff_elapsed(), Action::AwaitTick);
    assert_eq!(s.tick(&mut b, true), Action::Stop);
    assert_eq!(s.phase(), Phase::Stopped);
    assert_eq!(stamps(&b.drain()), vec![1]);
}
