//! Unit tests for the wakeup counter, the reply one-shot, the configuration
//! defaults, and the wake rule.

use xtm_rust::{should_notify, ModuleConfig, ReplyOneShot, RuntimeConfig, WakeCounter, COUNTER_MAX};

#[test]
fn counter_accumulates_and_resets() {
    let mut c = WakeCounter::new(0, false);
    assert!(c.notify(1));
    assert!(c.notify(41));
    assert_eq!(c.notified(), Some(42));
    // reading reset the counter to zero: the next read would block
    assert_eq!(c.notified(), None);
}

#[test]
fn counter_starts_at_init() {
    let mut c = WakeCounter::new(7, false);
    assert_eq!(c.notified(), Some(7));
}

#[test]
fn counter_write_refused_at_maximum() {
    let mut c = WakeCounter::new(0, false);
    assert!(c.notify(COUNTER_MAX));
    assert!(!c.notify(1), "a saturated counter refuses the write");
    assert_eq!(c.notified(), Some(COUNTER_MAX));
    assert!(c.notify(1));
}

#[test]
fn counter_semaphore_hands_out_units() {
    let mut c = WakeCounter::new(0, true);
    assert!(c.notify(3));
    assert_eq!(c.notified(), Some(1));
    assert_eq!(c.notified(), Some(1));
    assert_eq!(c.notified(), Some(1));
    assert_eq!(c.notified(), None);
}

#[test]
fn reply_round_trip() {
    let mut r: ReplyOneShot<String> = ReplyOneShot::new();
    assert!(!r.is_closed());
    assert_eq!(r.send(String::from("pong")), Ok(()));
    assert_eq!(r.recv(), Some(String::from("pong")));
}

#[test]
fn reply_send_after_receiver_dropped() {
    let mut r: ReplyOneShot<u64> = ReplyOneShot::new();
    r.drop_receiver();
    assert!(r.is_closed());
    assert_eq!(r.send(5), Err(5), "the undeliverable value is handed back");
}

#[test]
fn reply_recv_after_sender_dropped() {
    let mut r: ReplyOneShot<u64> = ReplyOneShot::new();
    r.drop_sender();
    assert_eq!(r.recv(), None, "a dead sender resolves the await with closure");
}

#[test]
fn config_defaults() {
    let c = ModuleConfig::default();
    assert_eq!(c.buffer, 128);
    assert_eq!(c.fibers, 16);
    assert_eq!(c.max_batch, 16);
    assert_eq!(c.coio_timeout_ms, 100);
    assert_eq!(c.fiber_standby_timeout_ms, 1000);
    assert!(matches!(
        c.runtime,
        RuntimeConfig::MultiThread { thread_count: None }
    ));
}

#[test]
fn runtime_flavor_helpers() {
    assert!(RuntimeConfig::CurrentThread.is_current_thread());
    assert!(!RuntimeConfig::default().is_current_thread());
    assert_eq!(RuntimeConfig::CurrentThread.configured_thread_count(), None);
    assert_eq!(
        RuntimeConfig::MultiThread { thread_count: Some(4) }.configured_thread_count(),
        Some(4)
    );
    assert_eq!(
        RuntimeConfig::MultiThread { thread_count: None }.configured_thread_count(),
        None
    );
}

#[test]
fn wake_rule_is_edge_triggered() {
    assert!(should_notify(0));
    assert!(!should_notify(1));
    assert!(!should_notify(100));
}
