use rust_hw::signal::{Signal, WaitStep};

#[test]
fn wait_blocks_until_notified() {
    let mut s = Signal::new();
    assert_eq!(s.wait(), WaitStep::Block);
    assert!(s.is_waiting());
    assert!(s.notify());
    assert!(!s.is_waiting());
}

#[test]
fn notify_before_wait_is_kept() {
    let mut s = Signal::new();
    assert!(!s.notify());
    assert!(!s.notify());
    assert_eq!(s.wait(), WaitStep::Proceed);
    assert_eq!(s.wait(), WaitStep::Block);
}

#[test]
fn blocked_waiter_is_seen() {
    let mut s = Signal::new();
    assert!(!s.is_waiting());
    assert_eq!(s.wait(), WaitStep::Block);
    assert!(s.is_waiting());
}
