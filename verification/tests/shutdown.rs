use rio_notifier::shutdown::{ShutdownStep, ShutdownWait, MAX_POLLS, POLL_INTERVAL_MS};
use std::sync::atomic::AtomicUsize;

#[test]
fn nothing_in_flight_ends_at_once() {
    let mut wait = ShutdownWait::new();
    assert_eq!(wait.decide(0), ShutdownStep::Done);
    let counter = AtomicUsize::new(0);
    let mut wait = ShutdownWait::new();
    assert_eq!(wait.poll(&counter), ShutdownStep::Done);
}

#[test]
fn pending_withdraw_sleeps_until_it_lands() {
    let mut wait = ShutdownWait::new();
    assert_eq!(wait.decide(2), ShutdownStep::Sleep(POLL_INTERVAL_MS));
    assert_eq!(wait.decide(1), ShutdownStep::Sleep(10));
    assert_eq!(wait.decide(0), ShutdownStep::Done);
}

#[test]
fn dangling_count_gives_up_after_fifty_sleeps() {
    let counter = AtomicUsize::new(1);
    let mut wait = ShutdownWait::new();
    let mut sleeps = 0;
    while let ShutdownStep::Sleep(ms) = wait.poll(&counter) {
        assert_eq!(ms, 10);
        sleeps += 1;
        assert!(sleeps <= 50);
    }
    assert_eq!(sleeps, 50);
    assert_eq!(MAX_POLLS, 50);
    assert_eq!(wait.poll(&counter), ShutdownStep::Done);
}
