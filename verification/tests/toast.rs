use rio_notifier::toast::WithdrawSlot;

#[test]
fn close_after_show_hides_the_parked_toast() {
    let mut slot = WithdrawSlot::new();
    assert_eq!(slot.shown("toast"), None);
    assert_eq!(slot.close(), Some("toast"));
}

#[test]
fn close_before_show_hides_as_soon_as_shown() {
    let mut slot = WithdrawSlot::new();
    assert_eq!(slot.close(), None);
    assert_eq!(slot.shown("toast"), Some("toast"));
}

#[test]
fn unclosed_toast_stays_shown() {
    let mut slot: WithdrawSlot<u32> = WithdrawSlot::new();
    assert_eq!(slot.shown(5), None);
}
