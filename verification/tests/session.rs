use rio_notifier::content::notify_request;
use rio_notifier::session::{Action, Event, Session, SignalMessage, Stage, Wakeup};

fn signal(member: &str, text: Option<(u32, &str)>, code: Option<(u32, u32)>) -> Event {
    Event::Woke(Wakeup::Signal(SignalMessage {
        member: Some(member.to_string()),
        id_and_text: text.map(|(id, t)| (id, t.to_string())),
        id_and_code: code,
    }))
}

/// A clickable session driven up to watching notification `id`.
fn watching(id: u32) -> Session {
    let mut s = Session::new("Bell".to_string(), "tab".to_string(), true);
    assert_eq!(s.step(Event::Start), Action::OpenSession);
    assert_eq!(s.step(Event::SessionOpened(true)), Action::BuildProxy);
    assert_eq!(s.step(Event::ProxyBuilt(true)), Action::Subscribe);
    assert_eq!(
        s.step(Event::Subscribed(true)),
        Action::Post(notify_request("Bell".to_string(), "tab".to_string(), true))
    );
    assert_eq!(s.step(Event::Posted(Some(id))), Action::AwaitWakeup);
    assert_eq!(s.stage(), Stage::Watching { id });
    s
}

#[test]
fn plain_session_posts_and_stops() {
    let mut s = Session::new("Bell".to_string(), "tab".to_string(), false);
    assert_eq!(s.step(Event::Start), Action::OpenSession);
    assert_eq!(s.step(Event::SessionOpened(true)), Action::BuildProxy);
    assert_eq!(
        s.step(Event::ProxyBuilt(true)),
        Action::Post(notify_request("Bell".to_string(), "tab".to_string(), false))
    );
    assert_eq!(s.step(Event::Posted(Some(3))), Action::AwaitWithdraw);
    assert_eq!(s.stage(), Stage::Showing { id: 3 });
}

#[test]
fn plain_notification_is_withdrawn_on_close() {
    let mut s = Session::new("Bell".to_string(), "tab".to_string(), false);
    s.step(Event::Start);
    s.step(Event::SessionOpened(true));
    s.step(Event::ProxyBuilt(true));
    assert_eq!(s.step(Event::Posted(Some(3))), Action::AwaitWithdraw);
    assert_eq!(s.step(Event::Woke(Wakeup::Cancelled)), Action::Withdraw(3));
    assert_eq!(s.step(Event::Performed), Action::Release);
    assert_eq!(s.step(Event::Performed), Action::Drain);
    assert_eq!(s.step(Event::Drained(false)), Action::Stop);
}

#[test]
fn plain_notification_ends_when_handle_is_dropped() {
    let mut s = Session::new("Bell".to_string(), "tab".to_string(), false);
    s.step(Event::Start);
    s.step(Event::SessionOpened(true));
    s.step(Event::ProxyBuilt(true));
    s.step(Event::Posted(Some(3)));
    assert_eq!(s.step(Event::Woke(Wakeup::HandleGone)), Action::Stop);
    assert_eq!(s.stage(), Stage::Finished);
}

#[test]
fn dropped_handle_does_not_end_a_clickable_watch() {
    let mut s = watching(6);
    assert_eq!(s.step(Event::Woke(Wakeup::HandleGone)), Action::AwaitWakeup);
    assert_eq!(s.stage(), Stage::Watching { id: 6 });
}

#[test]
fn plain_post_failure_also_stops() {
    let mut s = Session::new("t".to_string(), "b".to_string(), false);
    s.step(Event::Start);
    s.step(Event::SessionOpened(true));
    s.step(Event::ProxyBuilt(true));
    assert_eq!(s.step(Event::Posted(None)), Action::Stop);
}

#[test]
fn no_session_bus_stops() {
    let mut s = Session::new("t".to_string(), "b".to_string(), true);
    s.step(Event::Start);
    assert_eq!(s.step(Event::SessionOpened(false)), Action::Stop);
    assert_eq!(s.stage(), Stage::Finished);
}

#[test]
fn no_proxy_stops() {
    let mut s = Session::new("t".to_string(), "b".to_string(), true);
    s.step(Event::Start);
    s.step(Event::SessionOpened(true));
    assert_eq!(s.step(Event::ProxyBuilt(false)), Action::Stop);
}

#[test]
fn subscribe_failure_falls_back_to_plain_post() {
    let mut s = Session::new("t".to_string(), "b".to_string(), true);
    s.step(Event::Start);
    s.step(Event::SessionOpened(true));
    s.step(Event::ProxyBuilt(true));
    assert_eq!(
        s.step(Event::Subscribed(false)),
        Action::Post(notify_request("t".to_string(), "b".to_string(), false))
    );
    assert_eq!(s.stage(), Stage::PostingPlain);
    assert_eq!(s.step(Event::Posted(Some(1))), Action::AwaitWithdraw);
    assert_eq!(s.step(Event::Woke(Wakeup::Cancelled)), Action::Withdraw(1));
}

#[test]
fn clickable_post_failure_stops() {
    let mut s = Session::new("t".to_string(), "b".to_string(), true);
    s.step(Event::Start);
    s.step(Event::SessionOpened(true));
    s.step(Event::ProxyBuilt(true));
    s.step(Event::Subscribed(true));
    assert_eq!(s.step(Event::Posted(None)), Action::Stop);
}

#[test]
fn click_runs_callback_with_latest_token() {
    let mut s = watching(9);
    assert_eq!(s.step(signal("ActivationToken", Some((9, "first")), None)), Action::AwaitWakeup);
    assert_eq!(s.step(signal("ActivationToken", Some((4, "other")), None)), Action::AwaitWakeup);
    assert_eq!(s.step(signal("ActivationToken", Some((9, "second")), None)), Action::AwaitWakeup);
    assert_eq!(
        s.step(signal("ActionInvoked", Some((9, "default")), None)),
        Action::Activate(Some("second".to_string()))
    );
    assert_eq!(s.step(Event::Performed), Action::Drain);
    assert_eq!(s.step(Event::Drained(false)), Action::Stop);
    assert_eq!(s.stage(), Stage::Finished);
}

#[test]
fn click_without_token_passes_none() {
    let mut s = watching(2);
    assert_eq!(
        s.step(signal("ActionInvoked", Some((2, "default")), None)),
        Action::Activate(None)
    );
}

#[test]
fn other_actions_and_notifications_are_ignored() {
    let mut s = watching(5);
    assert_eq!(s.step(signal("ActionInvoked", Some((5, "reply")), None)), Action::AwaitWakeup);
    assert_eq!(s.step(signal("ActionInvoked", Some((6, "default")), None)), Action::AwaitWakeup);
    assert_eq!(s.step(signal("NotificationClosed", None, Some((6, 2)))), Action::AwaitWakeup);
    assert_eq!(s.step(signal("PropertiesChanged", None, None)), Action::AwaitWakeup);
    assert_eq!(s.step(signal("ActionInvoked", None, None)), Action::AwaitWakeup);
    let no_member = Event::Woke(Wakeup::Signal(SignalMessage {
        member: None,
        id_and_text: Some((5, "default".to_string())),
        id_and_code: None,
    }));
    assert_eq!(s.step(no_member), Action::AwaitWakeup);
    assert_eq!(s.step(Event::Woke(Wakeup::StreamError)), Action::AwaitWakeup);
    assert_eq!(s.stage(), Stage::Watching { id: 5 });
}

#[test]
fn dismissal_ends_the_watch() {
    let mut s = watching(5);
    assert_eq!(s.step(signal("NotificationClosed", None, Some((5, 2)))), Action::Drain);
    assert_eq!(s.step(Event::Drained(false)), Action::Stop);
}

#[test]
fn stream_end_ends_the_watch() {
    let mut s = watching(5);
    assert_eq!(s.step(Event::Woke(Wakeup::StreamEnded)), Action::Drain);
    assert_eq!(s.stage(), Stage::Draining);
}

#[test]
fn withdraw_closes_and_releases() {
    let mut s = watching(11);
    assert_eq!(s.step(Event::Woke(Wakeup::Cancelled)), Action::Withdraw(11));
    assert_eq!(s.step(Event::Performed), Action::Release);
    assert_eq!(s.step(Event::Performed), Action::Drain);
    assert_eq!(s.step(Event::Drained(true)), Action::Release);
    assert_eq!(s.step(Event::Performed), Action::Drain);
    assert_eq!(s.step(Event::Drained(false)), Action::Stop);
}

#[test]
fn finished_session_asks_nothing_more() {
    let mut s = Session::new("t".to_string(), "b".to_string(), true);
    s.step(Event::Start);
    s.step(Event::SessionOpened(false));
    assert_eq!(s.step(Event::Start), Action::Stop);
    assert_eq!(s.step(Event::Woke(Wakeup::Cancelled)), Action::Stop);
    assert_eq!(s.stage(), Stage::Finished);
}

#[test]
fn unexpected_outcome_while_watching_stops() {
    let mut s = watching(1);
    assert_eq!(s.step(Event::Drained(true)), Action::Stop);
}

#[test]
fn withdraw_after_click_is_only_released() {
    let mut s = watching(3);
    assert_eq!(
        s.step(signal("ActionInvoked", Some((3, "default")), None)),
        Action::Activate(None)
    );
    assert_eq!(s.step(Event::Performed), Action::Drain);
    assert_eq!(s.step(Event::Drained(true)), Action::Release);
    assert_eq!(s.step(Event::Performed), Action::Drain);
    assert_eq!(s.step(Event::Drained(false)), Action::Stop);
}

#[test]
fn second_click_after_activation_does_nothing() {
    let mut s = watching(3);
    s.step(signal("ActionInvoked", Some((3, "default")), None));
    assert_eq!(s.stage(), Stage::Activating);
    assert_eq!(s.step(signal("ActionInvoked", Some((3, "default")), None)), Action::Drain);
    assert_eq!(s.step(signal("ActionInvoked", Some((3, "default")), None)), Action::Stop);
}

#[test]
fn click_after_noise_runs_once_with_own_token_and_never_closes() {
    let mut s = watching(7);
    let mut actions = Vec::new();
    for event in [
        signal("ActivationToken", Some((8, "x")), None),
        signal("ActionInvoked", Some((8, "default")), None),
        signal("ActionInvoked", Some((7, "Open")), None),
        signal("ActivationToken", Some((7, "tok")), None),
        signal("ActionInvoked", Some((7, "default")), None),
        Event::Performed,
        Event::Drained(false),
    ] {
        actions.push(s.step(event));
    }
    assert_eq!(
        actions,
        vec![
            Action::AwaitWakeup,
            Action::AwaitWakeup,
            Action::AwaitWakeup,
            Action::AwaitWakeup,
            Action::Activate(Some("tok".to_string())),
            Action::Drain,
            Action::Stop,
        ]
    );
}

#[test]
fn withdraw_is_asked_once_and_never_with_activation() {
    let mut s = watching(4);
    assert_eq!(s.step(Event::Woke(Wakeup::Cancelled)), Action::Withdraw(4));
    assert_eq!(s.step(signal("ActionInvoked", Some((4, "default")), None)), Action::Release);
    assert_eq!(s.step(Event::Woke(Wakeup::Cancelled)), Action::Drain);
    assert_eq!(s.step(Event::Drained(false)), Action::Stop);
    assert_eq!(s.step(Event::Woke(Wakeup::Cancelled)), Action::Stop);
}
