use rio_notifier::handle::{send_notification, NotificationHandle};
use rio_notifier::hooks::{activate_handler, ActivateHandler};
use rio_notifier::session::{Action, Event};
use std::sync::atomic::{AtomicBool, AtomicUsize, Ordering};
use std::sync::{Arc, Mutex};

fn counter() -> &'static AtomicUsize {
    Box::leak(Box::new(AtomicUsize::new(0)))
}

#[test]
fn detached_close_runs_the_closure() {
    let closed = Arc::new(AtomicBool::new(false));
    let seen = Arc::clone(&closed);
    let handle = NotificationHandle::detached(move || seen.store(true, Ordering::SeqCst));
    assert!(!closed.load(Ordering::SeqCst));
    handle.close();
    assert!(closed.load(Ordering::SeqCst));
}

#[test]
fn close_signals_the_delivery_and_counts_it() {
    let in_flight = counter();
    let (handle, delivery) = send_notification("Bell", "tab", None, in_flight);
    handle.close();
    assert_eq!(in_flight.load(Ordering::SeqCst), 1);
    assert!(delivery.take_withdraw());
    assert!(!delivery.take_withdraw());
    delivery.release();
    assert_eq!(in_flight.load(Ordering::SeqCst), 0);
}

#[test]
fn close_after_delivery_is_gone_counts_nothing() {
    let in_flight = counter();
    let (handle, delivery) = send_notification("Bell", "tab", None, in_flight);
    drop(delivery);
    handle.close();
    assert_eq!(in_flight.load(Ordering::SeqCst), 0);
}

#[test]
fn plain_delivery_posts_with_fallback_title() {
    let in_flight = counter();
    let (_handle, mut delivery) = send_notification("", "body", None, in_flight);
    assert_eq!(delivery.step(Event::Start), Action::OpenSession);
    assert_eq!(delivery.step(Event::SessionOpened(true)), Action::BuildProxy);
    match delivery.step(Event::ProxyBuilt(true)) {
        Action::Post(request) => {
            assert_eq!(request.summary, "Rio");
            assert_eq!(request.body, "body");
            assert!(request.actions.is_empty());
        }
        other => panic!("unexpected action {:?}", other),
    }
}

#[test]
fn clickable_delivery_subscribes_and_runs_callback_once() {
    let in_flight = counter();
    let tokens: Arc<Mutex<Vec<Option<String>>>> = Arc::new(Mutex::new(Vec::new()));
    let sink = Arc::clone(&tokens);
    let callback: ActivateHandler = Box::new(move |token: Option<String>| {
        sink.lock().unwrap().push(token);
    });
    let (_handle, mut delivery) = send_notification("Bell", "tab", Some(callback), in_flight);
    delivery.step(Event::Start);
    delivery.step(Event::SessionOpened(true));
    assert_eq!(delivery.step(Event::ProxyBuilt(true)), Action::Subscribe);
    delivery.activate(Some("tok".to_string()));
    delivery.activate(Some("again".to_string()));
    assert_eq!(*tokens.lock().unwrap(), vec![Some("tok".to_string())]);
}

#[test]
fn delivery_holds_a_one_slot_withdraw_channel() {
    let in_flight = counter();
    let (_handle, delivery) = send_notification("Bell", "tab", None, in_flight);
    assert_eq!(delivery.cancel_receiver().capacity(), Some(1));
    assert!(delivery.cancel_receiver().is_empty());
}

#[test]
fn detached_closure_runs_once_and_not_before_close() {
    let count = Arc::new(AtomicUsize::new(0));
    let c = Arc::clone(&count);
    let handle = NotificationHandle::detached(move || {
        c.fetch_add(1, Ordering::SeqCst);
    });
    assert_eq!(count.load(Ordering::SeqCst), 0);
    handle.close();
    assert_eq!(count.load(Ordering::SeqCst), 1);
}

#[test]
fn handler_built_by_the_library_runs_with_the_token() {
    let in_flight = counter();
    let tokens: Arc<Mutex<Vec<Option<String>>>> = Arc::new(Mutex::new(Vec::new()));
    let sink = Arc::clone(&tokens);
    let handler = activate_handler(move |token: Option<String>| {
        sink.lock().unwrap().push(token);
    });
    assert!(handler.is_some());
    let (_handle, mut delivery) = send_notification("Bell", "tab", handler, in_flight);
    delivery.activate(None);
    assert_eq!(*tokens.lock().unwrap(), vec![None]);
}
