//! Posting a notification, and the handle that withdraws it.
//!
//! `send_notification` prepares everything a notification needs: the title
//! it shows, the session that will talk to the daemon, and the withdraw
//! channel whose sending end the handle keeps and whose receiving end goes
//! with the session onto the notifier thread. The thread never touches the
//! UI side; the UI side never touches D-Bus.
use vstd::prelude::*;
use crate::channel::{bounded_channel, channel_capacity, try_recv_unit, try_send_unit};
use crate::content::{notification_title, shown_title};
use crate::hooks::{ActivateHandler, CloseHook};
use crate::session::{next, Action, Event, Session, SessionView};

verus! {

/// The platform side of a posted notification: one end of its withdraw
/// channel, and the count of withdraws signalled but not yet carried out.
struct PlatformHandle {
    cancel: async_channel::Sender<()>,
    in_flight: &'static std::sync::atomic::AtomicUsize,
}

impl PlatformHandle {
    /// Signals the notifier thread to withdraw; it withdraws on its own
    /// connection. Sending fails only if that thread already finished
    /// (notification clicked or dismissed), and then there is nothing to
    /// withdraw and nothing is counted.
    fn close(self) {
        if try_send_unit(&self.cancel) {
            self.in_flight.fetch_add(1, std::sync::atomic::Ordering::Relaxed);
        }
    }
}

enum Inner {
    /// Backed by a real platform notification.
    Platform(PlatformHandle),
    /// Withdrawal delegated to a caller-supplied closure.
    Detached(Box<dyn CloseHook>),
}

/// A handle to a posted notification, used to withdraw it from the desktop
/// before the user acts on it.
pub struct NotificationHandle {
    inner: Inner,
}

impl NotificationHandle {
    #[verifier::type_invariant]
    spec fn hook_callable(self) -> bool {
        match self.inner {
            Inner::Detached(hook) => hook.callable(),
            Inner::Platform(_) => true,
        }
    }

    /// Whether closing this handle runs a caller-supplied closure rather
    /// than touching a platform notification.
    pub closed spec fn is_detached(self) -> bool {
        self.inner is Detached
    }

    /// The count of withdraws in flight that closing a platform handle adds
    /// to.
    pub closed spec fn counter(self) -> &'static std::sync::atomic::AtomicUsize {
        self.inner->Platform_0.in_flight
    }

    /// The caller-supplied closure a detached handle runs on `close`.
    pub closed spec fn detached_hook(self) -> Box<dyn CloseHook> {
        self.inner->Detached_0
    }

    /// Withdraw the notification if it is still showing. A no-op once it
    /// has been activated, dismissed, or expired. Consumes the handle.
    pub fn close(self)
        ensures
            self.is_detached() ==> self.detached_hook().ran(),
    {
        proof {
            use_type_invariant(&self);
        }
        match self.inner {
            Inner::Platform(handle) => handle.close(),
            Inner::Detached(on_close) => on_close.run_close(),
        }
    }

    /// A handle whose `close` runs `on_close` instead of touching any
    /// platform API.
    pub fn detached<F: FnOnce() + Send + 'static>(on_close: F) -> (handle: Self)
        requires
            call_requires(on_close, ()),
        ensures
            handle.is_detached(),
            handle.detached_hook().ran() ==> call_ensures(on_close, (), ()),
    {
        let hook: Box<dyn CloseHook> = Box::new(on_close);
        NotificationHandle { inner: Inner::Detached(hook) }
    }
}

/// What goes onto the notifier thread: the session, the activation
/// callback, and the receiving end of the withdraw channel.
pub struct Delivery {
    session: Session,
    on_activate: Option<ActivateHandler>,
    cancel: async_channel::Receiver<()>,
    in_flight: &'static std::sync::atomic::AtomicUsize,
}

/// The model of a delivery: its session, and whether its callback is still
/// to run.
pub struct DeliveryView {
    pub session: SessionView,
    pub has_callback: bool,
}

impl View for Delivery {
    type V = DeliveryView;

    closed spec fn view(&self) -> DeliveryView {
        DeliveryView { session: self.session@, has_callback: self.on_activate is Some }
    }
}

impl Delivery {
    #[verifier::type_invariant]
    spec fn callback_callable(self) -> bool {
        match self.on_activate {
            Some(callback) => callback.accepts_any_token(),
            None => true,
        }
    }

    /// The count of withdraws in flight that this delivery releases from.
    pub closed spec fn counter(&self) -> &'static std::sync::atomic::AtomicUsize {
        self.in_flight
    }

    /// The activation callback still to run, if any.
    pub closed spec fn callback(&self) -> Option<ActivateHandler> {
        self.on_activate
    }

    /// Takes the outcome of the last action and answers with the next one.
    pub fn step(&mut self, event: Event) -> (action: Action)
        ensures
            (final(self)@.session, action@) == next(old(self)@.session, event@),
            final(self).callback() == old(self).callback(),
    {
        proof {
            use_type_invariant(&*self);
        }
        let mut session = Session::new(String::new(), String::new(), false);
        std::mem::swap(&mut session, &mut self.session);
        let action = session.step(event);
        self.session = session;
        action
    }

    /// Runs the activation callback, if it has not run yet, with `token`.
    pub fn activate(&mut self, token: Option<String>)
        ensures
            final(self)@.session == old(self)@.session,
            !final(self)@.has_callback,
            old(self).callback() matches Some(callback) ==> callback.ran_with(token),
    {
        proof {
            use_type_invariant(&*self);
        }
        let mut callback: Option<ActivateHandler> = None;
        std::mem::swap(&mut callback, &mut self.on_activate);
        match callback {
            Some(callback) => callback.run_activate(token),
            None => {},
        }
    }

    /// Takes one withdraw off the in-flight count.
    pub fn release(&self) {
        self.in_flight.fetch_sub(1, std::sync::atomic::Ordering::Relaxed);
    }

    /// Tries to take one queued withdraw request. Whether one is queued
    /// depends on the handle's thread.
    pub fn take_withdraw(&self) -> bool {
        try_recv_unit(&self.cancel)
    }

    /// The receiving end of the withdraw channel this delivery holds: the
    /// one `take_withdraw` takes requests from.
    pub closed spec fn withdraw_receiver(&self) -> async_channel::Receiver<()> {
        self.cancel
    }

    /// The receiving end of the withdraw channel, to wait on.
    pub fn cancel_receiver(&self) -> (receiver: &async_channel::Receiver<()>)
        ensures
            *receiver == self.withdraw_receiver(),
    {
        &self.cancel
    }
}

/// Prepares a desktop notification: the handle that withdraws it, and the
/// delivery the notifier thread carries out. An empty title shows as `Rio`.
/// When `on_activate` is present the notification is clickable and the
/// callback runs if the user activates it.
pub fn send_notification(
    title: &str,
    body: &str,
    on_activate: Option<ActivateHandler>,
    in_flight: &'static std::sync::atomic::AtomicUsize,
) -> (sent: (NotificationHandle, Delivery))
    requires
        on_activate matches Some(callback) ==> callback.accepts_any_token(),
    ensures
        !sent.0.is_detached(),
        sent.1@.session == SessionView::initial(shown_title(title@), body@, on_activate is Some),
        sent.1@.has_callback == on_activate is Some,
        sent.1.callback() == on_activate,
        channel_capacity(sent.1.withdraw_receiver()) == Some(1usize),
        sent.0.counter() == in_flight,
        sent.1.counter() == in_flight,
{
    let title = notification_title(title);
    let body = body.to_owned();
    let clickable = on_activate.is_some();
    // Capacity 1: a single `close` is all that can ever be sent (the handle
    // is consumed), and it must never block the UI thread.
    let (cancel_tx, cancel_rx) = bounded_channel(1);
    let handle = NotificationHandle {
        inner: Inner::Platform(PlatformHandle { cancel: cancel_tx, in_flight }),
    };
    let delivery = Delivery {
        session: Session::new(title, body, clickable),
        on_activate,
        cancel: cancel_rx,
        in_flight,
    };
    (handle, delivery)
}

} // verus!
