//! The caller-supplied callbacks a notification carries.
//!
//! A callback is a closure of the embedding program. It is boxed behind a
//! trait of this library so that it can travel with the handle (and onto
//! the notifier thread) and be run exactly once.
use vstd::prelude::*;

verus! {

/// A callback run when a detached handle is closed.
pub trait CloseHook: Send {
    /// The callback can be run now.
    spec fn callable(&self) -> bool;

    /// The callback has been run to its end.
    spec fn ran(&self) -> bool;

    /// Runs the callback, consuming it.
    fn run_close(self: Box<Self>)
        requires
            self.callable(),
        ensures
            self.ran(),
    ;
}

impl<F: FnOnce() + Send + 'static> CloseHook for F {
    open spec fn callable(&self) -> bool {
        call_requires(*self, ())
    }

    open spec fn ran(&self) -> bool {
        call_ensures(*self, (), ())
    }

    fn run_close(self: Box<Self>) {
        (*self)()
    }
}

/// A callback run when the user activates a notification. Its argument is
/// the xdg-activation token the daemon supplied with the click, if any.
pub trait ActivateHook: Send {
    /// The callback can be run with any token.
    spec fn accepts_any_token(&self) -> bool;

    /// The callback has been run to its end with `token`.
    spec fn ran_with(&self, token: Option<String>) -> bool;

    /// Runs the callback with `token`, consuming it.
    fn run_activate(self: Box<Self>, token: Option<String>)
        requires
            self.accepts_any_token(),
        ensures
            self.ran_with(token),
    ;
}

impl<F: FnOnce(Option<String>) + Send + 'static> ActivateHook for F {
    open spec fn accepts_any_token(&self) -> bool {
        forall|token: Option<String>| call_requires(*self, (token,))
    }

    open spec fn ran_with(&self, token: Option<String>) -> bool {
        call_ensures(*self, (token,), ())
    }

    fn run_activate(self: Box<Self>, token: Option<String>) {
        (*self)(token)
    }
}

/// A callback run when the user clicks/activates a notification, off the
/// main thread. Boxed because it is moved onto the notifier's background
/// thread, which outlives the call.
pub type ActivateHandler = Box<dyn ActivateHook>;

/// Boxes `callback` as the activation handler `send_notification` takes:
/// one that can be run with any token, and that has run with a token only
/// as `callback` would have. It is always `Some`.
pub fn activate_handler<F: FnOnce(Option<String>) + Send + 'static>(callback: F) -> (handler: Option<ActivateHandler>)
    requires
        forall|token: Option<String>| call_requires(callback, (token,)),
    ensures
        handler matches Some(h) && h.accepts_any_token(),
        handler matches Some(h) && forall|token: Option<String>| #[trigger] h.ran_with(token) ==> call_ensures(callback, (token,), ()),
{
    let boxed: Box<dyn ActivateHook> = Box::new(callback);
    Some(boxed)
}

} // verus!
