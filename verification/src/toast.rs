//! Withdrawing a Windows toast that may not have been shown yet.
//!
//! The delivery thread builds and shows the toast while the UI thread may
//! already be closing the handle. Both sides meet in a `WithdrawSlot`: the
//! shown toast is parked there for a later `close`, or, when `close` came
//! first, the request is parked there and the delivery thread hides the
//! toast as soon as it has shown it.
use vstd::prelude::*;

verus! {

/// The state shared by the delivery thread and the handle.
pub struct WithdrawSlot<T> {
    /// The shown toast, kept so `close` can hide it. `None` until the toast
    /// is shown, or after a withdraw.
    toast: Option<T>,
    /// `close` ran before the toast was shown.
    withdraw_pending: bool,
}

pub struct SlotView<T> {
    pub toast: Option<T>,
    pub withdraw_pending: bool,
}

impl<T> View for WithdrawSlot<T> {
    type V = SlotView<T>;

    closed spec fn view(&self) -> SlotView<T> {
        SlotView { toast: self.toast, withdraw_pending: self.withdraw_pending }
    }
}

/// A slot before either side has acted.
pub open spec fn empty_slot<T>() -> SlotView<T> {
    SlotView { toast: None, withdraw_pending: false }
}

/// Closing the handle: the parked toast is handed back to be hidden, or,
/// when none is parked yet, the withdraw is left pending.
pub open spec fn close_next<T>(s: SlotView<T>) -> (SlotView<T>, Option<T>) {
    match s.toast {
        Some(toast) => (SlotView { toast: None, ..s }, Some(toast)),
        None => (SlotView { withdraw_pending: true, ..s }, None),
    }
}

/// The toast was shown: it is handed back to be hidden at once when a
/// withdraw is pending, and parked otherwise.
pub open spec fn shown_next<T>(s: SlotView<T>, toast: T) -> (SlotView<T>, Option<T>) {
    if s.withdraw_pending {
        (s, Some(toast))
    } else {
        (SlotView { toast: Some(toast), ..s }, None)
    }
}

impl<T> WithdrawSlot<T> {
    /// A slot before either side has acted.
    pub fn new() -> (slot: WithdrawSlot<T>)
        ensures
            slot@ == empty_slot::<T>(),
    {
        WithdrawSlot { toast: None, withdraw_pending: false }
    }

    /// The handle is closed; returns the toast to hide now, if any.
    pub fn close(&mut self) -> (to_hide: Option<T>)
        ensures
            (final(self)@, to_hide) == close_next(old(self)@),
    {
        match self.toast.take() {
            Some(toast) => Some(toast),
            None => {
                self.withdraw_pending = true;
                None
            },
        }
    }

    /// The toast has been shown; returns it back when it must be hidden
    /// now, because a withdraw raced ahead of the show.
    pub fn shown(&mut self, toast: T) -> (to_hide: Option<T>)
        ensures
            (final(self)@, to_hide) == shown_next(old(self)@, toast),
    {
        if self.withdraw_pending {
            Some(toast)
        } else {
            self.toast = Some(toast);
            None
        }
    }
}

/// Whichever of showing and closing comes first, a closed toast is hidden,
/// exactly once, by the second of the two.
pub proof fn law_closed_toast_hidden_once<T>(toast: T)
    ensures
        shown_next(empty_slot::<T>(), toast).1 is None,
        close_next(shown_next(empty_slot::<T>(), toast).0).1 == Some(toast),
        close_next(empty_slot::<T>()).1 is None,
        shown_next(close_next(empty_slot::<T>()).0, toast).1 == Some(toast),
{
}

/// A toast that is never closed stays shown: showing it hides nothing.
pub proof fn law_unclosed_toast_stays<T>(toast: T)
    ensures
        shown_next(empty_slot::<T>(), toast) == (SlotView { toast: Some(toast), withdraw_pending: false }, None::<T>),
{
}

} // verus!
