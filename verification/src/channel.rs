//! The withdraw channel between a notification handle and the notifier
//! thread that owns the D-Bus connection, from the `async-channel` crate.
//!
//! Whether a send or a receive succeeds depends on what the other thread
//! has done meanwhile (taken the message, dropped its end), so the
//! contracts below promise nothing about those outcomes.
use vstd::prelude::*;

verus! {

#[verifier::external_type_specification]
#[verifier::external_body]
#[verifier::reject_recursive_types(T)]
pub struct ExSender<T>(async_channel::Sender<T>);

#[verifier::external_type_specification]
#[verifier::external_body]
#[verifier::reject_recursive_types(T)]
pub struct ExReceiver<T>(async_channel::Receiver<T>);

/// The capacity a channel was made with, as `Receiver::capacity` reports
/// it: `Some(n)` for a channel that holds at most `n` messages. It is fixed
/// when the channel is made.
pub uninterp spec fn channel_capacity(receiver: async_channel::Receiver<()>) -> Option<usize>;

/// `async_channel::bounded`: a fresh channel that holds at most `cap`
/// messages, whose receiver reports `Some(cap)` as its capacity (the
/// crate's documented `bounded(5)` gives `capacity() == Some(5)`). The crate
/// panics on a zero capacity, which `requires` rules out. Nothing else is
/// stated of the two ends, and in particular not that they belong to one
/// channel: that rests on an address.
#[verifier::external_body]
pub(crate) fn bounded_channel(cap: usize) -> (channel: (async_channel::Sender<()>, async_channel::Receiver<()>))
    requires
        cap > 0,
    ensures
        channel_capacity(channel.1) == Some(cap),
{
    async_channel::bounded(cap)
}

/// `Sender::try_send`: whether the message was queued. It fails when the
/// channel is full or its receiver is gone, which depends on the other
/// thread; no clause states the outcome.
#[verifier::external_body]
pub(crate) fn try_send_unit(sender: &async_channel::Sender<()>) -> bool {
    sender.try_send(()).is_ok()
}

/// `Receiver::try_recv`: whether a queued message was taken. It fails when
/// the channel is empty, which depends on the other thread; no clause
/// states the outcome.
#[verifier::external_body]
pub(crate) fn try_recv_unit(receiver: &async_channel::Receiver<()>) -> bool {
    receiver.try_recv().is_ok()
}

} // verus!
