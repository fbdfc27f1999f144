//! What holds of a session over any trace of outcomes.
use vstd::prelude::*;
use crate::content::notify_request_view;
use crate::session::{
    next, names, ActionView, EventView, SessionView, SignalMessageView, Stage, WakeupView,
};

verus! {

/// The state a session reaches from `s`, and the actions it asks for, when
/// the outcomes `events` come in one after another.
pub open spec fn run(s: SessionView, events: Seq<EventView>) -> (SessionView, Seq<ActionView>)
    decreases events.len(),
{
    if events.len() == 0 {
        (s, seq![])
    } else {
        let (mid, actions) = run(s, events.drop_last());
        let (after, action) = next(mid, events.last());
        (after, actions.push(action))
    }
}

/// How many times `actions` runs the activation callback.
pub open spec fn activations(actions: Seq<ActionView>) -> nat
    decreases actions.len(),
{
    if actions.len() == 0 {
        0
    } else {
        activations(actions.drop_last()) + if actions.last() is Activate { 1nat } else { 0nat }
    }
}

/// How many withdraws `actions` releases from the in-flight count.
pub open spec fn releases(actions: Seq<ActionView>) -> nat
    decreases actions.len(),
{
    if actions.len() == 0 {
        0
    } else {
        releases(actions.drop_last()) + if actions.last() is Release { 1nat } else { 0nat }
    }
}

/// Whether a session at `stage` takes a withdraw request off the channel
/// on outcome `e`.
pub open spec fn takes_withdraw(stage: Stage, e: EventView) -> bool {
    ||| ((stage is Watching || stage is Showing) && e == EventView::Woke(WakeupView::Cancelled))
    ||| (stage == Stage::Draining && e == EventView::Drained(true))
}

/// How many withdraw requests a session from `s` takes off the channel
/// over `events`.
pub open spec fn withdraws_taken(s: SessionView, events: Seq<EventView>) -> nat
    decreases events.len(),
{
    if events.len() == 0 {
        0
    } else {
        withdraws_taken(s, events.drop_last()) + if takes_withdraw(
            run(s, events.drop_last()).0.stage,
            events.last(),
        ) {
            1nat
        } else {
            0nat
        }
    }
}

/// The withdraw a session at `stage` has taken and not yet released.
pub open spec fn owed(stage: Stage) -> nat {
    if stage == Stage::Withdrawing {
        1
    } else {
        0
    }
}

/// The activation token a daemon signal delivers for notification `id`.
pub open spec fn token_signal(id: u32, e: EventView) -> Option<Seq<char>> {
    match e {
        EventView::Woke(WakeupView::Signal(m)) => if names(m.member, "ActivationToken"@) {
            match m.id_and_text {
                Some((nid, token)) => if nid == id {
                    Some(token)
                } else {
                    None
                },
                None => None,
            }
        } else {
            None
        },
        _ => None,
    }
}

/// The most recent activation token delivered for notification `id` by
/// `events`, or `init` when none was.
pub open spec fn latest_token(id: u32, init: Option<Seq<char>>, events: Seq<EventView>) -> Option<Seq<char>>
    decreases events.len(),
{
    if events.len() == 0 {
        init
    } else if token_signal(id, events.last()) is Some {
        token_signal(id, events.last())
    } else {
        latest_token(id, init, events.drop_last())
    }
}

/// Stages a session reaches once it has stopped watching.
pub open spec fn after_watch(stage: Stage) -> bool {
    ||| stage == Stage::Withdrawing
    ||| stage == Stage::Activating
    ||| stage == Stage::Releasing
    ||| stage == Stage::Draining
    ||| stage == Stage::Finished
}

/// Stages a session reaches once its callback has run.
pub open spec fn after_activation(stage: Stage) -> bool {
    ||| stage == Stage::Activating
    ||| stage == Stage::Releasing
    ||| stage == Stage::Draining
    ||| stage == Stage::Finished
}

/// Stages of a notification without a click handler.
pub open spec fn plain_stage(stage: Stage) -> bool {
    ||| stage == Stage::Ready
    ||| stage == Stage::Connecting
    ||| stage == Stage::BuildingProxy
    ||| stage == Stage::PostingPlain
    ||| stage is Showing
    ||| stage == Stage::Withdrawing
    ||| stage == Stage::Releasing
    ||| stage == Stage::Draining
    ||| stage == Stage::Finished
}

/// The only actions a notification without a click handler asks for.
pub open spec fn plain_action(s: SessionView, a: ActionView) -> bool {
    ||| a == ActionView::OpenSession
    ||| a == ActionView::BuildProxy
    ||| a == ActionView::Post(notify_request_view(s.title, s.body, false))
    ||| a == ActionView::AwaitWithdraw
    ||| a is Withdraw
    ||| a == ActionView::Release
    ||| a == ActionView::Drain
    ||| a == ActionView::Stop
}

/// Whether a session at `stage` shows the posted notification `id`.
pub open spec fn showing(stage: Stage, id: u32) -> bool {
    stage == (Stage::Watching { id }) || stage == (Stage::Showing { id })
}

proof fn lemma_run_step(s: SessionView, events: Seq<EventView>)
    requires
        events.len() > 0,
    ensures
        run(s, events).0 == next(run(s, events.drop_last()).0, events.last()).0,
        run(s, events).1 == run(s, events.drop_last()).1.push(next(run(s, events.drop_last()).0, events.last()).1),
        run(s, events).1.drop_last() == run(s, events.drop_last()).1,
        run(s, events).1.last() == next(run(s, events.drop_last()).0, events.last()).1,
        run(s, events).1.len() > 0,
{
    let prev = run(s, events.drop_last()).1;
    let a = next(run(s, events.drop_last()).0, events.last()).1;
    assert(prev.push(a).drop_last() =~= prev);
}

/// A session never changes what it is about: its title, its body, and
/// whether it is clickable stay as they were made.
pub proof fn law_content_is_fixed(s: SessionView, events: Seq<EventView>)
    ensures
        run(s, events).0.title == s.title,
        run(s, events).0.body == s.body,
        run(s, events).0.clickable == s.clickable,
        run(s, events).1.len() == events.len(),
    decreases events.len(),
{
    if events.len() > 0 {
        law_content_is_fixed(s, events.drop_last());
    }
}

/// Once finished, a session stays finished and asks for nothing more.
pub proof fn law_finished_is_final(s: SessionView, e: EventView)
    requires
        s.stage == Stage::Finished,
    ensures
        next(s, e).0 == s,
        next(s, e).1 == ActionView::Stop,
{
}

/// If subscribing to the daemon's signals fails, the notification is still
/// posted, as a plain one, rather than dropped.
pub proof fn law_subscribe_failure_falls_back(s: SessionView)
    requires
        s.stage == Stage::Subscribing,
    ensures
        next(s, EventView::Subscribed(false)).0.stage == Stage::PostingPlain,
        next(s, EventView::Subscribed(false)).1 == ActionView::Post(
            notify_request_view(s.title, s.body, false),
        ),
{
}

/// A clickable notification subscribes before it posts: the post that
/// follows a built proxy is never the clickable one.
pub proof fn law_subscribe_before_post(s: SessionView)
    requires
        s.stage == Stage::BuildingProxy,
        s.clickable,
    ensures
        next(s, EventView::ProxyBuilt(true)) == (s.at(Stage::Subscribing), ActionView::Subscribe),
{
}

/// The clickable notification is posted only once the subscription to the
/// daemon's signals is in place, so a fast click cannot slip through the
/// gap between posting and subscribing.
pub proof fn law_clickable_post_follows_subscription(s: SessionView, e: EventView)
    requires
        next(s, e).1 == ActionView::Post(notify_request_view(s.title, s.body, true)),
    ensures
        s.stage == Stage::Subscribing,
        e == EventView::Subscribed(true),
{
    assert(notify_request_view(s.title, s.body, true).actions.len() == 2);
    assert(notify_request_view(s.title, s.body, false).actions.len() == 0);
}

/// A notification the daemon accepted is showing, clickable or not, under
/// the id the daemon gave it.
pub proof fn law_posted_notification_shows(s: SessionView, id: u32)
    requires
        s.stage == Stage::PostingPlain || s.stage == Stage::PostingClickable,
    ensures
        showing(next(s, EventView::Posted(Some(id))).0.stage, id),
        next(s, EventView::Posted(Some(id))).0.stage is Showing <==> s.stage == Stage::PostingPlain,
{
}

/// A withdraw request taken while a posted notification is showing, with
/// or without a click handler, closes exactly that notification.
pub proof fn law_withdraw_closes_own_notification(s: SessionView, id: u32)
    requires
        showing(s.stage, id),
    ensures
        next(s, EventView::Woke(WakeupView::Cancelled)).1 == ActionView::Withdraw(id),
        next(s, EventView::Woke(WakeupView::Cancelled)).0.stage == Stage::Withdrawing,
{
}

/// Signals about another notification leave a watching session as it is.
pub proof fn law_foreign_signals_ignored(s: SessionView, id: u32, m: SignalMessageView)
    requires
        s.stage == (Stage::Watching { id }),
        m.id_and_text matches Some((nid, _)) ==> nid != id,
        m.id_and_code matches Some((nid, _)) ==> nid != id,
    ensures
        next(s, EventView::Woke(WakeupView::Signal(m))) == (s, ActionView::AwaitWakeup),
{
}

/// The callback runs only on the `default` action invoked on the watched
/// notification.
pub proof fn law_activation_needs_default_action(s: SessionView, id: u32, e: EventView)
    requires
        s.stage == (Stage::Watching { id }),
        next(s, e).1 is Activate,
    ensures
        e matches EventView::Woke(WakeupView::Signal(m)) && names(m.member, "ActionInvoked"@)
            && m.id_and_text == Some((id, "default"@)),
{
}

/// Over any trace the callback runs at most once.
pub proof fn law_activation_at_most_once(s: SessionView, events: Seq<EventView>)
    ensures
        activations(run(s, events).1) <= 1,
        activations(run(s, events).1) == 1 ==> after_activation(run(s, events).0.stage),
    decreases events.len(),
{
    if events.len() > 0 {
        law_activation_at_most_once(s, events.drop_last());
        lemma_run_step(s, events);
    }
}

/// While a session watches notification `id`, it holds the most recent
/// activation token delivered for it; once it stops watching it never
/// watches again.
pub proof fn law_watch_keeps_latest_token(s: SessionView, id: u32, events: Seq<EventView>)
    requires
        s.stage == (Stage::Watching { id }),
    ensures
        run(s, events).0.stage == (Stage::Watching { id }) || after_watch(run(s, events).0.stage),
        run(s, events).0.stage == (Stage::Watching { id }) ==> run(s, events).0.pending_token
            == latest_token(id, s.pending_token, events),
    decreases events.len(),
{
    if events.len() > 0 {
        law_watch_keeps_latest_token(s, id, events.drop_last());
        lemma_run_step(s, events);
    }
}

/// A click runs the callback with the most recent activation token the
/// daemon sent for the notification before the click.
pub proof fn law_activation_uses_latest_token(s: SessionView, id: u32, events: Seq<EventView>)
    requires
        s.stage == (Stage::Watching { id }),
        events.len() > 0,
        run(s, events).1.last() is Activate,
    ensures
        run(s, events).1.last() == ActionView::Activate(
            latest_token(id, s.pending_token, events.drop_last()),
        ),
{
    law_watch_keeps_latest_token(s, id, events.drop_last());
    lemma_run_step(s, events);
}

/// Once a session has stopped watching (the notification was withdrawn,
/// clicked, dismissed or the signal stream ended), withdrawing is a no-op:
/// it never again asks for a `CloseNotification`, for a callback, or to
/// watch, whatever comes.
pub proof fn law_no_withdraw_after_watch(s: SessionView, events: Seq<EventView>)
    requires
        after_watch(s.stage),
    ensures
        after_watch(run(s, events).0.stage),
        forall|i: int|
            0 <= i < events.len() ==> !(#[trigger] run(s, events).1[i] is Withdraw) && !(run(
                s,
                events,
            ).1[i] is Activate) && !(run(s, events).1[i] is AwaitWakeup),
    decreases events.len(),
{
    if events.len() > 0 {
        law_no_withdraw_after_watch(s, events.drop_last());
        law_content_is_fixed(s, events.drop_last());
        lemma_run_step(s, events);
        let prev = run(s, events.drop_last()).1;
        let all = run(s, events).1;
        assert forall|i: int| 0 <= i < events.len() implies !(#[trigger] all[i] is Withdraw) && !(
        all[i] is Activate) && !(all[i] is AwaitWakeup) by {
            if i < events.len() - 1 {
                assert(all[i] == prev[i]);
            }
        }
    }
}

/// Every withdraw request a session takes off the channel is released from
/// the in-flight count exactly once: what it took and still owes balances
/// what it released.
pub proof fn law_withdraws_balance(s: SessionView, events: Seq<EventView>)
    ensures
        withdraws_taken(s, events) + owed(s.stage) == releases(run(s, events).1) + owed(
            run(s, events).0.stage,
        ),
    decreases events.len(),
{
    if events.len() > 0 {
        law_withdraws_balance(s, events.drop_last());
        lemma_run_step(s, events);
    }
}

/// A notification without a click handler never subscribes to the daemon's
/// signals, never waits on them and never runs a callback; what it posts
/// offers no action. It only waits for a withdraw request, and withdraws.
pub proof fn law_plain_notification_never_activates(s: SessionView, events: Seq<EventView>)
    requires
        !s.clickable,
        plain_stage(s.stage),
    ensures
        plain_stage(run(s, events).0.stage),
        forall|i: int| 0 <= i < events.len() ==> plain_action(s, #[trigger] run(s, events).1[i]),
    decreases events.len(),
{
    law_content_is_fixed(s, events);
    if events.len() > 0 {
        law_plain_notification_never_activates(s, events.drop_last());
        law_content_is_fixed(s, events.drop_last());
        lemma_run_step(s, events);
        let prev = run(s, events.drop_last()).1;
        let all = run(s, events).1;
        assert forall|i: int| 0 <= i < events.len() implies plain_action(s, #[trigger] all[i]) by {
            if i < events.len() - 1 {
                assert(all[i] == prev[i]);
            }
        }
    }
}

/// How many times `actions` asks for a `CloseNotification`.
pub open spec fn withdrawals(actions: Seq<ActionView>) -> nat
    decreases actions.len(),
{
    if actions.len() == 0 {
        0
    } else {
        withdrawals(actions.drop_last()) + if actions.last() is Withdraw { 1nat } else { 0nat }
    }
}

/// Over any trace a session asks for at most one `CloseNotification` or
/// one run of the callback, and never for both.
pub proof fn law_close_or_activation_at_most_once(s: SessionView, events: Seq<EventView>)
    ensures
        withdrawals(run(s, events).1) + activations(run(s, events).1) <= 1,
        withdrawals(run(s, events).1) + activations(run(s, events).1) == 1 ==> after_watch(
            run(s, events).0.stage,
        ),
    decreases events.len(),
{
    if events.len() > 0 {
        law_close_or_activation_at_most_once(s, events.drop_last());
        lemma_run_step(s, events);
    }
}

/// A wakeup that a session watching notification `id` has no use for: a
/// stream error, the handle dropped without a `close`, a signal without a member or with an unknown one, or a
/// known signal whose body is unreadable, names another notification, or
/// (for an invoked action) is not the `default` action.
pub open spec fn inert(id: u32, e: EventView) -> bool {
    match e {
        EventView::Woke(WakeupView::StreamError) => true,
        EventView::Woke(WakeupView::HandleGone) => true,
        EventView::Woke(WakeupView::Signal(m)) => match m.member {
            None => true,
            Some(name) => if name == "ActivationToken"@ {
                !(m.id_and_text matches Some((nid, _)) && nid == id)
            } else if name == "ActionInvoked"@ {
                !(m.id_and_text matches Some((nid, action)) && nid == id && action == "default"@)
            } else if name == "NotificationClosed"@ {
                !(m.id_and_code matches Some((nid, _)) && nid == id)
            } else {
                true
            },
        },
        _ => false,
    }
}

/// As many waits as `noise` has items.
pub open spec fn waits(noise: Seq<EventView>) -> Seq<ActionView> {
    Seq::new(noise.len(), |i: int| ActionView::AwaitWakeup)
}

/// Running two traces one after the other is running their concatenation.
pub proof fn lemma_run_concat(s: SessionView, a: Seq<EventView>, b: Seq<EventView>)
    ensures
        run(s, a + b).0 == run(run(s, a).0, b).0,
        run(s, a + b).1 == run(s, a).1 + run(run(s, a).0, b).1,
    decreases b.len(),
{
    if b.len() == 0 {
        assert(a + b =~= a);
        assert(run(s, a).1 + run(run(s, a).0, b).1 =~= run(s, a).1);
    } else {
        lemma_run_concat(s, a, b.drop_last());
        assert((a + b).drop_last() =~= a + b.drop_last());
        assert((a + b).last() == b.last());
        let mid = run(run(s, a).0, b.drop_last());
        let step = next(mid.0, b.last());
        assert(run(s, a).1 + mid.1.push(step.1) =~= (run(s, a).1 + mid.1).push(step.1));
    }
}

/// A watching session wakes up for inert items and does nothing: it stays
/// as it was and only waits again.
pub proof fn law_inert_wakeups_change_nothing(s: SessionView, id: u32, noise: Seq<EventView>)
    requires
        s.stage == (Stage::Watching { id }),
        forall|i: int| 0 <= i < noise.len() ==> inert(id, #[trigger] noise[i]),
    ensures
        run(s, noise).0 == s,
        run(s, noise).1 == waits(noise),
    decreases noise.len(),
{
    if noise.len() > 0 {
        let rest = noise.drop_last();
        assert forall|i: int| 0 <= i < rest.len() implies inert(id, #[trigger] rest[i]) by {
            assert(rest[i] == noise[i]);
        }
        law_inert_wakeups_change_nothing(s, id, rest);
        assert(inert(id, noise[noise.len() - 1]));
        assert(waits(rest).push(ActionView::AwaitWakeup) =~= waits(noise));
    }
}

/// Inert items that reach a watching session change nothing of the run:
/// with them, it ends in the same state and asks for the same work, with
/// one more wait for each.
pub proof fn law_inert_wakeups_do_not_matter(
    s: SessionView,
    id: u32,
    before: Seq<EventView>,
    noise: Seq<EventView>,
    after: Seq<EventView>,
)
    requires
        run(s, before).0.stage == (Stage::Watching { id }),
        forall|i: int| 0 <= i < noise.len() ==> inert(id, #[trigger] noise[i]),
    ensures
        run(s, before + noise + after).0 == run(s, before + after).0,
        run(s, before + noise + after).1 == run(s, before).1 + waits(noise) + run(
            run(s, before).0,
            after,
        ).1,
        run(s, before + after).1 == run(s, before).1 + run(run(s, before).0, after).1,
{
    let w = run(s, before).0;
    law_inert_wakeups_change_nothing(w, id, noise);
    lemma_run_concat(s, before, noise);
    lemma_run_concat(s, before + noise, after);
    lemma_run_concat(s, before, after);
}

/// The daemon closing the watched notification ends the watch, whatever
/// the reason it gives (expired, dismissed, closed by a call, or any other
/// code) and whatever else the signal carries: the session goes on to drain.
pub proof fn law_closed_notification_ends_watch(
    s: SessionView,
    id: u32,
    reason: u32,
    text: Option<(u32, Seq<char>)>,
)
    requires
        s.stage == (Stage::Watching { id }),
    ensures
        next(
            s,
            EventView::Woke(
                WakeupView::Signal(
                    SignalMessageView {
                        member: Some("NotificationClosed"@),
                        id_and_text: text,
                        id_and_code: Some((id, reason)),
                    },
                ),
            ),
        ) == (s.at(Stage::Draining), ActionView::Drain),
{
    reveal_strlit("NotificationClosed");
    reveal_strlit("ActivationToken");
    reveal_strlit("ActionInvoked");
    assert("NotificationClosed"@[0] != "ActivationToken"@[0]);
    assert("NotificationClosed"@[0] != "ActionInvoked"@[0]);
}

/// The `default` action invoked on the watched notification runs the
/// callback with the token held so far, forgets that token and ends the
/// watch; the same holds whatever the signal's other body reads.
pub proof fn law_default_action_activates(
    s: SessionView,
    id: u32,
    code: Option<(u32, u32)>,
)
    requires
        s.stage == (Stage::Watching { id }),
    ensures
        next(
            s,
            EventView::Woke(
                WakeupView::Signal(
                    SignalMessageView {
                        member: Some("ActionInvoked"@),
                        id_and_text: Some((id, "default"@)),
                        id_and_code: code,
                    },
                ),
            ),
        ) == (
            SessionView { stage: Stage::Activating, pending_token: None, ..s },
            ActionView::Activate(s.pending_token),
        ),
{
    reveal_strlit("ActivationToken");
    reveal_strlit("ActionInvoked");
    assert("ActionInvoked"@[4] != "ActivationToken"@[4]);
}

/// An activation token for the watched notification replaces the token
/// held so far, and the watch goes on.
pub proof fn law_token_for_watched_notification_is_kept(
    s: SessionView,
    id: u32,
    token: Seq<char>,
    code: Option<(u32, u32)>,
)
    requires
        s.stage == (Stage::Watching { id }),
    ensures
        next(
            s,
            EventView::Woke(
                WakeupView::Signal(
                    SignalMessageView {
                        member: Some("ActivationToken"@),
                        id_and_text: Some((id, token)),
                        id_and_code: code,
                    },
                ),
            ),
        ) == (SessionView { pending_token: Some(token), ..s }, ActionView::AwaitWakeup),
{
}

/// The end of the daemon's signal stream ends the watch: the session goes
/// on to drain.
pub proof fn law_stream_end_ends_watch(s: SessionView, id: u32)
    requires
        s.stage == (Stage::Watching { id }),
    ensures
        next(s, EventView::Woke(WakeupView::StreamEnded)) == (s.at(Stage::Draining), ActionView::Drain),
{
}

} // verus!
