//! The conversation one clickable (or plain) notification has with the
//! desktop's notification daemon over D-Bus.
//!
//! The notifier thread alternates awaited D-Bus work with decisions. The
//! decisions live here: a `Session` takes the outcome of the last piece of
//! work as an `Event` and answers with the next piece of work to do, an
//! `Action`. The thread performs the action and reports its outcome.
//!
//! A session opens the session bus, builds the notifications proxy and, for
//! a clickable notification, subscribes to the daemon's signals *before*
//! posting, so a fast click cannot slip through. It then watches: a
//! withdraw request closes the notification, a click runs the callback with
//! the most recent activation token, a dismissal ends the watch. A
//! notification without a click handler is shown until its handle asks to
//! withdraw it, or is dropped. Afterwards the session drains withdraw
//! requests that arrived too late, releasing each one from the in-flight
//! count.
use vstd::prelude::*;
use crate::content::{notify_request, notify_request_view, NotifyRequest, NotifyRequestView};

verus! {

/// Where a session stands: which piece of work it waits on.
#[derive(Clone, Copy, Debug, PartialEq, Eq, Structural)]
pub enum Stage {
    /// Not started.
    Ready,
    /// Waiting for the session bus.
    Connecting,
    /// Waiting for the notifications proxy.
    BuildingProxy,
    /// Waiting for the subscription to the daemon's signals.
    Subscribing,
    /// Waiting for the post of a notification without a click handler.
    PostingPlain,
    /// Waiting for the post of a clickable notification.
    PostingClickable,
    /// Watching the clickable notification the daemon numbered `id`.
    Watching { id: u32 },
    /// Showing the plain notification the daemon numbered `id`, until the
    /// handle asks to withdraw it or is dropped.
    Showing { id: u32 },
    /// Waiting for a `CloseNotification` to be sent.
    Withdrawing,
    /// Waiting for the activation callback to run.
    Activating,
    /// Waiting for one withdraw to be released from the in-flight count.
    Releasing,
    /// Waiting to learn whether one more withdraw request is queued.
    Draining,
    /// Done; nothing more will be asked.
    Finished,
}

/// The strings carried by a daemon signal, read from a D-Bus message: its
/// member name, and its body read as `(u32, String)` and as `(u32, u32)`
/// where it has that shape.
#[derive(Debug, PartialEq, Eq)]
pub struct SignalMessage {
    pub member: Option<String>,
    pub id_and_text: Option<(u32, String)>,
    pub id_and_code: Option<(u32, u32)>,
}

/// What woke a watching session.
#[derive(Debug, PartialEq, Eq)]
pub enum Wakeup {
    /// The handle asked for the notification to be withdrawn.
    Cancelled,
    /// The daemon's signal stream ended.
    StreamEnded,
    /// The signal stream yielded an error.
    StreamError,
    /// The handle was dropped without a `close`: no withdraw will come.
    HandleGone,
    /// The daemon emitted a signal.
    Signal(SignalMessage),
}

/// The outcome of the last action.
#[derive(Debug, PartialEq, Eq)]
pub enum Event {
    /// The notifier thread is ready to begin.
    Start,
    /// Whether the session bus could be opened.
    SessionOpened(bool),
    /// Whether the notifications proxy could be built.
    ProxyBuilt(bool),
    /// Whether the subscription to the daemon's signals was installed.
    Subscribed(bool),
    /// The id the daemon gave the posted notification, or `None` when the
    /// call failed.
    Posted(Option<u32>),
    /// What woke the watch.
    Woke(Wakeup),
    /// An action without a result was carried out.
    Performed,
    /// Whether one more queued withdraw request was taken.
    Drained(bool),
}

/// The next piece of work.
#[derive(Debug, PartialEq, Eq)]
pub enum Action {
    /// Open the session bus.
    OpenSession,
    /// Build the `org.freedesktop.Notifications` proxy.
    BuildProxy,
    /// Subscribe to the daemon's signals.
    Subscribe,
    /// Call `Notify` with this request.
    Post(NotifyRequest),
    /// Wait for the next signal or withdraw request.
    AwaitWakeup,
    /// Wait for a withdraw request only.
    AwaitWithdraw,
    /// Call `CloseNotification` for this id, ignoring any reply.
    Withdraw(u32),
    /// Run the activation callback with this token.
    Activate(Option<String>),
    /// Take one withdraw off the in-flight count.
    Release,
    /// Try to take one more queued withdraw request.
    Drain,
    /// End the session.
    Stop,
}

pub struct SignalMessageView {
    pub member: Option<Seq<char>>,
    pub id_and_text: Option<(u32, Seq<char>)>,
    pub id_and_code: Option<(u32, u32)>,
}

pub enum WakeupView {
    Cancelled,
    StreamEnded,
    StreamError,
    HandleGone,
    Signal(SignalMessageView),
}

pub enum EventView {
    Start,
    SessionOpened(bool),
    ProxyBuilt(bool),
    Subscribed(bool),
    Posted(Option<u32>),
    Woke(WakeupView),
    Performed,
    Drained(bool),
}

pub enum ActionView {
    OpenSession,
    BuildProxy,
    Subscribe,
    Post(NotifyRequestView),
    AwaitWakeup,
    AwaitWithdraw,
    Withdraw(u32),
    Activate(Option<Seq<char>>),
    Release,
    Drain,
    Stop,
}

pub open spec fn text_of(s: Option<String>) -> Option<Seq<char>> {
    match s {
        Some(t) => Some(t@),
        None => None,
    }
}

impl View for SignalMessage {
    type V = SignalMessageView;

    open spec fn view(&self) -> SignalMessageView {
        SignalMessageView {
            member: text_of(self.member),
            id_and_text: match self.id_and_text {
                Some((id, text)) => Some((id, text@)),
                None => None,
            },
            id_and_code: self.id_and_code,
        }
    }
}

impl View for Wakeup {
    type V = WakeupView;

    open spec fn view(&self) -> WakeupView {
        match self {
            Wakeup::Cancelled => WakeupView::Cancelled,
            Wakeup::StreamEnded => WakeupView::StreamEnded,
            Wakeup::StreamError => WakeupView::StreamError,
            Wakeup::HandleGone => WakeupView::HandleGone,
            Wakeup::Signal(m) => WakeupView::Signal(m@),
        }
    }
}

impl View for Event {
    type V = EventView;

    open spec fn view(&self) -> EventView {
        match self {
            Event::Start => EventView::Start,
            Event::SessionOpened(ok) => EventView::SessionOpened(*ok),
            Event::ProxyBuilt(ok) => EventView::ProxyBuilt(*ok),
            Event::Subscribed(ok) => EventView::Subscribed(*ok),
            Event::Posted(id) => EventView::Posted(*id),
            Event::Woke(w) => EventView::Woke(w@),
            Event::Performed => EventView::Performed,
            Event::Drained(taken) => EventView::Drained(*taken),
        }
    }
}

impl View for Action {
    type V = ActionView;

    open spec fn view(&self) -> ActionView {
        match self {
            Action::OpenSession => ActionView::OpenSession,
            Action::BuildProxy => ActionView::BuildProxy,
            Action::Subscribe => ActionView::Subscribe,
            Action::Post(request) => ActionView::Post(request@),
            Action::AwaitWakeup => ActionView::AwaitWakeup,
            Action::AwaitWithdraw => ActionView::AwaitWithdraw,
            Action::Withdraw(id) => ActionView::Withdraw(*id),
            Action::Activate(token) => ActionView::Activate(text_of(*token)),
            Action::Release => ActionView::Release,
            Action::Drain => ActionView::Drain,
            Action::Stop => ActionView::Stop,
        }
    }
}

/// The model of a session.
pub struct SessionView {
    pub stage: Stage,
    pub title: Seq<char>,
    pub body: Seq<char>,
    pub clickable: bool,
    pub pending_token: Option<Seq<char>>,
}

impl SessionView {
    /// A session that has not started.
    pub open spec fn initial(title: Seq<char>, body: Seq<char>, clickable: bool) -> SessionView {
        SessionView { stage: Stage::Ready, title, body, clickable, pending_token: None }
    }

    pub open spec fn at(self, stage: Stage) -> SessionView {
        SessionView { stage, ..self }
    }

    /// The request posted for this session, clickable or not.
    pub open spec fn request(self, clickable: bool) -> NotifyRequestView {
        notify_request_view(self.title, self.body, clickable)
    }

    pub open spec fn finish(self) -> (SessionView, ActionView) {
        (self.at(Stage::Finished), ActionView::Stop)
    }
}

/// Whether a member name read from a signal is `name`.
pub open spec fn names(member: Option<Seq<char>>, name: Seq<char>) -> bool {
    member == Some(name)
}

/// The answer of a session watching notification `id` to a daemon signal.
/// Signals about other notifications leave it as it is.
pub open spec fn signal_next(s: SessionView, id: u32, m: SignalMessageView) -> (SessionView, ActionView) {
    if names(m.member, "ActivationToken"@) {
        match m.id_and_text {
            Some((nid, token)) if nid == id => (SessionView { pending_token: Some(token), ..s }, ActionView::AwaitWakeup),
            _ => (s, ActionView::AwaitWakeup),
        }
    } else if names(m.member, "ActionInvoked"@) {
        match m.id_and_text {
            Some((nid, action)) if nid == id && action == "default"@ => (
                SessionView { stage: Stage::Activating, pending_token: None, ..s },
                ActionView::Activate(s.pending_token),
            ),
            _ => (s, ActionView::AwaitWakeup),
        }
    } else if names(m.member, "NotificationClosed"@) {
        match m.id_and_code {
            Some((nid, _reason)) if nid == id => (s.at(Stage::Draining), ActionView::Drain),
            _ => (s, ActionView::AwaitWakeup),
        }
    } else {
        (s, ActionView::AwaitWakeup)
    }
}

/// The answer of a session watching notification `id` to a wakeup.
pub open spec fn watch_next(s: SessionView, id: u32, w: WakeupView) -> (SessionView, ActionView) {
    match w {
        WakeupView::Cancelled => (s.at(Stage::Withdrawing), ActionView::Withdraw(id)),
        WakeupView::StreamEnded => (s.at(Stage::Draining), ActionView::Drain),
        WakeupView::StreamError => (s, ActionView::AwaitWakeup),
        WakeupView::HandleGone => (s, ActionView::AwaitWakeup),
        WakeupView::Signal(m) => signal_next(s, id, m),
    }
}

/// The next state and action of a session, given the outcome of the last
/// action. An outcome that does not answer the action a stage waits on
/// ends the session, except where the action has no outcome to report
/// (withdraw, activate, release), whose stages move on whatever comes.
pub open spec fn next(s: SessionView, e: EventView) -> (SessionView, ActionView) {
    match s.stage {
        Stage::Ready => (s.at(Stage::Connecting), ActionView::OpenSession),
        Stage::Connecting => match e {
            EventView::SessionOpened(true) => (s.at(Stage::BuildingProxy), ActionView::BuildProxy),
            _ => s.finish(),
        },
        Stage::BuildingProxy => match e {
            EventView::ProxyBuilt(true) => if s.clickable {
                (s.at(Stage::Subscribing), ActionView::Subscribe)
            } else {
                (s.at(Stage::PostingPlain), ActionView::Post(s.request(false)))
            },
            _ => s.finish(),
        },
        Stage::Subscribing => match e {
            EventView::Subscribed(true) => (s.at(Stage::PostingClickable), ActionView::Post(s.request(true))),
            EventView::Subscribed(false) => (s.at(Stage::PostingPlain), ActionView::Post(s.request(false))),
            _ => s.finish(),
        },
        Stage::PostingPlain => match e {
            EventView::Posted(Some(id)) => (s.at(Stage::Showing { id }), ActionView::AwaitWithdraw),
            _ => s.finish(),
        },
        Stage::PostingClickable => match e {
            EventView::Posted(Some(id)) => (s.at(Stage::Watching { id }), ActionView::AwaitWakeup),
            _ => s.finish(),
        },
        Stage::Watching { id } => match e {
            EventView::Woke(w) => watch_next(s, id, w),
            _ => s.finish(),
        },
        Stage::Showing { id } => match e {
            EventView::Woke(WakeupView::Cancelled) => (s.at(Stage::Withdrawing), ActionView::Withdraw(id)),
            _ => s.finish(),
        },
        Stage::Withdrawing => (s.at(Stage::Releasing), ActionView::Release),
        Stage::Activating => (s.at(Stage::Draining), ActionView::Drain),
        Stage::Releasing => (s.at(Stage::Draining), ActionView::Drain),
        Stage::Draining => match e {
            EventView::Drained(true) => (s.at(Stage::Releasing), ActionView::Release),
            _ => s.finish(),
        },
        Stage::Finished => s.finish(),
    }
}

/// One notification's conversation with the daemon.
pub struct Session {
    stage: Stage,
    title: String,
    body: String,
    clickable: bool,
    pending_token: Option<String>,
}

impl View for Session {
    type V = SessionView;

    closed spec fn view(&self) -> SessionView {
        SessionView {
            stage: self.stage,
            title: self.title@,
            body: self.body@,
            clickable: self.clickable,
            pending_token: text_of(self.pending_token),
        }
    }
}

/// Whether `text` reads `expected`.
fn reads(text: &String, expected: &str) -> (same: bool)
    ensures
        same == (text@ == expected@),
{
    *text == expected.to_owned()
}

impl Session {
    /// A session, not yet started, for a notification with this title and
    /// body, clickable when it has an activation callback.
    pub fn new(title: String, body: String, clickable: bool) -> (session: Session)
        ensures
            session@ == SessionView::initial(title@, body@, clickable),
    {
        Session { stage: Stage::Ready, title, body, clickable, pending_token: None }
    }

    /// The stage the session is in.
    pub fn stage(&self) -> (stage: Stage)
        ensures
            stage == self@.stage,
    {
        self.stage
    }

    fn finish(&mut self) -> (action: Action)
        ensures
            (final(self)@, action@) == old(self)@.finish(),
    {
        self.stage = Stage::Finished;
        Action::Stop
    }

    fn post(&mut self, stage: Stage, clickable: bool) -> (action: Action)
        ensures
            final(self)@ == old(self)@.at(stage),
            action@ == ActionView::Post(old(self)@.request(clickable)),
    {
        self.stage = stage;
        Action::Post(notify_request(self.title.clone(), self.body.clone(), clickable))
    }

    fn signal_step(&mut self, id: u32, m: SignalMessage) -> (action: Action)
        ensures
            (final(self)@, action@) == signal_next(old(self)@, id, m@),
    {
        match m.member {
            None => Action::AwaitWakeup,
            Some(name) => {
                if reads(&name, "ActivationToken") {
                    match m.id_and_text {
                        Some((nid, token)) => {
                            if nid == id {
                                self.pending_token = Some(token);
                            }
                        },
                        None => {},
                    }
                    Action::AwaitWakeup
                } else if reads(&name, "ActionInvoked") {
                    match m.id_and_text {
                        Some((nid, action)) => {
                            if nid == id && reads(&action, "default") {
                                self.stage = Stage::Activating;
                                let token = self.pending_token.take();
                                Action::Activate(token)
                            } else {
                                Action::AwaitWakeup
                            }
                        },
                        None => Action::AwaitWakeup,
                    }
                } else if reads(&name, "NotificationClosed") {
                    match m.id_and_code {
                        Some((nid, _reason)) => {
                            if nid == id {
                                self.stage = Stage::Draining;
                                Action::Drain
                            } else {
                                Action::AwaitWakeup
                            }
                        },
                        None => Action::AwaitWakeup,
                    }
                } else {
                    Action::AwaitWakeup
                }
            },
        }
    }

    fn watch_step(&mut self, id: u32, w: Wakeup) -> (action: Action)
        ensures
            (final(self)@, action@) == watch_next(old(self)@, id, w@),
    {
        match w {
            Wakeup::Cancelled => {
                self.stage = Stage::Withdrawing;
                Action::Withdraw(id)
            },
            Wakeup::StreamEnded => {
                self.stage = Stage::Draining;
                Action::Drain
            },
            Wakeup::StreamError => Action::AwaitWakeup,
            Wakeup::HandleGone => Action::AwaitWakeup,
            Wakeup::Signal(m) => self.signal_step(id, m),
        }
    }

    /// Takes the outcome of the last action and answers with the next one.
    pub fn step(&mut self, event: Event) -> (action: Action)
        ensures
            (final(self)@, action@) == next(old(self)@, event@),
    {
        match self.stage {
            Stage::Ready => {
                self.stage = Stage::Connecting;
                Action::OpenSession
            },
            Stage::Connecting => match event {
                Event::SessionOpened(true) => {
                    self.stage = Stage::BuildingProxy;
                    Action::BuildProxy
                },
                _ => self.finish(),
            },
            Stage::BuildingProxy => match event {
                Event::ProxyBuilt(true) => {
                    if self.clickable {
                        self.stage = Stage::Subscribing;
                        Action::Subscribe
                    } else {
                        self.post(Stage::PostingPlain, false)
                    }
                },
                _ => self.finish(),
            },
            Stage::Subscribing => match event {
                Event::Subscribed(true) => self.post(Stage::PostingClickable, true),
                Event::Subscribed(false) => self.post(Stage::PostingPlain, false),
                _ => self.finish(),
            },
            Stage::PostingPlain => match event {
                Event::Posted(Some(id)) => {
                    self.stage = Stage::Showing { id };
                    Action::AwaitWithdraw
                },
                _ => self.finish(),
            },
            Stage::Showing { id } => match event {
                Event::Woke(Wakeup::Cancelled) => {
                    self.stage = Stage::Withdrawing;
                    Action::Withdraw(id)
                },
                _ => self.finish(),
            },
            Stage::PostingClickable => match event {
                Event::Posted(Some(id)) => {
                    self.stage = Stage::Watching { id };
                    Action::AwaitWakeup
                },
                _ => self.finish(),
            },
            Stage::Watching { id } => match event {
                Event::Woke(w) => self.watch_step(id, w),
                _ => self.finish(),
            },
            Stage::Withdrawing => {
                self.stage = Stage::Releasing;
                Action::Release
            },
            Stage::Activating => {
                self.stage = Stage::Draining;
                Action::Drain
            },
            Stage::Releasing => {
                self.stage = Stage::Draining;
                Action::Drain
            },
            Stage::Draining => match event {
                Event::Drained(true) => {
                    self.stage = Stage::Releasing;
                    Action::Release
                },
                _ => self.finish(),
            },
            Stage::Finished => self.finish(),
        }
    }
}

} // verus!
