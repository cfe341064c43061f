//! The node session's lifecycle: from acquiring an identity, through
//! joining and announcing, to the active send path and shutdown. Each event
//! that the transport or the input side reports yields the next phase and
//! the one action to perform.
use vstd::prelude::*;
use crate::codec::{Message, MessageView, wire};
use crate::error::ChatError;
use crate::peer::PeerId;

verus! {

/// The phases of a session, in the order they are passed through.
#[derive(Clone, Copy, Debug, PartialEq, Eq, Structural)]
pub enum Phase {
    Starting,
    Joining,
    Announcing,
    Active,
    ShuttingDown,
    Stopped,
}

/// What the outside world reports to the session.
pub enum SessionEvent {
    /// The transport gave the local identity.
    IdentityReady(PeerId),
    /// The topic was joined.
    Joined,
    /// Acquiring the identity or joining the topic failed.
    StartFailed,
    /// The last broadcast went through.
    Sent,
    /// The last broadcast failed.
    SendFailed,
    /// The input bridge handed over a line.
    LineRead(String),
    /// The input bridge closed: end of input or a failed read.
    InputEnded,
    /// The inbound event stream failed.
    ReceiveFailed,
    /// A stop was requested from outside.
    StopRequested,
    /// The subscription and the transport were torn down.
    ShutdownDone,
}

/// The mathematical value of an event.
pub enum SessionEventView {
    IdentityReady(Seq<u8>),
    Joined,
    StartFailed,
    Sent,
    SendFailed,
    LineRead(Seq<char>),
    InputEnded,
    ReceiveFailed,
    StopRequested,
    ShutdownDone,
}

impl View for SessionEvent {
    type V = SessionEventView;

    open spec fn view(&self) -> SessionEventView {
        match self {
            SessionEvent::IdentityReady(id) => SessionEventView::IdentityReady(id@),
            SessionEvent::Joined => SessionEventView::Joined,
            SessionEvent::StartFailed => SessionEventView::StartFailed,
            SessionEvent::Sent => SessionEventView::Sent,
            SessionEvent::SendFailed => SessionEventView::SendFailed,
            SessionEvent::LineRead(s) => SessionEventView::LineRead(s@),
            SessionEvent::InputEnded => SessionEventView::InputEnded,
            SessionEvent::ReceiveFailed => SessionEventView::ReceiveFailed,
            SessionEvent::StopRequested => SessionEventView::StopRequested,
            SessionEvent::ShutdownDone => SessionEventView::ShutdownDone,
        }
    }
}

/// What the session asks the outside world to do next.
#[derive(Debug)]
pub enum SessionAction {
    /// Join the topic.
    Join,
    /// Broadcast these bytes, then report `Sent` or `SendFailed`.
    Broadcast(Vec<u8>),
    /// Wait for the next line from the input bridge.
    NextLine,
    /// Tell the user of this failure, then wait for the next line.
    Report(ChatError),
    /// Tear down the subscription and the transport, then report
    /// `ShutdownDone`.
    Shutdown,
    /// The session ended; with the failure that ended it, if one did.
    Exit(Option<ChatError>),
    /// Startup was abandoned; with the failure, if it was the announcement.
    Abort(Option<ChatError>),
    /// The event does not apply in this phase.
    Ignore,
}

/// The mathematical value of an action.
pub enum SessionActionView {
    Join,
    Broadcast(Seq<u8>),
    NextLine,
    Report(ChatError),
    Shutdown,
    Exit(Option<ChatError>),
    Abort(Option<ChatError>),
    Ignore,
}

impl View for SessionAction {
    type V = SessionActionView;

    open spec fn view(&self) -> SessionActionView {
        match self {
            SessionAction::Join => SessionActionView::Join,
            SessionAction::Broadcast(b) => SessionActionView::Broadcast(b@),
            SessionAction::NextLine => SessionActionView::NextLine,
            SessionAction::Report(e) => SessionActionView::Report(*e),
            SessionAction::Shutdown => SessionActionView::Shutdown,
            SessionAction::Exit(e) => SessionActionView::Exit(*e),
            SessionAction::Abort(e) => SessionActionView::Abort(*e),
            SessionAction::Ignore => SessionActionView::Ignore,
        }
    }
}

/// The mathematical state of a session.
pub struct SessionView {
    pub phase: Phase,
    pub me: Option<Seq<u8>>,
    pub name: Seq<char>,
    pub failure: Option<ChatError>,
}

/// The phases that can still be stopped from outside.
pub open spec fn stoppable(p: Phase) -> bool {
    p == Phase::Starting || p == Phase::Joining || p == Phase::Announcing || p == Phase::Active
}

/// One step of the session: the next state and the action to perform.
pub open spec fn session_step(s: SessionView, e: SessionEventView) -> (SessionView, SessionActionView) {
    match (s.phase, e) {
        (Phase::Starting, SessionEventView::IdentityReady(id)) => (
            SessionView { phase: Phase::Joining, me: Some(id), ..s },
            SessionActionView::Join,
        ),
        (Phase::Starting, SessionEventView::StartFailed) | (Phase::Joining, SessionEventView::StartFailed) => (
            SessionView { phase: Phase::Stopped, ..s },
            SessionActionView::Abort(None),
        ),
        (Phase::Joining, SessionEventView::Joined) => (
            SessionView { phase: Phase::Announcing, ..s },
            SessionActionView::Broadcast(
                wire(MessageView::Announce { from: s.me.unwrap(), name: s.name }),
            ),
        ),
        (Phase::Announcing, SessionEventView::Sent) => (
            SessionView { phase: Phase::Active, ..s },
            SessionActionView::NextLine,
        ),
        (Phase::Announcing, SessionEventView::SendFailed) => (
            SessionView { phase: Phase::Stopped, failure: Some(ChatError::BroadcastFailed), ..s },
            SessionActionView::Abort(Some(ChatError::BroadcastFailed)),
        ),
        (Phase::Active, SessionEventView::LineRead(text)) => (
            s,
            SessionActionView::Broadcast(wire(MessageView::Chat { from: s.me.unwrap(), text })),
        ),
        (Phase::Active, SessionEventView::Sent) => (s, SessionActionView::NextLine),
        (Phase::Active, SessionEventView::SendFailed) => (
            s,
            SessionActionView::Report(ChatError::BroadcastFailed),
        ),
        (Phase::Active, SessionEventView::InputEnded) => (
            SessionView { phase: Phase::ShuttingDown, ..s },
            SessionActionView::Shutdown,
        ),
        (Phase::Active, SessionEventView::ReceiveFailed) => (
            SessionView { phase: Phase::ShuttingDown, failure: Some(ChatError::ReceiveFailed), ..s },
            SessionActionView::Shutdown,
        ),
        (Phase::ShuttingDown, SessionEventView::ShutdownDone) => (
            SessionView { phase: Phase::Stopped, ..s },
            SessionActionView::Exit(s.failure),
        ),
        (p, SessionEventView::StopRequested) => if stoppable(p) {
            (SessionView { phase: Phase::ShuttingDown, ..s }, SessionActionView::Shutdown)
        } else {
            (s, SessionActionView::Ignore)
        },
        _ => (s, SessionActionView::Ignore),
    }
}

/// Once stopped, a session stays stopped and does nothing more.
pub proof fn lemma_stopped_is_final(s: SessionView, e: SessionEventView)
    requires
        s.phase == Phase::Stopped,
    ensures
        session_step(s, e) == (s, SessionActionView::Ignore),
{
}

/// A failed chat broadcast is reported and the session stays active, while a
/// failed announcement ends startup.
pub proof fn lemma_send_failure_policy(s: SessionView)
    ensures
        s.phase == Phase::Active ==> session_step(s, SessionEventView::SendFailed) == (
            s,
            SessionActionView::Report(ChatError::BroadcastFailed),
        ),
        s.phase == Phase::Announcing ==> session_step(s, SessionEventView::SendFailed).0.phase
            == Phase::Stopped,
{
}

/// A node session: its phase, its identity once known, the name it
/// announces, and the failure that ends it, if any.
pub struct NodeSession {
    phase: Phase,
    me: Option<PeerId>,
    name: String,
    failure: Option<ChatError>,
}

impl View for NodeSession {
    type V = SessionView;

    closed spec fn view(&self) -> SessionView {
        SessionView {
            phase: self.phase,
            me: match self.me {
                Some(id) => Some(id@),
                None => None,
            },
            name: self.name@,
            failure: self.failure,
        }
    }
}

/// Past acquiring the identity, the session knows it.
pub open spec fn session_wf(s: SessionView) -> bool {
    (s.phase == Phase::Joining || s.phase == Phase::Announcing || s.phase == Phase::Active)
        ==> s.me is Some
}

impl NodeSession {
    /// A session that will announce itself under `name`.
    pub fn new(name: String) -> (r: NodeSession)
        ensures
            r@ == (SessionView { phase: Phase::Starting, me: None, name: name@, failure: None }),
    {
        NodeSession { phase: Phase::Starting, me: None, name, failure: None }
    }

    /// The current phase.
    pub fn phase(&self) -> (r: Phase)
        ensures
            r == self@.phase,
    {
        self.phase
    }

    /// Handles one event: moves to the next phase and says what to do.
    pub fn handle(&mut self, event: SessionEvent) -> (r: SessionAction)
        requires
            session_wf(old(self)@),
        ensures
            session_wf(final(self)@),
            (final(self)@, r@) == session_step(old(self)@, event@),
    {
        match (self.phase, event) {
            (Phase::Starting, SessionEvent::IdentityReady(id)) => {
                self.me = Some(id);
                self.phase = Phase::Joining;
                SessionAction::Join
            },
            (Phase::Starting, SessionEvent::StartFailed) | (Phase::Joining, SessionEvent::StartFailed) => {
                self.phase = Phase::Stopped;
                SessionAction::Abort(None)
            },
            (Phase::Joining, SessionEvent::Joined) => {
                self.phase = Phase::Announcing;
                let from = self.me.unwrap();
                let m = Message::Announce { from, name: self.name.clone() };
                SessionAction::Broadcast(m.to_vec())
            },
            (Phase::Announcing, SessionEvent::Sent) => {
                self.phase = Phase::Active;
                SessionAction::NextLine
            },
            (Phase::Announcing, SessionEvent::SendFailed) => {
                self.phase = Phase::Stopped;
                self.failure = Some(ChatError::BroadcastFailed);
                SessionAction::Abort(Some(ChatError::BroadcastFailed))
            },
            (Phase::Active, SessionEvent::LineRead(text)) => {
                let from = self.me.unwrap();
                let m = Message::Chat { from, text };
                SessionAction::Broadcast(m.to_vec())
            },
            (Phase::Active, SessionEvent::Sent) => SessionAction::NextLine,
            (Phase::Active, SessionEvent::SendFailed) => SessionAction::Report(ChatError::BroadcastFailed),
            (Phase::Active, SessionEvent::InputEnded) => {
                self.phase = Phase::ShuttingDown;
                SessionAction::Shutdown
            },
            (Phase::Active, SessionEvent::ReceiveFailed) => {
                self.phase = Phase::ShuttingDown;
                self.failure = Some(ChatError::ReceiveFailed);
                SessionAction::Shutdown
            },
            (Phase::ShuttingDown, SessionEvent::ShutdownDone) => {
                self.phase = Phase::Stopped;
                SessionAction::Exit(self.failure)
            },
            (p, SessionEvent::StopRequested) => {
                if p == Phase::Starting || p == Phase::Joining || p == Phase::Announcing
                    || p == Phase::Active {
                    self.phase = Phase::ShuttingDown;
                    SessionAction::Shutdown
                } else {
                    SessionAction::Ignore
                }
            },
            _ => SessionAction::Ignore,
        }
    }
}

} // verus!
