use gossip_chat::codec::Message;
use gossip_chat::error::ChatError;
use gossip_chat::peer::PeerId;
use gossip_chat::session::{NodeSession, Phase, SessionAction, SessionEvent};

fn active_session() -> (NodeSession, PeerId) {
    let me = PeerId::from_bytes([4; 32]);
    let mut s = NodeSession::new(String::from("shash"));
    s.handle(SessionEvent::IdentityReady(me));
    s.handle(SessionEvent::Joined);
    s.handle(SessionEvent::Sent);
    assert_eq!(s.phase(), Phase::Active);
    (s, me)
}

#[test]
fn startup_joins_then_announces() {
    let me = PeerId::from_bytes([4; 32]);
    let mut s = NodeSession::new(String::from("shash"));
    assert_eq!(s.phase(), Phase::Starting);
    assert!(matches!(s.handle(SessionEvent::IdentityReady(me)), SessionAction::Join));
    assert_eq!(s.phase(), Phase::Joining);
    match s.handle(SessionEvent::Joined) {
        SessionAction::Broadcast(bytes) => {
            let expected = Message::Announce { from: me, name: String::from("shash") };
            assert_eq!(bytes, expected.to_vec());
        }
        other => panic!("expected a broadcast, got {:?}", other),
    }
    assert_eq!(s.phase(), Phase::Announcing);
    assert!(matches!(s.handle(SessionEvent::Sent), SessionAction::NextLine));
    assert_eq!(s.phase(), Phase::Active);
}

#[test]
fn failed_announcement_aborts_startup() {
    let mut s = NodeSession::new(String::from("n"));
    s.handle(SessionEvent::IdentityReady(PeerId::from_bytes([1; 32])));
    s.handle(SessionEvent::Joined);
    assert!(matches!(
        s.handle(SessionEvent::SendFailed),
        SessionAction::Abort(Some(ChatError::BroadcastFailed))
    ));
    assert_eq!(s.phase(), Phase::Stopped);
}

#[test]
fn failed_join_aborts_startup() {
    let mut s = NodeSession::new(String::from("n"));
    s.handle(SessionEvent::IdentityReady(PeerId::from_bytes([1; 32])));
    assert!(matches!(s.handle(SessionEvent::StartFailed), SessionAction::Abort(None)));
    assert_eq!(s.phase(), Phase::Stopped);
}

#[test]
fn lines_are_broadcast_as_chat_messages() {
    let (mut s, me) = active_session();
    match s.handle(SessionEvent::LineRead(String::from("hello"))) {
        SessionAction::Broadcast(bytes) => {
            let expected = Message::Chat { from: me, text: String::from("hello") };
            assert_eq!(bytes, expected.to_vec());
        }
        other => panic!("expected a broadcast, got {:?}", other),
    }
    assert!(matches!(s.handle(SessionEvent::Sent), SessionAction::NextLine));
}

#[test]
fn failed_chat_send_is_reported_and_session_continues() {
    let (mut s, _) = active_session();
    s.handle(SessionEvent::LineRead(String::from("x")));
    assert!(matches!(
        s.handle(SessionEvent::SendFailed),
        SessionAction::Report(ChatError::BroadcastFailed)
    ));
    assert_eq!(s.phase(), Phase::Active);
}

#[test]
fn end_of_input_shuts_down_cleanly() {
    let (mut s, _) = active_session();
    assert!(matches!(s.handle(SessionEvent::InputEnded), SessionAction::Shutdown));
    assert_eq!(s.phase(), Phase::ShuttingDown);
    assert!(matches!(s.handle(SessionEvent::ShutdownDone), SessionAction::Exit(None)));
    assert_eq!(s.phase(), Phase::Stopped);
}

#[test]
fn receive_failure_ends_session_with_error() {
    let (mut s, _) = active_session();
    assert!(matches!(s.handle(SessionEvent::ReceiveFailed), SessionAction::Shutdown));
    assert!(matches!(
        s.handle(SessionEvent::ShutdownDone),
        SessionAction::Exit(Some(ChatError::ReceiveFailed))
    ));
}

#[test]
fn stopped_session_ignores_everything() {
    let (mut s, _) = active_session();
    s.handle(SessionEvent::StopRequested);
    s.handle(SessionEvent::ShutdownDone);
    assert_eq!(s.phase(), Phase::Stopped);
    assert!(matches!(s.handle(SessionEvent::LineRead(String::from("x"))), SessionAction::Ignore));
    assert!(matches!(s.handle(SessionEvent::StopRequested), SessionAction::Ignore));
    assert_eq!(s.phase(), Phase::Stopped);
}
