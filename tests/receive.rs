use gossip_chat::codec::Message;
use gossip_chat::peer::PeerId;
use gossip_chat::receive::{InboundEvent, ReceiveLoop, Rendered};
use gossip_chat::session::{NodeSession, SessionAction, SessionEvent};

fn line(r: Rendered) -> String {
    match r {
        Rendered::Line(s) => s,
        other => panic!("expected a line, got {:?}", other),
    }
}

fn payload(m: &Message) -> InboundEvent {
    InboundEvent::Payload(m.to_vec())
}

fn node_a() -> PeerId {
    let mut raw = [0u8; 32];
    raw[..5].copy_from_slice(&[0x0a, 0x0b, 0x0c, 0x0d, 0x0e]);
    PeerId::from_bytes(raw)
}

#[test]
fn announce_then_chat_renders_in_order() {
    let a = node_a();
    let mut rx = ReceiveLoop::new();
    let announce = Message::Announce { from: a, name: String::from("alice") };
    let chat = Message::Chat { from: a, text: String::from("hello") };
    assert_eq!(line(rx.handle(&payload(&announce))), "0a0b0c0d0e is now known as alice");
    assert_eq!(line(rx.handle(&payload(&chat))), "alice: hello");
}

#[test]
fn end_to_end_from_session_to_receiver() {
    let a = node_a();
    let mut session = NodeSession::new(String::from("alice"));
    assert!(matches!(session.handle(SessionEvent::IdentityReady(a)), SessionAction::Join));
    let announce = match session.handle(SessionEvent::Joined) {
        SessionAction::Broadcast(bytes) => bytes,
        other => panic!("expected a broadcast, got {:?}", other),
    };
    assert!(matches!(session.handle(SessionEvent::Sent), SessionAction::NextLine));
    let chat = match session.handle(SessionEvent::LineRead(String::from("hello"))) {
        SessionAction::Broadcast(bytes) => bytes,
        other => panic!("expected a broadcast, got {:?}", other),
    };
    let mut rx = ReceiveLoop::new();
    assert_eq!(line(rx.handle(&InboundEvent::Payload(announce))), "0a0b0c0d0e is now known as alice");
    assert_eq!(line(rx.handle(&InboundEvent::Payload(chat))), "alice: hello");
}

#[test]
fn malformed_payload_is_skipped_and_later_events_still_handled() {
    let a = node_a();
    let mut rx = ReceiveLoop::new();
    assert!(matches!(rx.handle(&InboundEvent::Payload(vec![9, 9, 9])), Rendered::Malformed));
    assert_eq!(rx.directory().len(), 0);
    let announce = Message::Announce { from: a, name: String::from("alice") };
    assert_eq!(line(rx.handle(&payload(&announce))), "0a0b0c0d0e is now known as alice");
    assert!(matches!(rx.handle(&InboundEvent::Payload(Vec::new())), Rendered::Malformed));
    let chat = Message::Chat { from: a, text: String::from("still here") };
    assert_eq!(line(rx.handle(&payload(&chat))), "alice: still here");
}

#[test]
fn chat_before_announce_uses_short_form_then_name() {
    let x = PeerId::from_bytes([0x5a; 32]);
    let mut rx = ReceiveLoop::new();
    let early = Message::Chat { from: x, text: String::from("first") };
    assert_eq!(line(rx.handle(&payload(&early))), "5a5a5a5a5a: first");
    let announce = Message::Announce { from: x, name: String::from("xena") };
    assert_eq!(line(rx.handle(&payload(&announce))), "5a5a5a5a5a is now known as xena");
    let late = Message::Chat { from: x, text: String::from("second") };
    assert_eq!(line(rx.handle(&payload(&late))), "xena: second");
}

#[test]
fn signals_render_nothing() {
    let mut rx = ReceiveLoop::new();
    assert!(matches!(rx.handle(&InboundEvent::Signal), Rendered::Nothing));
    assert_eq!(rx.directory().len(), 0);
}

#[test]
fn reannouncement_renames_sender() {
    let a = node_a();
    let mut rx = ReceiveLoop::new();
    rx.handle(&payload(&Message::Announce { from: a, name: String::from("alice") }));
    rx.handle(&payload(&Message::Announce { from: a, name: String::from("bob") }));
    assert_eq!(rx.directory().resolve(&a), "bob");
    let chat = Message::Chat { from: a, text: String::from("hi") };
    assert_eq!(line(rx.handle(&payload(&chat))), "bob: hi");
}
