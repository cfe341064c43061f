use gossip_chat::codec::Message;
use gossip_chat::error::ChatError;
use gossip_chat::peer::PeerId;

fn id(fill: u8) -> PeerId {
    PeerId::from_bytes([fill; 32])
}

#[test]
fn announce_encodes_tag_identity_then_name() {
    let m = Message::Announce { from: id(7), name: String::from("ab") };
    let mut expected = vec![0u8];
    expected.extend_from_slice(&[7u8; 32]);
    expected.extend_from_slice(&[0, 0, 0, 0, 0, 0, 0, 2]);
    expected.extend_from_slice(b"ab");
    assert_eq!(m.to_vec(), expected);
}

#[test]
fn chat_encodes_with_its_own_tag() {
    let m = Message::Chat { from: id(1), text: String::from("hi") };
    let bytes = m.to_vec();
    assert_eq!(bytes.len(), 43);
    assert_eq!(bytes[0], 1);
    assert_eq!(&bytes[33..41], &[0, 0, 0, 0, 0, 0, 0, 2]);
    assert_eq!(&bytes[41..], b"hi");
}

#[test]
fn encoding_is_deterministic() {
    let m = Message::Chat { from: id(3), text: String::from("same") };
    assert_eq!(m.to_vec(), m.clone().to_vec());
}

#[test]
fn round_trip_announce() {
    let m = Message::Announce { from: id(42), name: String::from("alice") };
    assert_eq!(Message::from_bytes(&m.to_vec()), Ok(m));
}

#[test]
fn round_trip_chat_with_non_ascii_text() {
    let m = Message::Chat { from: id(9), text: String::from("héllo, wörld ✓") };
    let bytes = m.to_vec();
    assert_eq!(bytes.len(), 41 + "héllo, wörld ✓".len());
    assert_eq!(Message::from_bytes(&bytes), Ok(m));
}

#[test]
fn round_trip_empty_text() {
    let m = Message::Chat { from: id(0), text: String::new() };
    assert_eq!(m.to_vec().len(), 41);
    assert_eq!(Message::from_bytes(&m.to_vec()), Ok(m));
}

#[test]
fn decode_rejects_empty_payload() {
    assert_eq!(Message::from_bytes(&[]), Err(ChatError::MalformedMessage));
}

#[test]
fn decode_rejects_truncated_identity() {
    let mut bytes = vec![0u8];
    bytes.extend_from_slice(&[5u8; 31]);
    assert_eq!(Message::from_bytes(&bytes), Err(ChatError::MalformedMessage));
}

#[test]
fn decode_rejects_unknown_tag() {
    let mut bytes = Message::Chat { from: id(2), text: String::from("x") }.to_vec();
    bytes[0] = 2;
    assert_eq!(Message::from_bytes(&bytes), Err(ChatError::MalformedMessage));
}

#[test]
fn decode_rejects_invalid_utf8_text() {
    let mut bytes = vec![1u8];
    bytes.extend_from_slice(&[5u8; 32]);
    bytes.extend_from_slice(&[0, 0, 0, 0, 0, 0, 0, 1]);
    bytes.push(0xff);
    assert_eq!(Message::from_bytes(&bytes), Err(ChatError::MalformedMessage));
}

#[test]
fn decode_reads_handmade_bytes() {
    let mut bytes = vec![1u8];
    let mut raw = [0u8; 32];
    raw[0] = 0xab;
    raw[31] = 0xcd;
    bytes.extend_from_slice(&raw);
    bytes.extend_from_slice(&[0, 0, 0, 0, 0, 0, 0, 3]);
    bytes.extend_from_slice("é!".as_bytes());
    let m = Message::from_bytes(&bytes).unwrap();
    match m {
        Message::Chat { from, text } => {
            assert_eq!(from.to_bytes(), raw);
            assert_eq!(text, "é!");
        }
        _ => panic!("expected a chat message"),
    }
}

#[test]
fn decode_rejects_foreign_payload() {
    let bytes = br#"{"AboutMe":{"from":"x","name":"y"}}"#;
    assert_eq!(Message::from_bytes(bytes), Err(ChatError::MalformedMessage));
}

#[test]
fn messages_compare_by_fields() {
    let a = Message::Chat { from: id(1), text: String::from("t") };
    let b = Message::Announce { from: id(1), name: String::from("t") };
    let c = Message::Chat { from: id(2), text: String::from("t") };
    assert_eq!(a, a.clone());
    assert_ne!(a, b);
    assert_ne!(a, c);
    assert_eq!(a.sender().to_bytes(), [1u8; 32]);
}

#[test]
fn decode_rejects_every_truncation() {
    let m = Message::Chat { from: id(6), text: String::from("aé") };
    let bytes = m.to_vec();
    for k in 0..bytes.len() {
        assert_eq!(Message::from_bytes(&bytes[..k]), Err(ChatError::MalformedMessage), "prefix {}", k);
    }
}

#[test]
fn decode_rejects_header_without_text() {
    let bytes = Message::Chat { from: id(6), text: String::from("a") }.to_vec();
    assert_eq!(Message::from_bytes(&bytes[..41]), Err(ChatError::MalformedMessage));
}

#[test]
fn decode_rejects_trailing_bytes() {
    let mut bytes = Message::Chat { from: id(6), text: String::new() }.to_vec();
    bytes.push(b'x');
    assert_eq!(Message::from_bytes(&bytes), Err(ChatError::MalformedMessage));
    let mut more = Message::Announce { from: id(6), name: String::from("n") }.to_vec();
    more.extend_from_slice(b"\0\0");
    assert_eq!(Message::from_bytes(&more), Err(ChatError::MalformedMessage));
}

#[test]
fn decode_rejects_length_field_that_disagrees() {
    let mut bytes = Message::Chat { from: id(6), text: String::from("abc") }.to_vec();
    bytes[40] = 2;
    assert_eq!(Message::from_bytes(&bytes), Err(ChatError::MalformedMessage));
    bytes[40] = 3;
    bytes[33] = 1;
    assert_eq!(Message::from_bytes(&bytes), Err(ChatError::MalformedMessage));
}
