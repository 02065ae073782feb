use iroh_chat::channel::{message_key_of, ticket_entry, ticket_key_of, SendClock};
use iroh_chat::get_directory;
use iroh_chat::message::{AuthorId, DecodeError, Message};
use iroh_chat::names::{display_name, name_entry, resolve_name};
use iroh_chat::receive::{ChatError, Phase, Receiver, Step, Update};
use iroh_chat::session::{classify, joined_line, parse_input, text_line, ChatSession, Incoming, Input};

fn author(seed: u8) -> AuthorId {
    let mut b = [0u8; 32];
    for (i, x) in b.iter_mut().enumerate() {
        *x = seed.wrapping_add(i as u8);
    }
    AuthorId::from_bytes(b)
}

fn all_kinds() -> Vec<Message> {
    let a = author(7);
    vec![
        Message::new_text(a, "hi".to_string()),
        Message::new_text(a, String::new()),
        Message::new_blob(a, &[0, 255, 1, 2]),
        Message::new_blob(a, &[]),
        Message::set_username(a, "Zoë ✓".to_string()),
        Message::set_ticket(a, "docaaaa".to_string()),
    ]
}

#[test]
fn round_trip_every_kind() {
    for m in all_kinds() {
        let bytes = m.serialize();
        assert_eq!(Message::deserialize(&bytes), Ok(m));
    }
}

#[test]
fn encoding_layout() {
    let a = author(1);
    let bytes = Message::new_text(a, "hi".to_string()).serialize();
    assert_eq!(bytes.len(), 41 + 2);
    assert_eq!(bytes[0], 0);
    assert_eq!(&bytes[1..33], &a.to_bytes()[..]);
    assert_eq!(&bytes[33..41], &[2, 0, 0, 0, 0, 0, 0, 0]);
    assert_eq!(&bytes[41..], b"hi");
    assert_eq!(Message::set_ticket(a, "x".to_string()).serialize()[0], 3);
    assert_eq!(Message::new_blob(a, &[9]).serialize()[0], 1);
    assert_eq!(Message::set_username(a, "x".to_string()).serialize()[0], 2);
}

#[test]
fn decode_rejects_truncated() {
    let bytes = Message::new_text(author(2), "hello".to_string()).serialize();
    for cut in 0..bytes.len() {
        assert_eq!(Message::deserialize(&bytes[..cut]), Err(DecodeError));
    }
    let mut longer = bytes.clone();
    longer.push(b'!');
    assert_eq!(Message::deserialize(&longer), Err(DecodeError));
}

#[test]
fn decode_rejects_unknown_kind() {
    let mut bytes = Message::new_text(author(2), "hello".to_string()).serialize();
    bytes[0] = 4;
    assert_eq!(Message::deserialize(&bytes), Err(DecodeError));
}

#[test]
fn decode_rejects_invalid_text() {
    let a = author(3);
    let mut bytes = Message::new_blob(a, &[0xff, 0xfe]).serialize();
    assert!(Message::deserialize(&bytes).is_ok());
    bytes[0] = 0;
    assert_eq!(Message::deserialize(&bytes), Err(DecodeError));
}

#[test]
fn message_keys_are_padded_decimals() {
    assert_eq!(message_key_of(0), b"00000000000000000000".to_vec());
    assert_eq!(message_key_of(1_700_000_000_123_456), b"00001700000000123456".to_vec());
    assert_eq!(message_key_of(u64::MAX), b"18446744073709551615".to_vec());
    assert!(message_key_of(9) < message_key_of(10));
}

#[test]
fn clock_orders_sends() {
    let mut c = SendClock::new();
    assert_eq!(c.next_stamp(100), Some(100));
    assert_eq!(c.next_stamp(100), Some(101));
    assert_eq!(c.next_stamp(50), Some(102));
    assert_eq!(c.next_stamp(500), Some(500));
    let mut full = SendClock { last: Some(u64::MAX) };
    assert_eq!(full.next_stamp(3), None);
    assert_eq!(full.last, Some(u64::MAX));
}

#[test]
fn sends_from_one_author_are_ordered() {
    let a = author(4);
    let mut s = ChatSession::new(a);
    let e1 = s.on_line("first", 999).unwrap();
    let e2 = s.on_line("second", 999).unwrap();
    let e3 = s.on_line("third", 10_000).unwrap();
    assert!(e1.key < e2.key);
    assert!(e2.key < e3.key);
    assert_eq!(Message::deserialize(&e2.value), Ok(Message::new_text(a, "second".to_string())));
}

#[test]
fn name_directive_writes_name_entry() {
    let a = author(5);
    let mut s = ChatSession::new(a);
    let e = s.on_line("set name Alice", 1).unwrap();
    assert_eq!(e.key, a.name_key());
    assert_eq!(e.value, b"Alice".to_vec());
    assert_eq!(s.clock.last, None);
}

#[test]
fn parse_input_forms() {
    assert_eq!(parse_input("set name Bob"), Input::SetName("Bob".to_string()));
    assert_eq!(parse_input("set name "), Input::SetName(String::new()));
    assert_eq!(parse_input("set nameBob"), Input::Chat("set nameBob".to_string()));
    assert_eq!(parse_input("hello"), Input::Chat("hello".to_string()));
    assert_eq!(parse_input(""), Input::Chat(String::new()));
}

#[test]
fn name_key_is_hex_of_author() {
    let a = author(0);
    let k = a.name_key();
    assert_eq!(k.len(), 64);
    assert_eq!(&k[..6], b"000102");
    assert_eq!(AuthorId::from_bytes([0xab; 32]).short(), "ababababab");
}

#[test]
fn announced_name_resolves() {
    let a = author(6);
    let e = name_entry(&a, "Alice");
    assert_eq!(resolve_name(a, Some(e.value)), Ok("Alice".to_string()));
}

#[test]
fn missing_name_falls_back_to_author() {
    let a = author(8);
    let r = resolve_name(a, None);
    assert_eq!(r, Err(a));
    assert_eq!(display_name(&r), a.short());
    assert_eq!(resolve_name(a, Some(vec![0xff])), Err(a));
}

#[test]
fn resolving_twice_agrees() {
    let a = author(9);
    let stored = Some(b"Carol".to_vec());
    assert_eq!(resolve_name(a, stored.clone()), resolve_name(a, stored));
    assert_eq!(resolve_name(a, None), resolve_name(a, None));
}

#[test]
fn text_and_join_lines() {
    let a = AuthorId::from_bytes([0x0f; 32]);
    assert_eq!(text_line(&Ok("Alice".to_string()), "hi"), "Alice: hi");
    assert_eq!(text_line(&Err(a), "hi"), "0f0f0f0f0f: hi");
    assert_eq!(joined_line(&a), "0f0f0f0f0f joined the chat");
}

#[test]
fn classify_every_kind() {
    let a = author(10);
    assert_eq!(
        classify(Message::new_text(a, "x".to_string())),
        Incoming::Text { author: a, content: "x".to_string() }
    );
    assert_eq!(classify(Message::set_ticket(a, "t".to_string())), Incoming::Joined { author: a });
    assert_eq!(classify(Message::new_blob(a, &[1])), Incoming::Nothing);
    assert_eq!(classify(Message::set_username(a, "n".to_string())), Incoming::Nothing);
}

#[test]
fn ticket_entry_announces_self() {
    let a = author(11);
    let e = ticket_entry(a, "docxyz".to_string());
    assert_eq!(e.key, b"chat-ticket".to_vec());
    assert_eq!(ticket_key_of(), b"chat-ticket".to_vec());
    assert_eq!(Message::deserialize(&e.value), Ok(Message::set_ticket(a, "docxyz".to_string())));
}

#[test]
fn host_message_reaches_guest() {
    let host = author(12);
    let mut session = ChatSession::new(host);
    let entry = session.on_line("hi", 42).unwrap();
    let mut guest = Receiver::new();
    assert_eq!(guest.on_update(Some(Update::RemoteInsert)), Ok(Step::Fetch));
    assert_eq!(guest.on_fetch(None), Step::RetryFetch { delay_ms: 1000 });
    assert_eq!(
        guest.on_fetch(Some(entry.value)),
        Step::Deliver(Message::new_text(host, "hi".to_string()))
    );
    assert_eq!(guest.phase(), Phase::Waiting);
}

#[test]
fn unfetchable_entry_is_abandoned_after_three_retries() {
    let a = author(13);
    let next = Message::new_text(a, "next".to_string()).serialize();
    let mut r = Receiver::new();
    assert_eq!(r.on_update(Some(Update::RemoteInsert)), Ok(Step::Fetch));
    for _ in 0..3 {
        assert_eq!(r.on_fetch(None), Step::RetryFetch { delay_ms: 1000 });
    }
    assert_eq!(r.on_fetch(None), Step::AwaitUpdate);
    assert_eq!(r.phase(), Phase::Waiting);
    assert_eq!(r.on_update(Some(Update::RemoteInsert)), Ok(Step::Fetch));
    assert_eq!(r.on_fetch(Some(next)), Step::Deliver(Message::new_text(a, "next".to_string())));
}

#[test]
fn malformed_content_is_skipped() {
    let mut r = Receiver::new();
    assert_eq!(r.on_update(Some(Update::RemoteInsert)), Ok(Step::Fetch));
    assert_eq!(r.on_fetch(Some(vec![1, 2, 3])), Step::AwaitUpdate);
    assert_eq!(r.phase(), Phase::Waiting);
}

#[test]
fn other_updates_are_ignored_and_end_closes() {
    let mut r = Receiver::new();
    assert_eq!(r.on_update(Some(Update::Other)), Ok(Step::AwaitUpdate));
    assert_eq!(r.phase(), Phase::Waiting);
    assert_eq!(r.on_update(None), Err(ChatError::StreamClosed));
    assert_eq!(r.phase(), Phase::Closed);
}

#[test]
fn working_directory() {
    assert_eq!(get_directory(), ".iroh-dir");
}
