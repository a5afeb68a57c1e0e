use queue_channel::error::ChannelError;
use queue_channel::message::{Message, MAX_MSG_SIZE};

fn buffer_of(bytes: &[u8]) -> [u8; MAX_MSG_SIZE] {
    let mut text = [0u8; MAX_MSG_SIZE];
    text[..bytes.len()].copy_from_slice(bytes);
    text
}

#[test]
fn capacity_is_1024_bytes() {
    assert_eq!(MAX_MSG_SIZE, 1024);
}

#[test]
fn pack_copies_the_payload_and_pads_with_zeros() {
    let message = Message::pack(1, "Hi");
    assert_eq!(message.msg_type, 1);
    assert_eq!(message.text[0], b'H');
    assert_eq!(message.text[1], b'i');
    assert!(message.text[2..].iter().all(|&byte| byte == 0));
    assert_eq!(message.text, buffer_of(b"Hi"));
}

#[test]
fn pack_keeps_the_message_type() {
    assert_eq!(Message::pack(7, "x").msg_type, 7);
    assert_eq!(Message::pack(i64::MAX, "x").msg_type, i64::MAX);
}

#[test]
fn pack_of_the_empty_payload_is_blank() {
    assert_eq!(Message::pack(1, ""), Message::blank(1));
    assert_eq!(Message::blank(1).text, [0u8; MAX_MSG_SIZE]);
    assert_eq!(Message::blank(3).msg_type, 3);
}

#[test]
fn pack_cuts_an_overlong_payload_to_the_capacity() {
    let mut payload = "a".repeat(MAX_MSG_SIZE);
    payload.push_str("bcdefg");
    assert_eq!(payload.len(), 1030);
    let message = Message::pack(1, &payload);
    assert_eq!(&message.text[..], &payload.as_bytes()[..MAX_MSG_SIZE]);
    assert_eq!(message.unpack(), Ok("a".repeat(MAX_MSG_SIZE)));
}

#[test]
fn pack_keeps_a_payload_of_exactly_the_capacity() {
    let payload = "z".repeat(MAX_MSG_SIZE);
    let message = Message::pack(1, &payload);
    assert_eq!(&message.text[..], payload.as_bytes());
    assert_eq!(message.text_bytes().len(), MAX_MSG_SIZE);
    assert_eq!(message.unpack(), Ok(payload));
}

#[test]
fn pack_keeps_a_payload_one_byte_short_of_the_capacity() {
    let payload = "y".repeat(MAX_MSG_SIZE - 1);
    let message = Message::pack(1, &payload);
    assert_eq!(message.text[MAX_MSG_SIZE - 1], 0);
    assert_eq!(message.unpack(), Ok(payload));
}

#[test]
fn unpack_returns_the_packed_payload() {
    let message = Message::pack(1, "Hello from sender!");
    assert_eq!(message.unpack(), Ok(String::from("Hello from sender!")));
}

#[test]
fn unpack_returns_multibyte_text() {
    let payload = "h\u{e9}llo \u{4e16}\u{754c} \u{1f600}";
    let message = Message::pack(1, payload);
    assert_eq!(message.text_bytes(), payload.as_bytes().to_vec());
    assert_eq!(message.unpack(), Ok(String::from(payload)));
}

#[test]
fn unpack_of_a_blank_message_is_empty() {
    assert_eq!(Message::blank(1).text_bytes(), Vec::<u8>::new());
    assert_eq!(Message::blank(1).unpack(), Ok(String::new()));
}

#[test]
fn text_ends_at_the_first_zero_byte() {
    let message = Message { msg_type: 1, text: buffer_of(b"ab\0cd\0ef") };
    assert_eq!(message.text_bytes(), b"ab".to_vec());
    assert_eq!(message.unpack(), Ok(String::from("ab")));
}

#[test]
fn payload_with_a_zero_byte_is_read_back_short() {
    let message = Message::pack(1, "a\0b");
    assert_eq!(message.text, buffer_of(b"a\0b"));
    assert_eq!(message.unpack(), Ok(String::from("a")));
}

#[test]
fn text_starting_with_a_zero_byte_is_empty() {
    let message = Message { msg_type: 1, text: buffer_of(b"\0abc") };
    assert_eq!(message.text_bytes(), Vec::<u8>::new());
    assert_eq!(message.unpack(), Ok(String::new()));
}

#[test]
fn unpack_reports_invalid_utf8() {
    let message = Message { msg_type: 1, text: buffer_of(&[b'o', b'k', 0xff, b'!']) };
    assert_eq!(message.text_bytes(), vec![b'o', b'k', 0xff, b'!']);
    assert_eq!(message.unpack(), Err(ChannelError::Encoding));
}

#[test]
fn unpack_reports_a_lone_continuation_byte() {
    let message = Message { msg_type: 1, text: buffer_of(&[0x80]) };
    assert_eq!(message.unpack(), Err(ChannelError::Encoding));
}

#[test]
fn unpack_ignores_invalid_bytes_behind_the_first_zero() {
    let message = Message { msg_type: 1, text: buffer_of(&[b'o', b'k', 0, 0xff]) };
    assert_eq!(message.unpack(), Ok(String::from("ok")));
}

#[test]
fn cutting_through_a_character_gives_an_encoding_error() {
    let mut payload = "a".repeat(MAX_MSG_SIZE - 1);
    payload.push('\u{e9}');
    assert_eq!(payload.len(), MAX_MSG_SIZE + 1);
    let message = Message::pack(1, &payload);
    assert_eq!(message.text[MAX_MSG_SIZE - 1], 0xc3);
    assert_eq!(message.unpack(), Err(ChannelError::Encoding));
}

#[test]
fn full_buffer_without_a_zero_byte_is_all_text() {
    let message = Message { msg_type: 1, text: [b'q'; MAX_MSG_SIZE] };
    assert_eq!(message.text_bytes(), vec![b'q'; MAX_MSG_SIZE]);
    assert_eq!(message.unpack(), Ok("q".repeat(MAX_MSG_SIZE)));
}
