//! The fixed-size message buffer: how a payload is framed into it and read
//! back.

use vstd::prelude::*;
use vstd::string::*;
use vstd::utf8::*;
use crate::error::ChannelError;

verus! {

/// Capacity in bytes of a message's text buffer.
pub const MAX_MSG_SIZE: usize = 1024;

/// The part of `payload` that fits a message: its first `MAX_MSG_SIZE` bytes
/// when it is longer than that, else all of it.
pub open spec fn truncated(payload: Seq<u8>) -> Seq<u8> {
    if payload.len() > MAX_MSG_SIZE {
        payload.take(MAX_MSG_SIZE as int)
    } else {
        payload
    }
}

/// The text buffer that carries `payload`: what fits of it, followed by zero
/// bytes up to the capacity.
pub open spec fn framed(payload: Seq<u8>) -> Seq<u8> {
    truncated(payload) + Seq::new(
        (MAX_MSG_SIZE - truncated(payload).len()) as nat,
        |i: int| 0u8,
    )
}

/// A text buffer that holds nothing but zero bytes.
pub open spec fn blank_text() -> Seq<u8> {
    Seq::new(MAX_MSG_SIZE as nat, |i: int| 0u8)
}

/// The bytes of `buffer` that precede its first zero byte; all of it when it
/// holds none.
pub open spec fn text_of(buffer: Seq<u8>) -> Seq<u8> {
    match buffer.index_of_first(0u8) {
        Some(end) => buffer.take(end),
        None => buffer,
    }
}

/// What a receiver reads out of `buffer`: the characters that its text encodes,
/// or an encoding error when the text is not UTF-8.
pub open spec fn decoded(buffer: Seq<u8>) -> Result<Seq<char>, ChannelError> {
    if valid_utf8(text_of(buffer)) {
        Ok(decode_utf8(text_of(buffer)))
    } else {
        Err(ChannelError::Encoding)
    }
}

/// A message as the kernel queue carries it: a type tag and a fixed-size text
/// buffer.
#[derive(Clone, Copy, Debug, PartialEq, Eq)]
pub struct Message {
    /// Selector by which a receiver picks the message.
    pub msg_type: i64,
    /// The text, padded with zero bytes.
    pub text: [u8; MAX_MSG_SIZE],
}

impl Message {
    /// A message of the given type whose text is empty: the buffer that a
    /// receiver hands to the host to be filled.
    pub fn blank(msg_type: i64) -> (message: Message)
        requires
            msg_type > 0,
        ensures
            message.msg_type == msg_type,
            message.text@ == blank_text(),
    {
        let message = Message { msg_type, text: [0u8; MAX_MSG_SIZE] };
        assert(message.text@ =~= blank_text());
        message
    }

    /// Frames `payload` into a message of the given type. A payload longer than
    /// the buffer is cut to its first `MAX_MSG_SIZE` bytes.
    pub fn pack(msg_type: i64, payload: &str) -> (message: Message)
        requires
            msg_type > 0,
        ensures
            message.msg_type == msg_type,
            message.text@ == framed(payload.spec_bytes()),
    {
        let bytes = payload.as_bytes();
        let count: usize = if bytes.len() < MAX_MSG_SIZE {
            bytes.len()
        } else {
            MAX_MSG_SIZE
        };
        let mut text = [0u8; MAX_MSG_SIZE];
        let mut i: usize = 0;
        while i < count
            invariant
                i <= count <= MAX_MSG_SIZE,
                count <= bytes@.len(),
                forall|j: int| 0 <= j < i ==> text@[j] == bytes@[j],
                forall|j: int| i <= j < MAX_MSG_SIZE ==> text@[j] == 0u8,
            decreases count - i,
        {
            text[i] = bytes[i];
            i += 1;
        }
        assert(text@ =~= framed(bytes@));
        Message { msg_type, text }
    }

    /// Copies out the text: the bytes before the first zero byte.
    pub fn text_bytes(&self) -> (bytes: Vec<u8>)
        ensures
            bytes@ == text_of(self.text@),
    {
        let mut bytes: Vec<u8> = Vec::new();
        let mut i: usize = 0;
        while i < MAX_MSG_SIZE && self.text[i] != 0
            invariant
                i <= MAX_MSG_SIZE,
                bytes@ == self.text@.take(i as int),
                forall|j: int| 0 <= j < i ==> self.text@[j] != 0u8,
            decreases MAX_MSG_SIZE - i,
        {
            bytes.push(self.text[i]);
            assert(self.text@.take(i as int).push(self.text@[i as int]) =~= self.text@.take(
                i + 1,
            ));
            i += 1;
        }
        proof {
            let buffer = self.text@;
            buffer.index_of_first_ensures(0u8);
            if i == MAX_MSG_SIZE {
                assert(buffer.take(i as int) =~= buffer);
            } else {
                assert(buffer[i as int] == 0u8);
            }
        }
        bytes
    }

    /// Reads the text back as a string. Invalid UTF-8 is reported, never
    /// replaced or dropped.
    pub fn unpack(&self) -> (result: Result<String, ChannelError>)
        ensures
            match result {
                Ok(text) => decoded(self.text@) == Ok::<Seq<char>, ChannelError>(text@),
                Err(error) => decoded(self.text@) == Err::<Seq<char>, ChannelError>(error),
            },
    {
        let bytes = self.text_bytes();
        match String::from_utf8(bytes) {
            Ok(text) => {
                proof {
                    encode_utf8_decode_utf8(text@);
                }
                Ok(text)
            },
            Err(_) => Err(ChannelError::Encoding),
        }
    }
}

/// Truncation: a payload longer than the buffer is carried as its first
/// `MAX_MSG_SIZE` bytes and nothing else.
pub proof fn lemma_overlong_payload_is_cut(payload: Seq<u8>)
    requires
        payload.len() > MAX_MSG_SIZE,
    ensures
        framed(payload) == payload.take(MAX_MSG_SIZE as int),
{
    assert(framed(payload) =~= payload.take(MAX_MSG_SIZE as int));
}

/// Framing adds no text: what a receiver finds in the buffer is what it would
/// find in the part of the payload that fits.
pub proof fn lemma_text_of_framed(payload: Seq<u8>)
    ensures
        text_of(framed(payload)) == text_of(truncated(payload)),
{
    let kept = truncated(payload);
    let buffer = framed(payload);
    let n = kept.len() as int;
    buffer.index_of_first_ensures(0u8);
    kept.index_of_first_ensures(0u8);
    assert(forall|j: int| 0 <= j < n ==> buffer[j] == kept[j]);
    match kept.index_of_first(0u8) {
        Some(end) => {
            assert(buffer[end] == 0u8);
            assert(buffer.take(end) =~= kept.take(end));
        },
        None => {
            assert(forall|j: int| 0 <= j < n ==> kept.contains(kept[j]));
            if n < MAX_MSG_SIZE {
                assert(buffer[n] == 0u8);
                assert(buffer.take(n) =~= kept);
            } else {
                assert(buffer =~= kept);
            }
        },
    }
}

/// The encoding of a character holds a zero byte exactly when the character
/// is the null character.
proof fn lemma_scalar_zero_byte(c: char)
    ensures
        encode_scalar(c as u32).contains(0u8) <==> c == '\0',
{
    let s = c as u32;
    let bytes = encode_scalar(s);
    char_is_scalar(c);
    assert(s <= 0x7F ==> ((s & 0x7F) as u8 == 0u8 <==> s == 0)) by (bit_vector);
    assert(0xC0u8 | ((s >> 6) & 0x1F) as u8 != 0u8) by (bit_vector);
    assert(0xE0u8 | ((s >> 12) & 0x0F) as u8 != 0u8) by (bit_vector);
    assert(0xF0u8 | ((s >> 18) & 0x7) as u8 != 0u8) by (bit_vector);
    assert(0x80u8 | (s & 0x3F) as u8 != 0u8) by (bit_vector);
    assert(0x80u8 | ((s >> 6) & 0x3F) as u8 != 0u8) by (bit_vector);
    assert(0x80u8 | ((s >> 12) & 0x3F) as u8 != 0u8) by (bit_vector);
    if c == '\0' {
        assert(bytes[0] == 0u8);
    }
}

/// A string's encoding holds a zero byte exactly when the string holds the
/// null character.
pub proof fn lemma_zero_byte_iff_null_char(chars: Seq<char>)
    ensures
        encode_utf8(chars).contains(0u8) <==> chars.contains('\0'),
    decreases chars.len(),
{
    if chars.len() > 0 {
        let head = encode_scalar(chars[0] as u32);
        let rest = chars.drop_first();
        let tail = encode_utf8(rest);
        lemma_scalar_zero_byte(chars[0]);
        lemma_zero_byte_iff_null_char(rest);
        if head.contains(0u8) {
            let i = choose|i: int| 0 <= i < head.len() && head[i] == 0u8;
            assert((head + tail)[i] == 0u8);
        }
        if tail.contains(0u8) {
            let i = choose|i: int| 0 <= i < tail.len() && tail[i] == 0u8;
            assert((head + tail)[head.len() + i] == 0u8);
        }
        if rest.contains('\0') {
            let i = choose|i: int| 0 <= i < rest.len() && rest[i] == '\0';
            assert(chars[i + 1] == '\0');
        }
        if chars.contains('\0') && chars[0] != '\0' {
            let i = choose|i: int| 0 <= i < chars.len() && chars[i] == '\0';
            assert(rest[i - 1] == '\0');
        }
    }
}

/// Round trip: a payload whose encoding fits the buffer and which holds no
/// null character is read back exactly as it was framed.
pub proof fn lemma_round_trip(payload: Seq<char>)
    requires
        encode_utf8(payload).len() <= MAX_MSG_SIZE,
        !payload.contains('\0'),
    ensures
        decoded(framed(encode_utf8(payload))) == Ok::<Seq<char>, ChannelError>(payload),
{
    let bytes = encode_utf8(payload);
    lemma_zero_byte_iff_null_char(payload);
    lemma_text_of_framed(bytes);
    bytes.index_of_first_ensures(0u8);
    encode_utf8_valid_utf8(payload);
    encode_utf8_decode_utf8(payload);
}

} // verus!
