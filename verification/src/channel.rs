//! Keys, handles and the life cycle of a queue channel.
//!
//! Every operation on the queue comes in two halves. The first builds the
//! request: the values to hand to the host call. The second takes the raw
//! result of that call and says what it means. The caller makes the call in
//! between.

use vstd::prelude::*;
use vstd::string::*;
use vstd::utf8::*;
use crate::error::ChannelError;
use crate::host::{ipc_creat, ipc_rmid};
use crate::message::{blank_text, decoded, framed, lemma_round_trip, Message, MAX_MSG_SIZE};

verus! {

/// Permissions of a queue that this library creates: read and write for
/// everyone.
pub const DEFAULT_MODE: i32 = 0o666;

/// The integer by which the host names a queue before it is opened.
#[derive(Clone, Copy, Debug, PartialEq, Eq, Structural)]
pub struct QueueKey {
    /// The key as the host gave it.
    pub raw: i32,
}

/// The integer by which the host names a live queue.
#[derive(Clone, Copy, Debug, PartialEq, Eq, Structural)]
pub struct QueueHandle {
    /// The queue identifier as the host gave it.
    pub id: i32,
}

/// What to hand to `ftok`.
#[derive(Debug, PartialEq, Eq)]
pub struct KeyRequest {
    /// The token's bytes, closed by a single zero byte.
    pub path: Vec<u8>,
    /// The project identifier.
    pub project: i32,
}

/// What to hand to `msgget`.
#[derive(Clone, Copy, Debug, PartialEq, Eq, Structural)]
pub struct OpenRequest {
    pub key: i32,
    /// The creation flag together with the permission bits.
    pub flags: i32,
}

/// What to hand to `msgsnd`.
#[derive(Clone, Copy, Debug, PartialEq, Eq)]
pub struct SendRequest {
    pub queue: i32,
    pub message: Message,
    /// Number of text bytes to send.
    pub size: usize,
    /// Options of the call; zero lets it block while the queue is full.
    pub flags: i32,
}

/// What to hand to `msgrcv`.
#[derive(Clone, Copy, Debug, PartialEq, Eq)]
pub struct ReceiveRequest {
    pub queue: i32,
    /// The buffer for the host to fill.
    pub buffer: Message,
    /// Number of text bytes that the buffer can take.
    pub size: usize,
    /// The type of message to wait for.
    pub msg_type: i64,
    /// Options of the call; zero lets it block until a message is there.
    pub flags: i32,
}

/// What to hand to `msgctl`.
#[derive(Clone, Copy, Debug, PartialEq, Eq, Structural)]
pub struct RemoveRequest {
    pub queue: i32,
    pub command: i32,
}

/// Builds the request that derives a key from `token` and `seed`. A token that
/// holds a zero byte cannot be handed to the host as a path, so no key can be
/// derived from it.
pub fn key_request(token: &str, seed: u8) -> (result: Result<KeyRequest, ChannelError>)
    ensures
        match result {
            Ok(request) => {
                &&& !token.spec_bytes().contains(0u8)
                &&& request.path@ == token.spec_bytes().push(0u8)
                &&& request.project == seed
            },
            Err(error) => {
                &&& token.spec_bytes().contains(0u8)
                &&& error == ChannelError::KeyDerivation
            },
        },
{
    let bytes = token.as_bytes();
    let mut path: Vec<u8> = Vec::new();
    let mut i: usize = 0;
    while i < bytes.len()
        invariant
            bytes@ == token.spec_bytes(),
            i <= bytes@.len(),
            path@ == bytes@.take(i as int),
            forall|j: int| 0 <= j < i ==> bytes@[j] != 0u8,
        decreases bytes@.len() - i,
    {
        if bytes[i] == 0 {
            assert(bytes@[i as int] == 0u8);
            return Err(ChannelError::KeyDerivation);
        }
        path.push(bytes[i]);
        assert(bytes@.take(i as int).push(bytes@[i as int]) =~= bytes@.take(i + 1));
        i += 1;
    }
    assert(bytes@.take(i as int) =~= bytes@);
    path.push(0);
    Ok(KeyRequest { path, project: seed as i32 })
}

/// Reads the result of `ftok`: `-1` means that the host could not resolve the
/// token, any other value is the key.
pub fn key_outcome(raw: i32) -> (result: Result<QueueKey, ChannelError>)
    ensures
        result == (if raw == -1 {
            Err::<QueueKey, ChannelError>(ChannelError::KeyDerivation)
        } else {
            Ok::<QueueKey, ChannelError>(QueueKey { raw })
        }),
{
    if raw == -1 {
        Err(ChannelError::KeyDerivation)
    } else {
        Ok(QueueKey { raw })
    }
}

/// One queue, from before it is opened until after it is destroyed.
#[derive(Clone, Copy, Debug, PartialEq, Eq, Structural)]
pub enum QueueChannel {
    Unopened,
    Open { handle: QueueHandle },
    Destroyed,
}

impl QueueChannel {
    /// What opening returns when the host answers `raw`.
    pub open spec fn open_result(self, raw: i32) -> Result<QueueHandle, ChannelError> {
        if self is Unopened && raw != -1 {
            Ok(QueueHandle { id: raw })
        } else {
            Err(ChannelError::QueueUnavailable)
        }
    }

    /// The channel after an attempt to open it that the host answered with
    /// `raw`.
    pub open spec fn after_open(self, raw: i32) -> QueueChannel {
        if self is Unopened && raw != -1 {
            QueueChannel::Open { handle: QueueHandle { id: raw } }
        } else {
            self
        }
    }

    /// What sending returns when the host answers `raw`.
    pub open spec fn send_result(self, raw: i32) -> Result<(), ChannelError> {
        if self is Open && raw != -1 {
            Ok(())
        } else {
            Err(ChannelError::Send)
        }
    }

    /// What receiving returns when the host answers `raw` and leaves `buffer`
    /// as the message's text.
    pub open spec fn receive_result(self, raw: isize, buffer: Seq<u8>) -> Result<
        Seq<char>,
        ChannelError,
    > {
        if self is Open && raw != -1 {
            decoded(buffer)
        } else {
            Err(ChannelError::Receive)
        }
    }

    /// What destroying returns when the host answers `raw`.
    pub open spec fn destroy_result(self, raw: i32) -> Result<(), ChannelError> {
        if self is Open && raw != -1 {
            Ok(())
        } else {
            Err(ChannelError::Destroy)
        }
    }

    /// The channel after an attempt to destroy it that the host answered with
    /// `raw`.
    pub open spec fn after_destroy(self, raw: i32) -> QueueChannel {
        if self is Open && raw != -1 {
            QueueChannel::Destroyed
        } else {
            self
        }
    }

    /// A channel that has not been opened yet.
    pub fn new() -> (channel: QueueChannel)
        ensures
            channel is Unopened,
    {
        QueueChannel::Unopened
    }

    /// Builds the request that opens the queue for `key` with the given
    /// creation flag and the default permissions. Only a channel that was
    /// never opened can be opened.
    pub fn open_request_with(&self, key: QueueKey, create_flag: i32) -> (result: Result<
        OpenRequest,
        ChannelError,
    >)
        ensures
            match result {
                Ok(request) => {
                    &&& *self is Unopened
                    &&& request.key == key.raw
                    &&& request.flags == create_flag | DEFAULT_MODE
                },
                Err(error) => !(*self is Unopened) && error == ChannelError::QueueUnavailable,
            },
    {
        match self {
            QueueChannel::Unopened => Ok(
                OpenRequest { key: key.raw, flags: create_flag | DEFAULT_MODE },
            ),
            _ => Err(ChannelError::QueueUnavailable),
        }
    }

    /// Builds the request that creates the queue for `key`, or attaches to it
    /// if it exists, with the host's own creation flag. Whatever that flag is,
    /// the permission bits of the request are the default permissions, and a
    /// bit beyond them is set.
    pub fn open_request(&self, key: QueueKey) -> (result: Result<OpenRequest, ChannelError>)
        ensures
            match result {
                Ok(request) => {
                    &&& *self is Unopened
                    &&& request.key == key.raw
                    &&& request.flags & 0o777 == DEFAULT_MODE
                    &&& request.flags != DEFAULT_MODE
                },
                Err(error) => !(*self is Unopened) && error == ChannelError::QueueUnavailable,
            },
    {
        let create_flag = ipc_creat();
        assert((create_flag | 0o666i32) & 0o777 == 0o666i32 && create_flag | 0o666i32 != 0o666i32)
            by (bit_vector)
            requires
                create_flag & 0o777 == 0i32,
                create_flag != 0i32,
        ;
        self.open_request_with(key, create_flag)
    }

    /// Reads the result of `msgget`: `-1` means that the host refused, any
    /// other value is the handle of the queue, which is open from then on.
    pub fn open_outcome(&mut self, raw: i32) -> (result: Result<QueueHandle, ChannelError>)
        ensures
            result == old(self).open_result(raw),
            *final(self) == old(self).after_open(raw),
    {
        match self {
            QueueChannel::Unopened => {
                if raw == -1 {
                    Err(ChannelError::QueueUnavailable)
                } else {
                    let handle = QueueHandle { id: raw };
                    *self = QueueChannel::Open { handle };
                    Ok(handle)
                }
            },
            _ => Err(ChannelError::QueueUnavailable),
        }
    }

    /// Builds the request that sends `payload` as one message of the given
    /// type. The call may block while the queue is full. A payload longer than
    /// the buffer is cut to its first `MAX_MSG_SIZE` bytes.
    pub fn send_request(&self, msg_type: i64, payload: &str) -> (result: Result<
        SendRequest,
        ChannelError,
    >)
        requires
            msg_type > 0,
        ensures
            match result {
                Ok(request) => {
                    &&& *self matches QueueChannel::Open { handle }
                    &&& request.queue == handle.id
                    &&& request.message.msg_type == msg_type
                    &&& request.message.text@ == framed(payload.spec_bytes())
                    &&& request.size == MAX_MSG_SIZE
                    &&& request.flags == 0
                },
                Err(error) => !(*self is Open) && error == ChannelError::Send,
            },
    {
        match self {
            QueueChannel::Open { handle } => Ok(
                SendRequest {
                    queue: handle.id,
                    message: Message::pack(msg_type, payload),
                    size: MAX_MSG_SIZE,
                    flags: 0,
                },
            ),
            _ => Err(ChannelError::Send),
        }
    }

    /// Reads the result of `msgsnd`: `-1` means that the host rejected the
    /// message.
    pub fn send_outcome(&self, raw: i32) -> (result: Result<(), ChannelError>)
        ensures
            result == self.send_result(raw),
    {
        match self {
            QueueChannel::Open { .. } => {
                if raw == -1 {
                    Err(ChannelError::Send)
                } else {
                    Ok(())
                }
            },
            _ => Err(ChannelError::Send),
        }
    }

    /// Builds the request that waits for one message of the given type. No
    /// flag is set, so the call blocks until such a message is there.
    pub fn receive_request(&self, msg_type: i64) -> (result: Result<ReceiveRequest, ChannelError>)
        requires
            msg_type > 0,
        ensures
            match result {
                Ok(request) => {
                    &&& *self matches QueueChannel::Open { handle }
                    &&& request.queue == handle.id
                    &&& request.buffer.msg_type == msg_type
                    &&& request.buffer.text@ == blank_text()
                    &&& request.size == MAX_MSG_SIZE
                    &&& request.msg_type == msg_type
                    &&& request.flags == 0
                },
                Err(error) => !(*self is Open) && error == ChannelError::Receive,
            },
    {
        match self {
            QueueChannel::Open { handle } => Ok(
                ReceiveRequest {
                    queue: handle.id,
                    buffer: Message::blank(msg_type),
                    size: MAX_MSG_SIZE,
                    msg_type,
                    flags: 0,
                },
            ),
            _ => Err(ChannelError::Receive),
        }
    }

    /// Reads the result of `msgrcv` and the buffer that it filled: `-1` means
    /// that the host delivered nothing; otherwise the payload is the text of
    /// the buffer, which must be UTF-8.
    pub fn receive_outcome(&self, raw: isize, filled: &Message) -> (result: Result<
        String,
        ChannelError,
    >)
        ensures
            match result {
                Ok(payload) => self.receive_result(raw, filled.text@) == Ok::<
                    Seq<char>,
                    ChannelError,
                >(payload@),
                Err(error) => self.receive_result(raw, filled.text@) == Err::<
                    Seq<char>,
                    ChannelError,
                >(error),
            },
    {
        match self {
            QueueChannel::Open { .. } => {
                if raw == -1 {
                    Err(ChannelError::Receive)
                } else {
                    filled.unpack()
                }
            },
            _ => Err(ChannelError::Receive),
        }
    }

    /// Builds the request that applies the given removal command to the
    /// queue. A channel that is not open, because it never was or because it
    /// is destroyed already, has no queue to remove.
    pub fn destroy_request_with(&self, remove_command: i32) -> (result: Result<
        RemoveRequest,
        ChannelError,
    >)
        ensures
            match result {
                Ok(request) => {
                    &&& *self matches QueueChannel::Open { handle }
                    &&& request.queue == handle.id
                    &&& request.command == remove_command
                },
                Err(error) => !(*self is Open) && error == ChannelError::Destroy,
            },
    {
        match self {
            QueueChannel::Open { handle } => Ok(
                RemoveRequest { queue: handle.id, command: remove_command },
            ),
            _ => Err(ChannelError::Destroy),
        }
    }

    /// Builds the request that removes the queue, with the host's own removal
    /// command.
    pub fn destroy_request(&self) -> (result: Result<RemoveRequest, ChannelError>)
        ensures
            match result {
                Ok(request) => {
                    &&& *self matches QueueChannel::Open { handle }
                    &&& request.queue == handle.id
                },
                Err(error) => !(*self is Open) && error == ChannelError::Destroy,
            },
    {
        self.destroy_request_with(ipc_rmid())
    }

    /// Reads the result of `msgctl`: `-1` means that the host removed nothing;
    /// otherwise the queue is gone and the channel is destroyed for good.
    pub fn destroy_outcome(&mut self, raw: i32) -> (result: Result<(), ChannelError>)
        ensures
            result == old(self).destroy_result(raw),
            *final(self) == old(self).after_destroy(raw),
    {
        match self {
            QueueChannel::Open { .. } => {
                if raw == -1 {
                    Err(ChannelError::Destroy)
                } else {
                    *self = QueueChannel::Destroyed;
                    Ok(())
                }
            },
            _ => Err(ChannelError::Destroy),
        }
    }
}

/// The life cycle only moves forward, one step at a time: opening leads from
/// `Unopened` to `Open`, destroying from `Open` to `Destroyed`, no host answer
/// changes the channel in any other way, and nothing leads out of `Destroyed`.
pub proof fn lemma_life_cycle(channel: QueueChannel, raw: i32)
    ensures
        channel.after_open(raw) == channel || (channel is Unopened && channel.after_open(
            raw,
        ) is Open),
        channel.after_destroy(raw) == channel || (channel is Open && channel.after_destroy(
            raw,
        ) is Destroyed),
        channel is Destroyed ==> channel.after_open(raw) == channel && channel.after_destroy(raw)
            == channel,
{
}

/// Destroying is not idempotent: after one attempt has succeeded, the channel
/// is destroyed, and every further attempt fails with `ChannelError::Destroy`,
/// whatever the host would answer.
pub proof fn lemma_destroy_succeeds_once(channel: QueueChannel, first: i32, second: i32)
    requires
        channel.destroy_result(first) is Ok,
    ensures
        channel.after_destroy(first) is Destroyed,
        channel.after_destroy(first).destroy_result(second) == Err::<(), ChannelError>(
            ChannelError::Destroy,
        ),
{
}

/// Round trip through an open channel: when the host delivers the buffer that
/// was sent for a payload that fits it and holds no null character, the receiver
/// gets exactly that payload.
pub proof fn lemma_receive_returns_what_was_sent(
    channel: QueueChannel,
    raw: isize,
    payload: Seq<char>,
)
    requires
        channel is Open,
        raw != -1,
        encode_utf8(payload).len() <= MAX_MSG_SIZE,
        !payload.contains('\0'),
    ensures
        channel.receive_result(raw, framed(encode_utf8(payload))) == Ok::<
            Seq<char>,
            ChannelError,
        >(payload),
{
    lemma_round_trip(payload);
}

} // verus!
