//! The errors of a queue channel.

use vstd::prelude::*;
use vstd::string::*;

verus! {

/// Why an operation on a queue channel failed.
#[derive(Clone, Copy, Debug, PartialEq, Eq, Structural)]
pub enum ChannelError {
    /// The host could not resolve the token to a key.
    KeyDerivation,
    /// The host refused to create or attach to the queue.
    QueueUnavailable,
    /// The message could not be enqueued.
    Send,
    /// No message could be taken from the queue.
    Receive,
    /// The received text is not valid UTF-8.
    Encoding,
    /// The queue could not be removed: the handle is invalid or the queue is
    /// already destroyed.
    Destroy,
}

impl ChannelError {
    /// The text of the fatal message that reports this error.
    pub open spec fn message(self) -> Seq<char> {
        match self {
            ChannelError::KeyDerivation => "ftok failed"@,
            ChannelError::QueueUnavailable => "msgget failed"@,
            ChannelError::Send => "msgsnd failed"@,
            ChannelError::Receive => "msgrcv failed"@,
            ChannelError::Encoding => "Received invalid UTF-8"@,
            ChannelError::Destroy => "msgctl failed"@,
        }
    }

    /// Renders the fatal message for this error.
    pub fn describe(&self) -> (text: String)
        ensures
            text@ == self.message(),
    {
        match self {
            ChannelError::KeyDerivation => String::from_str("ftok failed"),
            ChannelError::QueueUnavailable => String::from_str("msgget failed"),
            ChannelError::Send => String::from_str("msgsnd failed"),
            ChannelError::Receive => String::from_str("msgrcv failed"),
            ChannelError::Encoding => String::from_str("Received invalid UTF-8"),
            ChannelError::Destroy => String::from_str("msgctl failed"),
        }
    }
}

} // verus!
