//! The one exchange that two processes run over a queue: which of them does
//! what, and the lines they print.

use vstd::prelude::*;
use vstd::string::*;

verus! {

/// The one message type that the exchange uses.
pub const MESSAGE_TYPE: i64 = 1;

/// The side that a process plays in the exchange.
#[derive(Clone, Copy, Debug, PartialEq, Eq, Structural)]
pub enum Role {
    /// Sends the message and exits. It never removes the queue.
    Sender,
    /// Waits for the message, prints it, and removes the queue: this side
    /// owns the queue.
    Receiver,
}

impl Role {
    /// Whether this side owns the queue and so removes it once the exchange
    /// is over.
    pub fn owns_queue(&self) -> (owner: bool)
        ensures
            owner == (*self is Receiver),
    {
        match self {
            Role::Sender => false,
            Role::Receiver => true,
        }
    }
}

/// The side that a process plays after the fork: the child, in which the fork
/// returned zero, sends; the process in which it returned anything else
/// receives.
pub fn role_after_fork(fork_result: i32) -> (role: Role)
    ensures
        role == (if fork_result == 0 {
            Role::Sender
        } else {
            Role::Receiver
        }),
{
    if fork_result == 0 {
        Role::Sender
    } else {
        Role::Receiver
    }
}

/// The line that confirms what the sender sent.
pub fn sent_line(payload: &str) -> (line: String)
    ensures
        line@ == "Message sent: "@ + payload@,
{
    String::from_str("Message sent: ").concat(payload)
}

/// The line that confirms what the receiver received.
pub fn received_line(payload: &str) -> (line: String)
    ensures
        line@ == "Message received: "@ + payload@,
{
    String::from_str("Message received: ").concat(payload)
}

} // verus!
