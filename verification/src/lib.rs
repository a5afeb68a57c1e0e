//! A System V message queue channel without the system calls.
//!
//! The crate holds everything about a one-queue rendezvous that can be decided
//! without the kernel: how a payload is framed into the fixed-size message
//! buffer and read back, what is handed to each host call, what the host's
//! answer means, and the life cycle `Unopened -> Open -> Destroyed` of a queue.
//! The caller performs the calls themselves (`ftok`, `msgget`, `msgsnd`,
//! `msgrcv`, `msgctl`) and passes the raw results in.

pub mod channel;
pub mod error;
pub mod exchange;
pub mod host;
pub mod message;
