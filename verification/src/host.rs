//! What the library takes on trust from std and from libc.

use vstd::prelude::*;
use vstd::utf8::*;

verus! {

/// std's error for bytes that are not UTF-8, carried through as an opaque
/// value.
#[verifier::external_type_specification]
#[verifier::external_body]
pub struct ExFromUtf8Error(std::string::FromUtf8Error);

/// `String::from_utf8` succeeds exactly on valid UTF-8, and the string it
/// returns then holds the very bytes it was given.
pub assume_specification[ String::from_utf8 ](vec: Vec<u8>) -> (r: Result<
    String,
    std::string::FromUtf8Error,
>)
    ensures
        r is Ok <==> valid_utf8(vec@),
        r is Ok ==> encode_utf8(r->Ok_0@) == vec@,
;

/// Reads libc's `IPC_CREAT`, the `msgget` flag that creates the queue when the
/// key has none. Its value differs between targets; on each of them it is not
/// zero and lies outside the nine permission bits.
#[verifier::external_body]
pub(crate) fn ipc_creat() -> (flag: i32)
    ensures
        flag != 0,
        flag & 0o777 == 0,
{
    libc::IPC_CREAT
}

/// Reads libc's `IPC_RMID`, the `msgctl` command that removes a queue. Its
/// value differs between targets, so nothing is claimed of it.
#[verifier::external_body]
pub(crate) fn ipc_rmid() -> (command: i32) {
    libc::IPC_RMID
}

} // verus!
