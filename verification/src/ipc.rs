//! The commands a running session takes over its local socket, the replies
//! it gives, and how each message is framed as one line.
use vstd::prelude::*;
use crate::text::{chars_of, concat_str, owned, string_of};

verus! {

/// A command sent to a running session.
#[derive(Debug)]
pub enum IpcRequest {
    /// Reload after the given files changed.
    Reload { files: Vec<String> },
    /// Restart the app.
    Restart,
    /// Report the session state.
    Status,
    /// Stop the session.
    Stop,
}

/// A session's reply to a command.
#[derive(Debug)]
pub struct IpcResponse {
    pub success: bool,
    pub message: String,
}

impl IpcResponse {
    /// A reply that reports success with the given message.
    pub fn ok(msg: &str) -> (r: IpcResponse)
        ensures
            r.success,
            r.message@ == msg@,
    {
        IpcResponse { success: true, message: owned(msg) }
    }

    /// A reply that reports failure with the given message.
    pub fn err(msg: &str) -> (r: IpcResponse)
        ensures
            !r.success,
            r.message@ == msg@,
    {
        IpcResponse { success: false, message: owned(msg) }
    }
}

/// The server side of a session's socket.
pub struct IpcServer {
    pub socket_path: String,
}

impl IpcServer {
    /// A server for the socket at the given path.
    pub fn new(socket_path: &str) -> (r: IpcServer)
        ensures
            r.socket_path@ == socket_path@,
    {
        IpcServer { socket_path: owned(socket_path) }
    }
}

/// The client side of a session's socket.
pub struct IpcClient;

/// The reply to a line that is not a valid command.
pub fn invalid_request_reply(parse_error: &str) -> (r: IpcResponse)
    ensures
        !r.success,
        r.message@ == "Invalid IPC request JSON: "@ + parse_error@,
{
    let m = concat_str("Invalid IPC request JSON: ", parse_error);
    IpcResponse { success: false, message: m }
}

/// A message as it is sent: its text and a line break.
pub fn frame_line(text: &str) -> (r: String)
    ensures
        r@ == text@.push('\n'),
{
    let mut c = chars_of(text);
    c.push('\n');
    string_of(c.as_slice())
}

/// The first line of what was received, without its line break; `None`
/// when nothing was received.
pub open spec fn spec_first_line(received: Seq<char>) -> Option<Seq<char>> {
    let ls = crate::split::lines(received);
    if ls.len() > 0 {
        Some(ls[0])
    } else {
        None
    }
}

/// The first line of what was received (see `spec_first_line`).
pub fn first_line(received: &str) -> (r: Option<String>)
    ensures
        match r {
            Some(l) => spec_first_line(received@) == Some(l@),
            None => spec_first_line(received@) is None,
        },
{
    let c = chars_of(received);
    let ls = crate::split::split_lines(c.as_slice());
    if ls.len() > 0 {
        Some(string_of(ls[0].as_slice()))
    } else {
        None
    }
}

/// Reading back a framed message gives the message, when it holds no line
/// break.
pub proof fn law_frame_roundtrip(text: Seq<char>)
    requires
        !text.contains('\n'),
    ensures
        spec_first_line(text.push('\n')) == Some(crate::split::strip_cr(text)),
{
    crate::split::lemma_lines_of_one_line(text);
}

} // verus!
