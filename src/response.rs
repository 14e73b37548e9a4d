//! What each route answers. The handlers in the server only gather their
//! inputs (the backend's reply, if any) and hand them here.

use vstd::prelude::*;
use vstd::string::StringExecFns;

verus! {

/// The HTTP status code "200 OK".
pub const STATUS_OK: u16 = 200;

/// Body of `GET /`.
pub open spec fn hello_text() -> Seq<char> {
    "Hello world!"@
}

/// Body of `GET /hey`.
pub open spec fn hey_text() -> Seq<char> {
    "Hey there!"@
}

/// Text answered on `POST /echo` when the backend call fails.
pub open spec fn fallback_text() -> Seq<char> {
    "An error occurred parsing response from gRPC server"@
}

/// An HTTP response: its status code and its plain-text body.
pub struct Response {
    pub status: u16,
    pub body: String,
}

/// A failed backend call, with the RPC status code that came back.
#[derive(Clone, Copy, Debug, PartialEq, Eq, Structural)]
pub struct RpcError {
    pub code: i32,
}

/// The text before the trailing newline on `POST /echo`: the backend's message,
/// or the fallback text when the call failed.
pub open spec fn echo_line(reply: Result<Seq<char>, RpcError>) -> Seq<char> {
    match reply {
        Ok(message) => message,
        Err(_) => fallback_text(),
    }
}

/// Body of `POST /echo` for a given backend outcome: one line, always ended by
/// a newline.
pub open spec fn echo_text(reply: Result<Seq<char>, RpcError>) -> Seq<char> {
    echo_line(reply) + "\n"@
}

/// The view of a backend outcome as plain text.
pub open spec fn reply_view(reply: Result<String, RpcError>) -> Result<Seq<char>, RpcError> {
    match reply {
        Ok(message) => Ok(message@),
        Err(e) => Err(e),
    }
}

/// `GET /`: always 200 with a fixed greeting.
pub fn hello() -> (r: Response)
    ensures
        r.status == STATUS_OK,
        r.body@ == hello_text(),
{
    Response { status: STATUS_OK, body: String::from_str("Hello world!") }
}

/// `GET /hey`: always 200 with a fixed greeting.
pub fn manual_hello() -> (r: Response)
    ensures
        r.status == STATUS_OK,
        r.body@ == hey_text(),
{
    Response { status: STATUS_OK, body: String::from_str("Hey there!") }
}

/// `POST /echo`, once the backend has answered: 200 in every case, with the
/// backend's message, or the fallback text if the call failed, and a newline.
pub fn echo(reply: Result<String, RpcError>) -> (r: Response)
    ensures
        r.status == STATUS_OK,
        r.body@ == echo_text(reply_view(reply)),
{
    let mut body = match reply {
        Ok(message) => message,
        Err(_) => String::from_str("An error occurred parsing response from gRPC server"),
    };
    body.append("\n");
    Response { status: STATUS_OK, body }
}

/// Requests are answered from their own input alone: two echo requests whose
/// backend messages differ get different bodies.
pub proof fn lemma_echo_distinguishes_messages(a: Seq<char>, b: Seq<char>)
    requires
        a != b,
    ensures
        echo_text(Ok(a)) != echo_text(Ok(b)),
{
    if echo_text(Ok(a)) == echo_text(Ok(b)) {
        assert(a =~= echo_text(Ok(a)).subrange(0, a.len() as int));
        assert(b =~= echo_text(Ok(b)).subrange(0, b.len() as int));
        assert(a.len() == b.len());
    }
}

} // verus!
