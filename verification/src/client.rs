//! The client's end of the queue of requests: what an invocation comes to, given
//! what came back from the queue.

use vstd::prelude::*;

use crate::status::{Status, StatusCode};

verus! {

/// Why a request that was put into the queue came back without a reply.
#[derive(Debug, Clone, Copy, PartialEq, Eq, Structural)]
pub enum DispatchError {
    /// The request was dropped without a reply.
    RecvError,
    /// There was no reply in time.
    RecvTimeoutError,
    /// Nobody takes requests from the queue any more.
    SendError,
}

/// The text that a dispatch error is shown as.
pub open spec fn dispatch_error_text(err: DispatchError) -> Seq<char> {
    match err {
        DispatchError::RecvError => "request channel closed"@,
        DispatchError::RecvTimeoutError => "request timed out"@,
        DispatchError::SendError => "channel closed"@,
    }
}

/// Calls `to_string` on the `bmrng::error::RequestError` that `err` stands for.
/// The text is one of three, and says which of its variants the error is; a
/// request that the error hands back is no part of the text.
#[verifier::external_body]
fn describe(err: DispatchError) -> (text: String)
    ensures
        text@ == dispatch_error_text(err),
{
    let err: bmrng::error::RequestError<()> = match err {
        DispatchError::RecvError => bmrng::error::RequestError::RecvError,
        DispatchError::RecvTimeoutError => bmrng::error::RequestError::RecvTimeoutError,
        DispatchError::SendError => bmrng::error::RequestError::SendError(()),
    };
    err.to_string()
}

/// A client that puts its requests into a queue, `D` being the sending end of it.
/// Parts of the launcher use it to talk to the trusted runtime.
pub struct Client<D> {
    pub request_dispatcher: D,
}

impl<D> Client<D> {
    /// What an invocation comes to, given what came back from the queue for its
    /// request: the reply, or an internal error that says why there is none.
    pub fn invoke(&self, reply: Result<Result<Vec<u8>, Status>, DispatchError>) -> (response:
        Result<Vec<u8>, Status>)
        ensures
            reply matches Ok(inner) ==> response == inner,
            reply matches Err(err) ==> {
                &&& response matches Err(status)
                &&& status.code == StatusCode::Internal
                &&& status.message matches Some(message)
                &&& message@ == "failed when invoking the request_dispatcher: "@
                    + dispatch_error_text(err)
            },
    {
        match reply {
            Ok(response) => response,
            Err(err) => {
                let mut message = "failed when invoking the request_dispatcher: ".to_owned();
                message.append(describe(err).as_str());
                Err(Status::new_with_message(StatusCode::Internal, message))
            },
        }
    }
}

/// A dispatch error is shown as the text of its own variant.
pub proof fn law_dispatch_errors_are_told_apart(err: DispatchError)
    ensures
        err is RecvError <==> dispatch_error_text(err) == "request channel closed"@,
        err is RecvTimeoutError <==> dispatch_error_text(err) == "request timed out"@,
        err is SendError <==> dispatch_error_text(err) == "channel closed"@,
{
    reveal_strlit("request channel closed");
    reveal_strlit("request timed out");
    reveal_strlit("channel closed");
    assert("request channel closed"@.len() == 22);
    assert("request timed out"@.len() == 17);
    assert("channel closed"@.len() == 14);
}

} // verus!
