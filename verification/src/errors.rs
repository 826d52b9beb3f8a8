//! The closed set of user-facing error kinds, each with a fixed HTTP status
//! code and a fixed, pre-written message, and the conversion of a handler's
//! result into the final HTTP response.

use vstd::prelude::*;

verus! {

/// A user-facing failure. The variants carry no payload: all internal detail
/// (database driver errors, template engine diagnostics) is logged at the
/// point of detection and never shown to the client.
#[derive(Clone, Copy, Debug, PartialEq, Eq, Structural)]
pub enum ServerError {
    /// Template render failure, connection pool failure, or any other
    /// unclassified internal failure.
    InternalError,
    /// A single-post lookup found no post with the requested slug.
    PostNotFound,
}

/// The HTTP status code owed to each error kind.
pub open spec fn status_of(e: ServerError) -> int {
    match e {
        ServerError::InternalError => 500,
        ServerError::PostNotFound => 404,
    }
}

/// The fixed body sent for an internal failure.
pub open spec fn internal_error_message() -> Seq<char> {
    "An internal error ocurred. Please try again later."@
}

/// The fixed body sent when a post lookup finds nothing.
pub open spec fn post_not_found_message() -> Seq<char> {
    "The post you are looking for does not exist."@
}

/// The fixed, pre-written message owed to each error kind.
pub open spec fn message_of(e: ServerError) -> Seq<char> {
    match e {
        ServerError::InternalError => internal_error_message(),
        ServerError::PostNotFound => post_not_found_message(),
    }
}

/// An HTTP response as this library produces it: a status code and a body.
/// The content type is fixed by the HTTP layer (`text/html; charset=utf-8`).
pub struct Response {
    pub status: u16,
    pub body: String,
}

/// The mathematical model of a `Response`.
pub ghost struct ResponseView {
    pub status: int,
    pub body: Seq<char>,
}

impl View for Response {
    type V = ResponseView;

    open spec fn view(&self) -> ResponseView {
        ResponseView { status: self.status as int, body: self.body@ }
    }
}

impl ServerError {
    /// The status code of the response that reports this error.
    pub fn status_code(&self) -> (code: u16)
        ensures
            code == status_of(*self),
    {
        match self {
            ServerError::InternalError => 500,
            ServerError::PostNotFound => 404,
        }
    }

    /// The fixed message that forms the body of the response reporting this
    /// error; no internal failure detail ever appears in it.
    pub fn message(&self) -> (msg: String)
        ensures
            msg@ == message_of(*self),
    {
        match self {
            ServerError::InternalError => {
                "An internal error ocurred. Please try again later.".to_owned()
            },
            ServerError::PostNotFound => {
                "The post you are looking for does not exist.".to_owned()
            },
        }
    }

    /// The full error response: the kind's status code and fixed message.
    pub fn error_response(&self) -> (resp: Response)
        ensures
            resp@ == (ResponseView { status: status_of(*self), body: message_of(*self) }),
    {
        Response { status: self.status_code(), body: self.message() }
    }
}

/// A handler result, seen at the model level.
pub open spec fn result_view(r: Result<Response, ServerError>) -> Result<ResponseView, ServerError> {
    match r {
        Ok(resp) => Ok(resp@),
        Err(e) => Err(e),
    }
}

/// The response that a handler result turns into: a successful handler's own
/// response, or the matched error kind's status and fixed message.
pub open spec fn respond_view(r: Result<ResponseView, ServerError>) -> ResponseView {
    match r {
        Ok(v) => v,
        Err(e) => ResponseView { status: status_of(e), body: message_of(e) },
    }
}

/// Turns a handler's result into the response sent to the client, exactly as
/// the HTTP layer does: a success passes through, an error becomes its kind's
/// fixed response.
pub fn respond(r: Result<Response, ServerError>) -> (resp: Response)
    ensures
        resp@ == respond_view(result_view(r)),
{
    match r {
        Ok(resp) => resp,
        Err(e) => e.error_response(),
    }
}

} // verus!
