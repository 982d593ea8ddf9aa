//! The two operations of the boundary between the facade and the native side.

use vstd::prelude::*;
use crate::error::{Error, ErrorView, NativeError};
use crate::models::{AuthenticatePayload, AuthenticatePayloadView, Status, StatusView};

verus! {

/// One request across the boundary.
#[derive(Clone, Debug)]
pub enum Request {
    /// Query hardware and enrollment state; carries nothing.
    Status,
    /// Show the prompt described by the payload.
    Authenticate(AuthenticatePayload),
}

/// Mathematical content of a [`Request`].
pub ghost enum RequestView {
    Status,
    Authenticate(AuthenticatePayloadView),
}

impl View for Request {
    type V = RequestView;

    open spec fn view(&self) -> RequestView {
        match self {
            Request::Status => RequestView::Status,
            Request::Authenticate(p) => RequestView::Authenticate(p@),
        }
    }
}

impl RequestView {
    /// The name under which the native side knows the operation.
    pub open spec fn command(self) -> Seq<char> {
        match self {
            RequestView::Status => "status"@,
            RequestView::Authenticate(_) => "authenticate"@,
        }
    }
}

impl Request {
    /// The name under which the native side knows the operation.
    pub fn command(&self) -> (name: &'static str)
        ensures
            name@ == self@.command(),
    {
        match self {
            Request::Status => "status",
            Request::Authenticate(_) => "authenticate",
        }
    }
}

/// What the native side answers when it does not fail.
#[derive(Clone, Debug)]
pub enum Response {
    /// Success without content.
    Empty,
    /// A status record.
    Status(Status),
}

/// Mathematical content of a [`Response`].
pub ghost enum ResponseView {
    Empty,
    Status(StatusView),
}

impl View for Response {
    type V = ResponseView;

    open spec fn view(&self) -> ResponseView {
        match self {
            Response::Empty => ResponseView::Empty,
            Response::Status(s) => ResponseView::Status(s@),
        }
    }
}

/// The content of what a boundary call handed back.
pub open spec fn outcome_view(outcome: Result<Response, NativeError>) -> Result<
    ResponseView,
    crate::error::NativeErrorView,
> {
    match outcome {
        Ok(r) => Ok(r@),
        Err(e) => Err(e@),
    }
}

/// The content of the result of a `status` call.
pub open spec fn status_result_view(r: Result<Status, Error>) -> Result<StatusView, ErrorView> {
    match r {
        Ok(s) => Ok(s@),
        Err(e) => Err(e@),
    }
}

/// The content of the result of an `authenticate` call.
pub open spec fn auth_result_view(r: Result<(), Error>) -> Result<(), ErrorView> {
    match r {
        Ok(_) => Ok(()),
        Err(e) => Err(e@),
    }
}

/// What `status` returns for each outcome of the boundary call: the status
/// record as it came, the native failure as a typed error, and a transport
/// error for a response that is no status record.
pub open spec fn status_of_outcome(
    outcome: Result<ResponseView, crate::error::NativeErrorView>,
) -> Result<StatusView, ErrorView> {
    match outcome {
        Ok(ResponseView::Status(s)) => Ok(s),
        Ok(ResponseView::Empty) => Err(ErrorView::malformed_response()),
        Err(e) => Err(ErrorView::of_native(e)),
    }
}

/// What `authenticate` returns for each outcome of the boundary call:
/// success for the empty response, the native failure as a typed error, and
/// a transport error for a response that carries content.
pub open spec fn auth_of_outcome(
    outcome: Result<ResponseView, crate::error::NativeErrorView>,
) -> Result<(), ErrorView> {
    match outcome {
        Ok(ResponseView::Empty) => Ok(()),
        Ok(ResponseView::Status(_)) => Err(ErrorView::malformed_response()),
        Err(e) => Err(ErrorView::of_native(e)),
    }
}

/// Turns the outcome of a "status" boundary call into the caller's result.
pub fn finish_status(outcome: Result<Response, NativeError>) -> (r: Result<Status, Error>)
    ensures
        status_result_view(r) == status_of_outcome(outcome_view(outcome)),
{
    match outcome {
        Ok(Response::Status(s)) => Ok(s),
        Ok(Response::Empty) => Err(Error::malformed_response()),
        Err(e) => Err(Error::from_native(e)),
    }
}

/// Turns the outcome of an "authenticate" boundary call into the caller's
/// result.
pub fn finish_authenticate(outcome: Result<Response, NativeError>) -> (r: Result<(), Error>)
    ensures
        auth_result_view(r) == auth_of_outcome(outcome_view(outcome)),
{
    match outcome {
        Ok(Response::Empty) => Ok(()),
        Ok(Response::Status(_)) => Err(Error::malformed_response()),
        Err(e) => Err(Error::from_native(e)),
    }
}

} // verus!
