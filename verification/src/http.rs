//! Status codes, the failure taxonomy and the response shapes that every
//! handler returns.

use vstd::prelude::*;
use crate::text::join;

verus! {

/// The HTTP statuses that the handlers of this library answer with.
#[derive(Clone, Copy, Debug, PartialEq, Eq, Structural)]
pub enum Status {
    Success,
    Created,
    Unauthorized,
    NotFound,
    UnprocessableEntity,
    InternalServerError,
}

impl Status {
    /// The numeric code of a status.
    pub open spec fn spec_code(self) -> int {
        match self {
            Status::Success => 200,
            Status::Created => 201,
            Status::Unauthorized => 401,
            Status::NotFound => 404,
            Status::UnprocessableEntity => 422,
            Status::InternalServerError => 500,
        }
    }

    /// The numeric code of a status, as sent on the wire.
    pub fn code(&self) -> (code: u16)
        ensures
            code == self.spec_code(),
    {
        match self {
            Status::Success => 200,
            Status::Created => 201,
            Status::Unauthorized => 401,
            Status::NotFound => 404,
            Status::UnprocessableEntity => 422,
            Status::InternalServerError => 500,
        }
    }
}

/// Why a request failed. An unknown email and a wrong password are one kind,
/// and so are a missing, expired, forged and undecodable token: a caller
/// cannot tell them apart.
#[derive(Clone, Copy, Debug, PartialEq, Eq, Structural)]
pub enum ErrorKind {
    DuplicateEmail,
    InvalidCredentials,
    Unauthenticated,
    NotFound,
    InternalFailure,
}

impl ErrorKind {
    /// The status that a failure of this kind is reported with.
    pub open spec fn spec_status(self) -> Status {
        match self {
            ErrorKind::DuplicateEmail => Status::UnprocessableEntity,
            ErrorKind::InvalidCredentials => Status::Unauthorized,
            ErrorKind::Unauthenticated => Status::Unauthorized,
            ErrorKind::NotFound => Status::NotFound,
            ErrorKind::InternalFailure => Status::InternalServerError,
        }
    }

    /// The status that a failure of this kind is reported with.
    pub fn status(&self) -> (status: Status)
        ensures
            status == self.spec_status(),
    {
        match self {
            ErrorKind::DuplicateEmail => Status::UnprocessableEntity,
            ErrorKind::InvalidCredentials => Status::Unauthorized,
            ErrorKind::Unauthenticated => Status::Unauthorized,
            ErrorKind::NotFound => Status::NotFound,
            ErrorKind::InternalFailure => Status::InternalServerError,
        }
    }
}

/// A failure as a caller sees it: its kind and a message.
#[derive(Debug)]
pub struct ErrorResponse {
    pub kind: ErrorKind,
    pub message: String,
}

/// An `ErrorResponse` as a plain value.
pub struct ErrorView {
    pub kind: ErrorKind,
    pub message: Seq<char>,
}

impl View for ErrorResponse {
    type V = ErrorView;

    open spec fn view(&self) -> ErrorView {
        ErrorView { kind: self.kind, message: self.message@ }
    }
}

impl ErrorResponse {
    /// A failure of the given kind with a fixed message.
    pub fn new(kind: ErrorKind, message: &str) -> (e: ErrorResponse)
        ensures
            e@ == (ErrorView { kind, message: message@ }),
    {
        ErrorResponse { kind, message: message.to_string() }
    }

    /// An internal failure whose message is a fixed prefix followed by the
    /// detail that the failing component gave.
    pub fn internal(prefix: &str, detail: &str) -> (e: ErrorResponse)
        ensures
            e@ == internal_failure(prefix@, detail@),
    {
        ErrorResponse { kind: ErrorKind::InternalFailure, message: join(prefix, detail) }
    }

    /// The status that this failure is reported with.
    pub fn status(&self) -> (status: Status)
        ensures
            status == self.kind.spec_status(),
    {
        self.kind.status()
    }
}

/// The internal failure whose message is `prefix` followed by `detail`.
pub open spec fn internal_failure(prefix: Seq<char>, detail: Seq<char>) -> ErrorView {
    ErrorView { kind: ErrorKind::InternalFailure, message: prefix + detail }
}

/// A success: the status and the body that goes with it.
#[derive(Debug)]
pub struct SuccessResponse<T> {
    pub status: Status,
    pub body: T,
}

/// What every handler returns.
pub type Response<T> = Result<SuccessResponse<T>, ErrorResponse>;

/// A response as a plain value: the status with the body's view, or the
/// failure's view.
pub open spec fn answer<T: View>(res: Response<T>) -> Result<(Status, T::V), ErrorView> {
    match res {
        Ok(s) => Ok((s.status, s.body@)),
        Err(e) => Err(e@),
    }
}

/// The status that a response is sent with.
pub open spec fn spec_status_of<T>(res: Response<T>) -> Status {
    match res {
        Ok(s) => s.status,
        Err(e) => e.kind.spec_status(),
    }
}

/// The status that a response is sent with.
pub fn status_of<T>(res: &Response<T>) -> (status: Status)
    ensures
        status == spec_status_of(*res),
{
    match res {
        Ok(s) => s.status,
        Err(e) => e.kind.status(),
    }
}

} // verus!
