//! Failures and the coarse answers they are turned into.
//!
//! Every failure inside the library is one of the five [`Failure`] kinds. A caller
//! outside never sees the kind, only the status it maps to, so that an answer does
//! not tell why authentication failed.
use vstd::prelude::*;

verus! {

/// The statuses a request can be answered with.
#[derive(Clone, Copy, Debug, PartialEq, Eq, Structural)]
pub enum StatusCode {
    Success,
    NoContent,
    Unauthorized,
    NotFound,
    UnprocessableEntity,
    InternalServerError,
}

impl StatusCode {
    /// The numeric code of the status.
    pub open spec fn code(self) -> int {
        match self {
            StatusCode::Success => 200,
            StatusCode::NoContent => 204,
            StatusCode::Unauthorized => 401,
            StatusCode::NotFound => 404,
            StatusCode::UnprocessableEntity => 422,
            StatusCode::InternalServerError => 500,
        }
    }

    pub fn as_u16(self) -> (code: u16)
        ensures
            code == self.code(),
    {
        match self {
            StatusCode::Success => 200,
            StatusCode::NoContent => 204,
            StatusCode::Unauthorized => 401,
            StatusCode::NotFound => 404,
            StatusCode::UnprocessableEntity => 422,
            StatusCode::InternalServerError => 500,
        }
    }

    /// Whether the status reports success.
    pub open spec fn is_success_spec(self) -> bool {
        self == StatusCode::Success || self == StatusCode::NoContent
    }

    pub fn is_success(self) -> (yes: bool)
        ensures
            yes == self.is_success_spec(),
            yes == (200 <= self.code() < 300),
    {
        match self {
            StatusCode::Success => true,
            StatusCode::NoContent => true,
            _ => false,
        }
    }
}

/// Why a request failed, as the library sees it.
#[derive(Clone, Copy, Debug, PartialEq, Eq, Structural)]
pub enum Failure {
    /// The login payload was malformed.
    ValidationFailure,
    /// The identity is unknown.
    NotFound,
    /// The refresh token is missing, expired, forged or superseded.
    Unauthenticated,
    /// Another request rotated the refresh token first.
    Conflict,
    /// The store or the signing subsystem failed.
    BackendFailure,
}

impl Failure {
    /// The status a failure is answered with. A lost rotation race is answered
    /// like any other authentication failure.
    pub open spec fn status_spec(self) -> StatusCode {
        match self {
            Failure::ValidationFailure => StatusCode::UnprocessableEntity,
            Failure::NotFound => StatusCode::NotFound,
            Failure::Unauthenticated => StatusCode::Unauthorized,
            Failure::Conflict => StatusCode::Unauthorized,
            Failure::BackendFailure => StatusCode::InternalServerError,
        }
    }

    pub fn status(self) -> (status: StatusCode)
        ensures
            status == self.status_spec(),
    {
        match self {
            Failure::ValidationFailure => StatusCode::UnprocessableEntity,
            Failure::NotFound => StatusCode::NotFound,
            Failure::Unauthenticated => StatusCode::Unauthorized,
            Failure::Conflict => StatusCode::Unauthorized,
            Failure::BackendFailure => StatusCode::InternalServerError,
        }
    }
}

/// The answer to a request that did not succeed: a status and nothing else.
#[derive(Clone, Copy, Debug, PartialEq, Eq, Structural)]
pub struct HandlerError(pub StatusCode);

pub type HandlerResult<T> = Result<T, HandlerError>;

impl HandlerError {
    /// The error a failure is answered with.
    pub open spec fn of(failure: Failure) -> HandlerError {
        HandlerError(failure.status_spec())
    }

    pub fn from_failure(failure: Failure) -> (err: HandlerError)
        ensures
            err == HandlerError::of(failure),
    {
        HandlerError(failure.status())
    }

    /// The status carried by the error.
    pub fn status(&self) -> (status: StatusCode)
        ensures
            status == self.0,
    {
        self.0
    }

    /// The response to send: the numeric code, with an empty body.
    pub fn into_response(self) -> (code: u16)
        ensures
            code == self.0.code(),
    {
        self.0.as_u16()
    }
}

impl From<StatusCode> for HandlerError {
    fn from(code: StatusCode) -> (err: HandlerError) {
        HandlerError(code)
    }
}

impl vstd::std_specs::convert::FromSpecImpl<StatusCode> for HandlerError {
    open spec fn obeys_from_spec() -> bool {
        true
    }

    open spec fn from_spec(code: StatusCode) -> HandlerError {
        HandlerError(code)
    }
}

impl From<Failure> for HandlerError {
    fn from(failure: Failure) -> (err: HandlerError) {
        HandlerError(failure.status())
    }
}

impl vstd::std_specs::convert::FromSpecImpl<Failure> for HandlerError {
    open spec fn obeys_from_spec() -> bool {
        true
    }

    open spec fn from_spec(failure: Failure) -> HandlerError {
        HandlerError::of(failure)
    }
}

/// No failure is answered with a status that reports success, and only a backend
/// failure is answered with the status for an internal error.
pub proof fn failure_status_is_error(failure: Failure)
    ensures
        !failure.status_spec().is_success_spec(),
        failure.status_spec().code() >= 400,
        failure.status_spec() == StatusCode::InternalServerError <==> failure
            == Failure::BackendFailure,
{
}

/// A lost rotation race cannot be told from any other authentication failure.
pub proof fn conflict_is_indistinguishable()
    ensures
        HandlerError::of(Failure::Conflict) == HandlerError::of(Failure::Unauthenticated),
{
}

} // verus!
