//! The error taxonomy shared by the builders, the adapter and the pagination
//! driver.

use vstd::prelude::*;
use vstd::string::*;

verus! {

/// Every way in which building a query, reading a reply or paging through a
/// replication stream can fail.
#[derive(Clone, Copy, Debug, PartialEq, Eq, Structural)]
pub enum ResoError {
    /// The resource name is blank.
    MissingResource,
    /// Two clauses were set that cannot be sent together.
    ConflictingClause,
    /// `top` was set to zero.
    InvalidLimit,
    /// The ordering direction is neither `asc` nor `desc`.
    InvalidDirection,
    /// The transport could not complete the request.
    TransportError,
    /// The transport gave up waiting for the reply.
    Timeout,
    /// The server answered with a status outside `200..=299`.
    HttpStatus(u16),
    /// A keyed lookup was answered with status 404.
    NotFound,
    /// The reply's body does not have the shape the request calls for.
    MalformedResponse,
    /// The server handed out the same continuation link twice in a row.
    PaginationStalled,
}

impl ResoError {
    /// Whether the error was found while validating a builder, before any
    /// request was sent.
    pub open spec fn is_validation_spec(self) -> bool {
        self == ResoError::MissingResource || self == ResoError::ConflictingClause || self
            == ResoError::InvalidLimit || self == ResoError::InvalidDirection
    }

    /// Whether the error was found while validating a builder, before any
    /// request was sent.
    #[verifier::when_used_as_spec(is_validation_spec)]
    pub fn is_validation(self) -> (r: bool)
        ensures
            r == self.is_validation_spec(),
    {
        match self {
            ResoError::MissingResource => true,
            ResoError::ConflictingClause => true,
            ResoError::InvalidLimit => true,
            ResoError::InvalidDirection => true,
            _ => false,
        }
    }

    /// The text that describes each kind of error.
    pub open spec fn message_spec(self) -> Seq<char> {
        match self {
            ResoError::MissingResource => "missing resource: a resource name is required"@,
            ResoError::ConflictingClause => "conflicting clauses: these clauses cannot be combined"@,
            ResoError::InvalidLimit => "invalid limit: top must be greater than zero"@,
            ResoError::InvalidDirection => "invalid direction: expected asc or desc"@,
            ResoError::TransportError => "transport error: the request could not be completed"@,
            ResoError::Timeout => "timeout: the request took too long"@,
            ResoError::HttpStatus(code) => "unexpected HTTP status "@ + crate::text::decimal(
                code as nat,
            ),
            ResoError::NotFound => "not found: the server has no such record"@,
            ResoError::MalformedResponse => "malformed response: the body has an unexpected shape"@,
            ResoError::PaginationStalled => "pagination stalled: the continuation link did not advance"@,
        }
    }

    /// A human-readable description of the error.
    pub fn message(&self) -> (r: String)
        ensures
            r@ == self.message_spec(),
    {
        match self {
            ResoError::MissingResource => String::from_str(
                "missing resource: a resource name is required",
            ),
            ResoError::ConflictingClause => String::from_str(
                "conflicting clauses: these clauses cannot be combined",
            ),
            ResoError::InvalidLimit => String::from_str(
                "invalid limit: top must be greater than zero",
            ),
            ResoError::InvalidDirection => String::from_str(
                "invalid direction: expected asc or desc",
            ),
            ResoError::TransportError => String::from_str(
                "transport error: the request could not be completed",
            ),
            ResoError::Timeout => String::from_str("timeout: the request took too long"),
            ResoError::HttpStatus(code) => {
                let number = crate::text::decimal_text(*code as u64);
                String::from_str("unexpected HTTP status ").concat(number.as_str())
            },
            ResoError::NotFound => String::from_str("not found: the server has no such record"),
            ResoError::MalformedResponse => String::from_str(
                "malformed response: the body has an unexpected shape",
            ),
            ResoError::PaginationStalled => String::from_str(
                "pagination stalled: the continuation link did not advance",
            ),
        }
    }
}

} // verus!
