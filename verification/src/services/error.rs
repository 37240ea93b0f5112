use vstd::prelude::*;

use crate::exmo::error::ErrorKind as ExmoClientErrorKind;
use crate::repos::ErrorKind as ReposErrorKind;
use crate::validation::FieldErrors;

verus! {

/// How a request to the exchange service failed.
#[derive(Debug, Clone)]
pub enum ErrorKind {
    Unauthorized,
    MalformedInput,
    InvalidInput(FieldErrors),
    Internal,
    NotFound,
}

/// What the exchange service found wrong.
#[derive(Debug, Clone, Copy, PartialEq, Eq, Structural)]
pub enum ErrorContext {
    Internal,
    NoExchangeRate,
    NoSuchRate,
    InvalidToken,
    NotEnoughCurrencyBalance,
}

impl ErrorContext {
    pub open spec fn spec_message(self) -> Seq<char> {
        match self {
            ErrorContext::Internal => "service error context - internal error"@,
            ErrorContext::NoExchangeRate => "service error context - no exchange rate found"@,
            ErrorContext::NoSuchRate => "service error context - no such exchange rate on market"@,
            ErrorContext::InvalidToken => "service error context - invalid auth token"@,
            ErrorContext::NotEnoughCurrencyBalance => "service error context - not enough amount on users balance in exmo"@,
        }
    }

    /// The text the context displays as.
    pub fn message(self) -> (r: &'static str)
        ensures
            r@ == self.spec_message(),
    {
        match self {
            ErrorContext::Internal => "service error context - internal error",
            ErrorContext::NoExchangeRate => "service error context - no exchange rate found",
            ErrorContext::NoSuchRate => "service error context - no such exchange rate on market",
            ErrorContext::InvalidToken => "service error context - invalid auth token",
            ErrorContext::NotEnoughCurrencyBalance => "service error context - not enough amount on users balance in exmo",
        }
    }
}

/// The service's kind for a failure of the database layer.
pub open spec fn kind_of_repos(e: ReposErrorKind) -> ErrorKind {
    match e {
        ReposErrorKind::Internal => ErrorKind::Internal,
        ReposErrorKind::Unauthorized => ErrorKind::Unauthorized,
        ReposErrorKind::Constraints(errors) => ErrorKind::InvalidInput(errors),
    }
}

/// The service's kind for a failure of the exmo client.
pub open spec fn kind_of_exmo(e: ExmoClientErrorKind) -> ErrorKind {
    match e {
        ExmoClientErrorKind::Internal => ErrorKind::Internal,
        ExmoClientErrorKind::Unauthorized => ErrorKind::Unauthorized,
        ExmoClientErrorKind::MalformedInput => ErrorKind::MalformedInput,
        ExmoClientErrorKind::InvalidInput(errors) => ErrorKind::InvalidInput(errors),
    }
}

impl From<ReposErrorKind> for ErrorKind {
    fn from(e: ReposErrorKind) -> (r: ErrorKind) {
        match e {
            ReposErrorKind::Internal => ErrorKind::Internal,
            ReposErrorKind::Unauthorized => ErrorKind::Unauthorized,
            ReposErrorKind::Constraints(errors) => ErrorKind::InvalidInput(errors),
        }
    }
}

impl vstd::std_specs::convert::FromSpecImpl<ReposErrorKind> for ErrorKind {
    open spec fn obeys_from_spec() -> bool {
        true
    }

    open spec fn from_spec(e: ReposErrorKind) -> ErrorKind {
        kind_of_repos(e)
    }
}

impl From<ExmoClientErrorKind> for ErrorKind {
    fn from(e: ExmoClientErrorKind) -> (r: ErrorKind) {
        match e {
            ExmoClientErrorKind::Internal => ErrorKind::Internal,
            ExmoClientErrorKind::Unauthorized => ErrorKind::Unauthorized,
            ExmoClientErrorKind::MalformedInput => ErrorKind::MalformedInput,
            ExmoClientErrorKind::InvalidInput(errors) => ErrorKind::InvalidInput(errors),
        }
    }
}

impl vstd::std_specs::convert::FromSpecImpl<ExmoClientErrorKind> for ErrorKind {
    open spec fn obeys_from_spec() -> bool {
        true
    }

    open spec fn from_spec(e: ExmoClientErrorKind) -> ErrorKind {
        kind_of_exmo(e)
    }
}

/// A failed request to the exchange service: its kind, with what was found
/// wrong where that is known.
#[derive(Debug, Clone)]
pub struct Error {
    pub kind: ErrorKind,
    pub context: Option<ErrorContext>,
}

impl Error {
    pub fn new(kind: ErrorKind, context: Option<ErrorContext>) -> (r: Error)
        ensures
            r.kind == kind,
            r.context == context,
    {
        Error { kind, context }
    }

    pub fn kind(&self) -> (r: &ErrorKind)
        ensures
            *r == self.kind,
    {
        &self.kind
    }
}

} // verus!
