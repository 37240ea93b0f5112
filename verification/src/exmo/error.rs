use vstd::prelude::*;

use crate::validation::FieldErrors;

verus! {

/// How a request to exmo failed, as seen by its caller.
#[derive(Debug, Clone)]
pub enum ErrorKind {
    MalformedInput,
    Unauthorized,
    Internal,
    InvalidInput(FieldErrors),
}

/// Which layer a failed exmo request failed in.
#[derive(Debug, Clone, Copy, PartialEq, Eq, Structural)]
pub enum ErrorSource {
    Hyper,
    Utf8,
    Json,
}

/// What the exmo client was doing when it failed.
#[derive(Debug, Clone, Copy, PartialEq, Eq, Structural)]
pub enum ErrorContext {
    NoGraphQLData,
    NotEnoughAmount,
    Delay,
    NoSuchConversion,
}

impl ErrorSource {
    pub open spec fn spec_message(self) -> Seq<char> {
        match self {
            ErrorSource::Hyper => "exmo client source - error inside of Hyper library"@,
            ErrorSource::Utf8 => "exmo client source - error parsing bytes to utf8"@,
            ErrorSource::Json => "exmo client source - error parsing string to json"@,
        }
    }

    /// The text the source displays as.
    pub fn message(self) -> (r: &'static str)
        ensures
            r@ == self.spec_message(),
    {
        match self {
            ErrorSource::Hyper => "exmo client source - error inside of Hyper library",
            ErrorSource::Utf8 => "exmo client source - error parsing bytes to utf8",
            ErrorSource::Json => "exmo client source - error parsing string to json",
        }
    }
}

impl ErrorContext {
    pub open spec fn spec_message(self) -> Seq<char> {
        match self {
            ErrorContext::NoGraphQLData => "exmo client context - no data returned from graphql"@,
            ErrorContext::NotEnoughAmount => "exmo client context - not enough amount on market"@,
            ErrorContext::Delay => "exmo client context - error during delay"@,
            ErrorContext::NoSuchConversion => "exmo client context - no such currency conversion on market"@,
        }
    }

    /// The text the context displays as.
    pub fn message(self) -> (r: &'static str)
        ensures
            r@ == self.spec_message(),
    {
        match self {
            ErrorContext::NoGraphQLData => "exmo client context - no data returned from graphql",
            ErrorContext::NotEnoughAmount => "exmo client context - not enough amount on market",
            ErrorContext::Delay => "exmo client context - error during delay",
            ErrorContext::NoSuchConversion => "exmo client context - no such currency conversion on market",
        }
    }
}

/// A failed exmo request: its kind, with the layer and the step it failed in
/// where they are known.
#[derive(Debug, Clone)]
pub struct Error {
    pub kind: ErrorKind,
    pub source: Option<ErrorSource>,
    pub context: Option<ErrorContext>,
}

impl Error {
    pub fn new(kind: ErrorKind, source: Option<ErrorSource>, context: Option<ErrorContext>) -> (r: Error)
        ensures
            r.kind == kind,
            r.source == source,
            r.context == context,
    {
        Error { kind, source, context }
    }

    pub fn kind(&self) -> (r: &ErrorKind)
        ensures
            *r == self.kind,
    {
        &self.kind
    }
}

} // verus!
