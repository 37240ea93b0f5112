//! What the exchange service sees of the database layer's failures.

use vstd::prelude::*;

use crate::validation::FieldErrors;

verus! {

/// How a database request failed.
#[derive(Debug, Clone)]
pub enum ErrorKind {
    Internal,
    Unauthorized,
    /// The row broke a constraint of the table; the fields at fault are named.
    Constraints(FieldErrors),
}

} // verus!
