//! The closed error taxonomy for entity-tag construction.

use vstd::prelude::*;

verus! {

/// The ways in which constructing an entity tag from text can fail.
/// Every failure is recoverable by the caller; constructors surface the
/// precise kind and never panic.
#[derive(Debug, Clone, Copy, PartialEq, Eq, Structural)]
pub enum EntityTagError {
    /// Strict wire parsing: the opaque-tag does not begin with a double
    /// quote (after an optional `W/` prefix has been stripped).
    MissingStartingDoubleQuote,
    /// The candidate begins with a double quote but does not end with one.
    MissingClosingDoubleQuote,
    /// The tag body holds a character outside the `etagc` set.
    InvalidTag,
}

impl EntityTagError {
    /// A human-readable description of the failure.
    pub fn message(&self) -> (r: &'static str)
        ensures
            *self == EntityTagError::MissingStartingDoubleQuote ==> r@
                == "the opaque tag misses the starting double quote"@,
            *self == EntityTagError::MissingClosingDoubleQuote ==> r@
                == "the opaque tag misses the closing double quote"@,
            *self == EntityTagError::InvalidTag ==> r@ == "invalid tag"@,
    {
        match self {
            EntityTagError::MissingStartingDoubleQuote => {
                "the opaque tag misses the starting double quote"
            },
            EntityTagError::MissingClosingDoubleQuote => {
                "the opaque tag misses the closing double quote"
            },
            EntityTagError::InvalidTag => "invalid tag",
        }
    }
}

} // verus!
