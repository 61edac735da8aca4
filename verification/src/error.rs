//! Construction-time errors of the query builder.
//!
//! Every validating operation reports a violation immediately through one of
//! these variants; no partial expression is ever produced on failure.

use vstd::prelude::*;

verus! {

/// The reason a builder step was rejected.
#[derive(Debug)]
pub enum Error {
    /// A selector was converted to an expression although it has neither a
    /// metric name nor a single matcher.
    EmptySelector,
    /// A metric name is empty or contains a character that is illegal in a
    /// metric identifier.
    InvalidSelector,
    /// A label matcher was given an empty label name.
    InvalidMatcher,
    /// A time range does not follow the duration grammar, or a range vector
    /// was requested from a selector without a range.
    InvalidDuration,
    /// A function or operator argument violates a semantic constraint; the
    /// message names the function and the constraint.
    InvalidFunctionArgument(String),
}

impl Error {
    /// A short human-readable description of the error.
    pub fn message(&self) -> (r: String)
        ensures
            self is EmptySelector ==> r@
                == "selector must have a metric name or at least one matcher"@,
            self is InvalidSelector ==> r@ == "metric name is empty or not a valid identifier"@,
            self is InvalidMatcher ==> r@ == "label name in a matcher cannot be empty"@,
            self is InvalidDuration ==> r@
                == "duration must be a positive integer with a valid time unit"@,
            self matches Error::InvalidFunctionArgument(m) ==> r@ == m@,
    {
        match self {
            Error::EmptySelector => "selector must have a metric name or at least one matcher"
                .to_owned(),
            Error::InvalidSelector => "metric name is empty or not a valid identifier".to_owned(),
            Error::InvalidMatcher => "label name in a matcher cannot be empty".to_owned(),
            Error::InvalidDuration => "duration must be a positive integer with a valid time unit"
                .to_owned(),
            Error::InvalidFunctionArgument(m) => m.clone(),
        }
    }
}

} // verus!
