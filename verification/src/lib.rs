//! A typed builder for PromQL-style query expressions.
//!
//! Callers assemble a selector from a metric name and label matchers,
//! convert it into an instant-vector or range-vector expression, apply
//! functions from the function library and combine expressions with binary
//! operators, and finally read the canonical query text back out with
//! `serialize`. Every constructor states the exact text it produces, so the
//! emitted string is a well-formed fragment of the query grammar by
//! construction.

pub mod error;
pub mod functions;
pub mod num;
pub mod operators;
pub mod selector;
pub mod text;
pub mod vector;
