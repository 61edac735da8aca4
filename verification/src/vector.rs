//! The expression phases of the query language.
//!
//! A constructed query fragment is an owned, already-serialized piece of
//! text tagged by its phase: instant vector, range vector, scalar or string
//! literal. Each phase is its own type, so an operation that is only legal
//! for one phase simply cannot be called on another. Values are immutable
//! and consumed by every transformation; the wrapped text is always a
//! complete, self-delimiting fragment of the grammar, established by the
//! constructors and never by the caller.

use vstd::prelude::*;

verus! {

use vstd::string::StringExecFns;
use crate::num::Decimal;
use crate::text::append_quoted;
use crate::text::quoted;

/// An expression yielding one sample per matched series at a single point
/// in time.
#[derive(Debug)]
pub struct InstantVector {
    text: String,
}

impl View for InstantVector {
    type V = Seq<char>;

    closed spec fn view(&self) -> Seq<char> {
        self.text@
    }
}

impl InstantVector {
    /// Wraps text that is already a complete instant-vector fragment.
    pub(crate) fn from_text(text: String) -> (r: InstantVector)
        ensures
            r@ == text@,
    {
        InstantVector { text }
    }

    /// The canonical query text. Serialization is pure and repeatable: the
    /// result is determined by the expression alone, so serializing twice
    /// yields the same text.
    pub fn serialize(&self) -> (r: String)
        ensures
            r@ == self@,
    {
        self.text.clone()
    }
}

/// An expression yielding a sequence of samples per matched series over a
/// trailing time window.
#[derive(Debug)]
pub struct RangeVector {
    text: String,
}

impl View for RangeVector {
    type V = Seq<char>;

    closed spec fn view(&self) -> Seq<char> {
        self.text@
    }
}

impl RangeVector {
    /// Wraps text that is already a complete range-vector fragment.
    pub(crate) fn from_text(text: String) -> (r: RangeVector)
        ensures
            r@ == text@,
    {
        RangeVector { text }
    }

    /// The canonical query text. Serialization is pure and repeatable.
    pub fn serialize(&self) -> (r: String)
        ensures
            r@ == self@,
    {
        self.text.clone()
    }
}

/// An expression in the scalar phase: a plain number.
#[derive(Debug)]
pub struct Scalar {
    text: String,
}

impl View for Scalar {
    type V = Seq<char>;

    closed spec fn view(&self) -> Seq<char> {
        self.text@
    }
}

impl Scalar {
    /// A scalar expression holding the canonical text of the number.
    pub fn from_decimal(value: &Decimal) -> (r: Scalar)
        ensures
            r@ == value.text(),
    {
        Scalar { text: value.render() }
    }

    /// Wraps text that is already a complete scalar fragment.
    pub(crate) fn from_text(text: String) -> (r: Scalar)
        ensures
            r@ == text@,
    {
        Scalar { text }
    }

    /// The canonical query text. Serialization is pure and repeatable.
    pub fn serialize(&self) -> (r: String)
        ensures
            r@ == self@,
    {
        self.text.clone()
    }
}

/// An expression in the string-literal phase: quoted text.
#[derive(Debug)]
pub struct StringLiteral {
    text: String,
}

impl View for StringLiteral {
    type V = Seq<char>;

    closed spec fn view(&self) -> Seq<char> {
        self.text@
    }
}

impl StringLiteral {
    /// A string-literal expression: the text in double quotes with inner
    /// quotes and backslashes escaped.
    pub fn new(value: &str) -> (r: StringLiteral)
        ensures
            r@ == quoted(value@),
    {
        let mut out = String::new();
        append_quoted(&mut out, value);
        StringLiteral { text: out }
    }

    /// The canonical query text. Serialization is pure and repeatable.
    pub fn serialize(&self) -> (r: String)
        ensures
            r@ == self@,
    {
        self.text.clone()
    }
}

} // verus!
