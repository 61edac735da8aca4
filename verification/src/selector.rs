//! Selectors: a metric name plus label matchers and an optional time range.
//!
//! A selector is built incrementally and then consumed, by value, into an
//! instant-vector or range-vector expression; once converted it cannot be
//! used again, which the ownership transfer enforces at compile time.

use vstd::prelude::*;

verus! {

use vstd::string::StrSliceExecFns;
use vstd::string::StringExecFns;
use crate::error::Error;
use crate::num::digit_prefix_len;
use crate::num::is_digit;
use crate::num::lemma_digit_prefix_characterized;
use crate::text::append_quoted;
use crate::text::joined;
use crate::text::push_char;
use crate::text::quoted;
use crate::vector::InstantVector;
use crate::vector::RangeVector;

/// The comparison a matcher applies between a label and a value.
#[derive(Clone, Copy, PartialEq, Eq, Structural, Debug)]
pub enum MatchOp {
    /// The label value equals the given text.
    Equal,
    /// The label value differs from the given text.
    NotEqual,
    /// The label value matches the given regular expression.
    RegexMatch,
    /// The label value does not match the given regular expression.
    RegexNotMatch,
}

impl MatchOp {
    /// The operator's token in the query grammar.
    pub open spec fn token(self) -> Seq<char> {
        match self {
            MatchOp::Equal => "="@,
            MatchOp::NotEqual => "!="@,
            MatchOp::RegexMatch => "=~"@,
            MatchOp::RegexNotMatch => "!~"@,
        }
    }

    /// The operator's token as text.
    pub fn token_str(self) -> (r: &'static str)
        ensures
            r@ == self.token(),
    {
        match self {
            MatchOp::Equal => "=",
            MatchOp::NotEqual => "!=",
            MatchOp::RegexMatch => "=~",
            MatchOp::RegexNotMatch => "!~",
        }
    }
}

/// A single label-matching predicate: label name, operator and value.
/// The label is never empty, and the value is escaped when serialized.
#[derive(Debug)]
pub struct Matcher {
    /// The label name; never empty.
    pub label: String,
    /// The comparison operator.
    pub op: MatchOp,
    /// The raw value; quotes and backslashes are escaped on output.
    pub value: String,
}

impl Matcher {
    /// The invariant the selector's builder methods establish.
    pub open spec fn wf(self) -> bool {
        self.label@.len() > 0
    }

    /// The matcher's canonical text: `label<op>"value"` with the value
    /// escaped.
    pub open spec fn text(self) -> Seq<char> {
        self.label@ + self.op.token() + quoted(self.value@)
    }

    /// Appends the matcher's canonical text.
    fn append_text(&self, out: &mut String)
        ensures
            final(out)@ == old(out)@ + self.text(),
    {
        out.append(self.label.as_str());
        out.append(self.op.token_str());
        append_quoted(out, self.value.as_str());
        proof {
            assert(out@ =~= old(out)@ + self.text());
        }
    }
}

/// True for letters of the basic Latin alphabet.
pub open spec fn is_alpha(c: char) -> bool {
    (('a' as u32) <= (c as u32) && (c as u32) <= ('z' as u32)) || (('A' as u32) <= (c as u32) && (
    c as u32) <= ('Z' as u32))
}

/// A character that may start a metric identifier.
pub open spec fn is_metric_start_char(c: char) -> bool {
    is_alpha(c) || c == '_' || c == ':'
}

/// A character that may appear in a metric identifier after the first.
pub open spec fn is_metric_char(c: char) -> bool {
    is_metric_start_char(c) || is_digit(c)
}

/// A legal metric identifier: nonempty, starting with a letter, `_` or `:`,
/// continuing with those or digits.
pub open spec fn is_valid_metric_name(s: Seq<char>) -> bool {
    &&& s.len() >= 1
    &&& is_metric_start_char(s[0])
    &&& forall|i: int| 0 <= i < s.len() ==> is_metric_char(#[trigger] s[i])
}

/// True exactly when `name` is a legal metric identifier.
fn validate_metric_name(name: &str) -> (r: bool)
    ensures
        r == is_valid_metric_name(name@),
{
    let n: usize = name.unicode_len();
    if n == 0 {
        return false;
    }
    let c0 = name.get_char(0);
    let start_ok: bool = ((c0 as u32) >= ('a' as u32) && (c0 as u32) <= ('z' as u32)) || ((
    c0 as u32) >= ('A' as u32) && (c0 as u32) <= ('Z' as u32)) || c0 == '_' || c0 == ':';
    if !start_ok {
        return false;
    }
    let mut i: usize = 1;
    while i < n
        invariant
            n == name@.len(),
            1 <= i <= n,
            is_metric_start_char(name@[0]),
            forall|q: int| 0 <= q < i ==> is_metric_char(#[trigger] name@[q]),
        decreases n - i,
    {
        let c = name.get_char(i);
        let ok: bool = ((c as u32) >= ('a' as u32) && (c as u32) <= ('z' as u32)) || ((c as u32)
            >= ('A' as u32) && (c as u32) <= ('Z' as u32)) || c == '_' || c == ':' || ((c as u32)
            >= ('0' as u32) && (c as u32) <= ('9' as u32));
        if !ok {
            return false;
        }
        i = i + 1;
    }
    true
}

/// A legal duration unit: `ms`, or one of `s`, `m`, `h`, `d`, `w`, `y`.
pub open spec fn is_duration_unit(u: Seq<char>) -> bool {
    ||| u =~= seq!['m', 's']
    ||| (u.len() == 1 && (u[0] == 's' || u[0] == 'm' || u[0] == 'h' || u[0] == 'd' || u[0] == 'w'
        || u[0] == 'y'))
}

/// A legal duration token: one or more digits denoting a positive
/// magnitude, followed by a unit.
pub open spec fn is_valid_duration(s: Seq<char>) -> bool {
    let k = digit_prefix_len(s);
    &&& k >= 1
    &&& exists|q: int| 0 <= q < k && #[trigger] s[q] != '0'
    &&& is_duration_unit(s.subrange(k, s.len() as int))
}

/// A validated time-range token such as `5m`, kept verbatim.
#[derive(Debug)]
pub struct Duration {
    text: String,
}

impl View for Duration {
    type V = Seq<char>;

    closed spec fn view(&self) -> Seq<char> {
        self.text@
    }
}

impl Duration {
    /// The invariant `parse` establishes.
    pub open spec fn wf(self) -> bool {
        is_valid_duration(self@)
    }

    /// The duration's text, exactly as it was accepted.
    pub fn serialize(&self) -> (r: String)
        ensures
            r@ == self@,
    {
        self.text.clone()
    }

    /// Parses a duration token. Succeeds exactly on text of the form
    /// `<integer><unit>` with a nonzero magnitude and a known unit, and
    /// keeps the accepted text verbatim.
    pub fn parse(text: &str) -> (r: Result<Duration, Error>)
        ensures
            r is Ok <==> is_valid_duration(text@),
            r matches Ok(d) ==> d@ == text@ && d.wf(),
            r is Err ==> r matches Err(Error::InvalidDuration),
    {
        let n: usize = text.unicode_len();
        let mut i: usize = 0;
        let mut nonzero: bool = false;
        loop
            invariant
                n == text@.len(),
                0 <= i <= n,
                forall|q: int| 0 <= q < i ==> is_digit(#[trigger] text@[q]),
                nonzero == exists|q: int| 0 <= q < i && #[trigger] text@[q] != '0',
            ensures
                0 <= i <= n,
                forall|q: int| 0 <= q < i ==> is_digit(#[trigger] text@[q]),
                nonzero == exists|q: int| 0 <= q < i && #[trigger] text@[q] != '0',
                i == n || !is_digit(text@[i as int]),
            decreases n - i,
        {
            if i == n {
                break;
            }
            let c = text.get_char(i);
            let digit: bool = (c as u32) >= ('0' as u32) && (c as u32) <= ('9' as u32);
            if !digit {
                break;
            }
            if c != '0' {
                nonzero = true;
                proof {
                    assert(text@[i as int] != '0');
                }
            }
            i = i + 1;
        }
        proof {
            lemma_digit_prefix_characterized(text@, i as int);
        }
        if i == 0 || !nonzero {
            return Err(Error::InvalidDuration);
        }
        let ghost unit = text@.subrange(i as int, n as int);
        if n - i == 1 {
            let c = text.get_char(i);
            let ok: bool = c == 's' || c == 'm' || c == 'h' || c == 'd' || c == 'w' || c == 'y';
            if !ok {
                proof {
                    assert(unit[0] == text@[i as int]);
                    assert(!(unit =~= seq!['m', 's']));
                }
                return Err(Error::InvalidDuration);
            }
            proof {
                assert(unit[0] == text@[i as int]);
            }
        } else if n - i == 2 {
            let c0 = text.get_char(i);
            let c1 = text.get_char(i + 1);
            if !(c0 == 'm' && c1 == 's') {
                proof {
                    assert(unit[0] == text@[i as int]);
                    assert(unit[1] == text@[i + 1]);
                    assert(!(unit =~= seq!['m', 's']));
                }
                return Err(Error::InvalidDuration);
            }
            proof {
                assert(unit =~= seq!['m', 's']);
            }
        } else {
            proof {
                assert(unit.len() != 1 && unit.len() != 2);
                assert(!(unit =~= seq!['m', 's']));
            }
            return Err(Error::InvalidDuration);
        }
        Ok(Duration { text: text.to_owned() })
    }
}

/// Accumulates a metric name and label matchers, with an optional time
/// range, for conversion into a vector expression.
#[derive(Debug)]
pub struct Selector {
    /// The metric identifier, if one was set.
    pub metric: Option<String>,
    /// The matchers in insertion order.
    pub matchers: Vec<Matcher>,
    /// The time range, if one was set.
    pub range: Option<Duration>,
}

impl Selector {
    /// The invariant the builder methods establish and preserve.
    pub open spec fn wf(self) -> bool {
        &&& (self.metric matches Some(m) ==> is_valid_metric_name(m@))
        &&& forall|i: int| 0 <= i < self.matchers@.len() ==> (#[trigger] self.matchers@[i]).wf()
        &&& (self.range matches Some(d) ==> d.wf())
    }

    /// A selector with neither a metric name nor a matcher is invalid.
    pub open spec fn is_empty(self) -> bool {
        self.metric is None && self.matchers@.len() == 0
    }

    /// The metric name part of the output, empty when none was set.
    pub open spec fn metric_text(self) -> Seq<char> {
        match self.metric {
            Some(m) => m@,
            None => Seq::empty(),
        }
    }

    /// The matcher block: `{m1,m2,...}`, omitted entirely when there are no
    /// matchers.
    pub open spec fn block_text(self) -> Seq<char> {
        if self.matchers@.len() == 0 {
            Seq::empty()
        } else {
            seq!['{'] + joined(self.matchers@.map_values(|m: Matcher| m.text()), seq![','])
                + seq!['}']
        }
    }

    /// The instant-vector form: metric name followed by the matcher block.
    pub open spec fn instant_text(self) -> Seq<char> {
        self.metric_text() + self.block_text()
    }

    /// The range-vector form: the instant-vector form with the duration
    /// appended verbatim in brackets.
    pub open spec fn range_text(self) -> Seq<char> {
        match self.range {
            Some(d) => self.instant_text() + seq!['['] + d@ + seq![']'],
            None => self.instant_text(),
        }
    }

    /// An empty selector; a metric name or at least one matcher must be
    /// added before it can be converted.
    pub fn new() -> (r: Selector)
        ensures
            r.metric is None,
            r.matchers@.len() == 0,
            r.range is None,
            r.wf(),
    {
        Selector { metric: None, matchers: Vec::new(), range: None }
    }

    /// Sets the metric name. Fails with `InvalidSelector` exactly when the
    /// name is empty or contains a character illegal in a metric
    /// identifier.
    pub fn metric(self, name: &str) -> (r: Result<Selector, Error>)
        ensures
            r is Ok <==> is_valid_metric_name(name@),
            r matches Ok(s) ==> {
                &&& s.metric matches Some(m) && m@ == name@
                &&& s.matchers == self.matchers
                &&& s.range == self.range
                &&& self.wf() ==> s.wf()
            },
            r is Err ==> r matches Err(Error::InvalidSelector),
    {
        if !validate_metric_name(name) {
            return Err(Error::InvalidSelector);
        }
        let mut s = self;
        s.metric = Some(name.to_owned());
        Ok(s)
    }

    /// Appends a matcher with the given operator. Fails with
    /// `InvalidMatcher` exactly when the label is empty.
    pub fn matcher(self, op: MatchOp, label: &str, value: &str) -> (r: Result<Selector, Error>)
        ensures
            r is Ok <==> label@.len() > 0,
            r matches Ok(s) ==> {
                &&& s.metric == self.metric
                &&& s.range == self.range
                &&& s.matchers@.len() == self.matchers@.len() + 1
                &&& s.matchers@.drop_last() == self.matchers@
                &&& s.matchers@.last().label@ == label@
                &&& s.matchers@.last().op == op
                &&& s.matchers@.last().value@ == value@
                &&& self.wf() ==> s.wf()
            },
            r is Err ==> r matches Err(Error::InvalidMatcher),
    {
        if label.is_empty() {
            return Err(Error::InvalidMatcher);
        }
        let mut s = self;
        s.matchers.push(Matcher { label: label.to_owned(), op, value: value.to_owned() });
        proof {
            assert(s.matchers@.drop_last() =~= self.matchers@);
        }
        Ok(s)
    }

    /// Appends an equality matcher: `label="value"`.
    pub fn with(self, label: &str, value: &str) -> (r: Result<Selector, Error>)
        ensures
            r is Ok <==> label@.len() > 0,
            r matches Ok(s) ==> {
                &&& s.metric == self.metric
                &&& s.range == self.range
                &&& s.matchers@.len() == self.matchers@.len() + 1
                &&& s.matchers@.drop_last() == self.matchers@
                &&& s.matchers@.last().label@ == label@
                &&& s.matchers@.last().op == MatchOp::Equal
                &&& s.matchers@.last().value@ == value@
                &&& self.wf() ==> s.wf()
            },
            r is Err ==> r matches Err(Error::InvalidMatcher),
    {
        self.matcher(MatchOp::Equal, label, value)
    }

    /// Appends an inequality matcher: `label!="value"`.
    pub fn not_equal(self, label: &str, value: &str) -> (r: Result<Selector, Error>)
        ensures
            r is Ok <==> label@.len() > 0,
            r matches Ok(s) ==> {
                &&& s.metric == self.metric
                &&& s.range == self.range
                &&& s.matchers@.len() == self.matchers@.len() + 1
                &&& s.matchers@.drop_last() == self.matchers@
                &&& s.matchers@.last().label@ == label@
                &&& s.matchers@.last().op == MatchOp::NotEqual
                &&& s.matchers@.last().value@ == value@
                &&& self.wf() ==> s.wf()
            },
            r is Err ==> r matches Err(Error::InvalidMatcher),
    {
        self.matcher(MatchOp::NotEqual, label, value)
    }

    /// Appends a regex matcher: `label=~"value"`.
    pub fn regex_match(self, label: &str, value: &str) -> (r: Result<Selector, Error>)
        ensures
            r is Ok <==> label@.len() > 0,
            r matches Ok(s) ==> {
                &&& s.metric == self.metric
                &&& s.range == self.range
                &&& s.matchers@.len() == self.matchers@.len() + 1
                &&& s.matchers@.drop_last() == self.matchers@
                &&& s.matchers@.last().label@ == label@
                &&& s.matchers@.last().op == MatchOp::RegexMatch
                &&& s.matchers@.last().value@ == value@
                &&& self.wf() ==> s.wf()
            },
            r is Err ==> r matches Err(Error::InvalidMatcher),
    {
        self.matcher(MatchOp::RegexMatch, label, value)
    }

    /// Appends a negated regex matcher: `label!~"value"`.
    pub fn regex_not_match(self, label: &str, value: &str) -> (r: Result<Selector, Error>)
        ensures
            r is Ok <==> label@.len() > 0,
            r matches Ok(s) ==> {
                &&& s.metric == self.metric
                &&& s.range == self.range
                &&& s.matchers@.len() == self.matchers@.len() + 1
                &&& s.matchers@.drop_last() == self.matchers@
                &&& s.matchers@.last().label@ == label@
                &&& s.matchers@.last().op == MatchOp::RegexNotMatch
                &&& s.matchers@.last().value@ == value@
                &&& self.wf() ==> s.wf()
            },
            r is Err ==> r matches Err(Error::InvalidMatcher),
    {
        self.matcher(MatchOp::RegexNotMatch, label, value)
    }

    /// Sets the time range. Fails with `InvalidDuration` exactly when the
    /// text does not follow the duration grammar; the accepted text is kept
    /// verbatim.
    pub fn range(self, duration: &str) -> (r: Result<Selector, Error>)
        ensures
            r is Ok <==> is_valid_duration(duration@),
            r matches Ok(s) ==> {
                &&& s.metric == self.metric
                &&& s.matchers == self.matchers
                &&& s.range matches Some(d) && d@ == duration@
                &&& self.wf() ==> s.wf()
            },
            r is Err ==> r matches Err(Error::InvalidDuration),
    {
        match Duration::parse(duration) {
            Ok(d) => {
                let mut s = self;
                s.range = Some(d);
                Ok(s)
            },
            Err(e) => Err(e),
        }
    }

    /// Serializes the metric name and matcher block.
    fn append_base(&self, out: &mut String)
        ensures
            final(out)@ == old(out)@ + self.instant_text(),
    {
        match &self.metric {
            Some(name) => out.append(name.as_str()),
            None => (),
        }
        let n: usize = self.matchers.len();
        if n > 0 {
            let ghost parts = self.matchers@.map_values(|m: Matcher| m.text());
            push_char(out, '{');
            let ghost mid = out@;
            let mut i: usize = 0;
            while i < n
                invariant
                    n == self.matchers@.len(),
                    parts == self.matchers@.map_values(|m: Matcher| m.text()),
                    parts.len() == n,
                    0 < n,
                    i <= n,
                    out@ == mid + joined(parts.subrange(0, i as int), seq![',']),
                decreases n - i,
            {
                if i > 0 {
                    push_char(out, ',');
                }
                let m = &self.matchers[i];
                m.append_text(out);
                proof {
                    let prefix = parts.subrange(0, i + 1);
                    assert(prefix.drop_last() =~= parts.subrange(0, i as int));
                    assert(prefix.last() == parts[i as int]);
                    assert(parts[i as int] == self.matchers@[i as int].text());
                    assert(out@ =~= mid + joined(prefix, seq![',']));
                }
                i = i + 1;
            }
            push_char(out, '}');
            proof {
                assert(parts.subrange(0, n as int) =~= parts);
                assert(out@ =~= old(out)@ + self.instant_text());
            }
        } else {
            proof {
                assert(out@ =~= old(out)@ + self.instant_text());
            }
        }
    }

    /// Consumes the selector into an instant-vector expression:
    /// `<name>{<label><op><value>,...}` with the matchers in insertion
    /// order, the block omitted without matchers, and the name omitted when
    /// only matchers were set. Fails with `EmptySelector` exactly when
    /// neither a metric name nor a matcher is present.
    pub fn to_instant_vector(self) -> (r: Result<InstantVector, Error>)
        ensures
            r is Ok <==> !self.is_empty(),
            r matches Ok(v) ==> v@ == self.instant_text(),
            r is Err ==> r matches Err(Error::EmptySelector),
    {
        if self.metric.is_none() && self.matchers.len() == 0 {
            return Err(Error::EmptySelector);
        }
        let mut out = String::new();
        self.append_base(&mut out);
        Ok(InstantVector::from_text(out))
    }

    /// Consumes the selector into a range-vector expression: the
    /// instant-vector form with `[<duration>]` appended verbatim after the
    /// matcher block. Fails with `EmptySelector` on an empty selector and
    /// with `InvalidDuration` when no range was set.
    pub fn to_range_vector(self) -> (r: Result<RangeVector, Error>)
        ensures
            r is Ok <==> (!self.is_empty() && self.range is Some),
            r matches Ok(v) ==> v@ == self.range_text(),
            self.is_empty() ==> r matches Err(Error::EmptySelector),
            !self.is_empty() && self.range is None ==> r matches Err(Error::InvalidDuration),
    {
        if self.metric.is_none() && self.matchers.len() == 0 {
            return Err(Error::EmptySelector);
        }
        match &self.range {
            Some(d) => {
                let mut out = String::new();
                self.append_base(&mut out);
                push_char(&mut out, '[');
                out.append(d.text.as_str());
                push_char(&mut out, ']');
                proof {
                    assert(out@ =~= self.range_text());
                }
                Ok(RangeVector::from_text(out))
            },
            None => Err(Error::InvalidDuration),
        }
    }
}

/// The instant-vector text of a selector is the metric name alone when no
/// matchers were added, and otherwise the name followed by the matchers'
/// texts in insertion order, joined by commas inside `{` and `}`.
pub proof fn lemma_instant_text_shape(s: Selector)
    ensures
        s.matchers@.len() == 0 ==> s.instant_text() == s.metric_text(),
        s.matchers@.len() > 0 ==> s.instant_text() == s.metric_text() + seq!['{'] + joined(
            s.matchers@.map_values(|m: Matcher| m.text()),
            seq![','],
        ) + seq!['}'],
{
    if s.matchers@.len() == 0 {
        assert(s.metric_text() + s.block_text() =~= s.metric_text());
    }
}

/// The range-vector text of a selector with a range is its instant-vector
/// text with the duration appended verbatim between `[` and `]` after the
/// matcher block.
pub proof fn lemma_range_text_appends_duration(s: Selector)
    ensures
        s.range matches Some(d) ==> s.range_text() == s.instant_text() + seq!['['] + d@
            + seq![']'],
{
}

} // verus!
