//! Text-level building blocks of the serializer: escaping, quoting and
//! separator-joined lists, each specified over sequences of characters.

use vstd::prelude::*;

verus! {

use vstd::string::StrSliceExecFns;
use vstd::string::StringExecFns;

/// One character of query text as it appears inside a double-quoted string:
/// a backslash is put before `"` and `\`, any other character stands alone.
pub open spec fn escape_char(c: char) -> Seq<char> {
    if c == '"' || c == '\\' {
        seq!['\\', c]
    } else {
        seq![c]
    }
}

/// A string's characters with `"` and `\` escaped.
pub open spec fn escaped(s: Seq<char>) -> Seq<char>
    decreases s.len(),
{
    if s.len() == 0 {
        Seq::empty()
    } else {
        escaped(s.drop_last()) + escape_char(s.last())
    }
}

/// A string wrapped in double quotes, its contents escaped.
pub open spec fn quoted(s: Seq<char>) -> Seq<char> {
    seq!['"'] + escaped(s) + seq!['"']
}

/// The parts joined by the separator: empty for no parts, otherwise the
/// parts in order with the separator between neighbours.
pub open spec fn joined(parts: Seq<Seq<char>>, sep: Seq<char>) -> Seq<char>
    decreases parts.len(),
{
    if parts.len() == 0 {
        Seq::empty()
    } else if parts.len() == 1 {
        parts[0]
    } else {
        joined(parts.drop_last(), sep) + sep + parts.last()
    }
}

/// Each part in double quotes with its contents escaped, joined by `", "`.
pub open spec fn quoted_join(parts: Seq<Seq<char>>) -> Seq<char> {
    joined(parts.map_values(|p: Seq<char>| quoted(p)), ", "@)
}

/// Relies on `String::push`: appends the one character to the end of the
/// string.
#[verifier::external_body]
pub(crate) fn push_char(out: &mut String, c: char)
    ensures
        final(out)@ == old(out)@ + seq![c],
{
    out.push(c);
}

/// Appends `s` to `out` with `"` and `\` escaped.
pub(crate) fn append_escaped(out: &mut String, s: &str)
    ensures
        final(out)@ == old(out)@ + escaped(s@),
{
    let n: usize = s.unicode_len();
    let mut i: usize = 0;
    while i < n
        invariant
            n == s@.len(),
            i <= n,
            out@ == old(out)@ + escaped(s@.subrange(0, i as int)),
        decreases n - i,
    {
        let c = s.get_char(i);
        if c == '"' || c == '\\' {
            push_char(out, '\\');
        }
        push_char(out, c);
        proof {
            let prefix = s@.subrange(0, i + 1);
            assert(prefix.drop_last() =~= s@.subrange(0, i as int));
            assert(prefix.last() == s@[i as int]);
            assert(out@ =~= old(out)@ + escaped(prefix));
        }
        i = i + 1;
    }
    proof {
        assert(s@.subrange(0, n as int) =~= s@);
    }
}

/// Appends `s` in double quotes with its contents escaped.
pub(crate) fn append_quoted(out: &mut String, s: &str)
    ensures
        final(out)@ == old(out)@ + quoted(s@),
{
    push_char(out, '"');
    append_escaped(out, s);
    push_char(out, '"');
    proof {
        assert(out@ =~= old(out)@ + quoted(s@));
    }
}

/// Appends every character of `cs` in order.
pub(crate) fn append_chars(out: &mut String, cs: &Vec<char>)
    ensures
        final(out)@ == old(out)@ + cs@,
{
    let n: usize = cs.len();
    let mut i: usize = 0;
    while i < n
        invariant
            n == cs@.len(),
            i <= n,
            out@ == old(out)@ + cs@.subrange(0, i as int),
        decreases n - i,
    {
        push_char(out, cs[i]);
        proof {
            assert(out@ =~= old(out)@ + cs@.subrange(0, i + 1));
        }
        i = i + 1;
    }
    proof {
        assert(cs@.subrange(0, n as int) =~= cs@);
    }
}

/// Appends the labels each in double quotes (escaped), joined by `", "`.
pub(crate) fn append_quoted_join(out: &mut String, labels: &Vec<String>)
    ensures
        final(out)@ == old(out)@ + quoted_join(labels.deep_view()),
{
    let ghost mapped = labels.deep_view().map_values(|p: Seq<char>| quoted(p));
    let n: usize = labels.len();
    let mut i: usize = 0;
    while i < n
        invariant
            n == labels@.len(),
            mapped == labels.deep_view().map_values(|p: Seq<char>| quoted(p)),
            mapped.len() == n,
            i <= n,
            out@ == old(out)@ + joined(mapped.subrange(0, i as int), ", "@),
        decreases n - i,
    {
        if i > 0 {
            out.append(", ");
        }
        append_quoted(out, labels[i].as_str());
        proof {
            let prefix = mapped.subrange(0, i + 1);
            assert(prefix.drop_last() =~= mapped.subrange(0, i as int));
            assert(prefix.last() == mapped[i as int]);
            assert(mapped[i as int] == quoted(labels.deep_view()[i as int]));
            assert(out@ =~= old(out)@ + joined(prefix, ", "@));
        }
        i = i + 1;
    }
    proof {
        assert(mapped.subrange(0, n as int) =~= mapped);
    }
}

/// Appends the labels verbatim, joined by `", "`.
pub(crate) fn append_join(out: &mut String, labels: &Vec<String>)
    ensures
        final(out)@ == old(out)@ + joined(labels.deep_view(), ", "@),
{
    let n: usize = labels.len();
    let mut i: usize = 0;
    while i < n
        invariant
            n == labels@.len(),
            labels.deep_view().len() == n,
            i <= n,
            out@ == old(out)@ + joined(labels.deep_view().subrange(0, i as int), ", "@),
        decreases n - i,
    {
        if i > 0 {
            out.append(", ");
        }
        out.append(labels[i].as_str());
        proof {
            let prefix = labels.deep_view().subrange(0, i + 1);
            assert(prefix.drop_last() =~= labels.deep_view().subrange(0, i as int));
            assert(prefix.last() == labels.deep_view()[i as int]);
            assert(out@ =~= old(out)@ + joined(prefix, ", "@));
        }
        i = i + 1;
    }
    proof {
        assert(labels.deep_view().subrange(0, n as int) =~= labels.deep_view());
    }
}

} // verus!
