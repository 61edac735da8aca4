//! Decimal number arguments of the query language.
//!
//! Numeric function parameters are carried as exact decimal literals, parsed
//! from text and stored in canonical form: no superfluous leading zeros in
//! the integer part, no trailing zeros in the fractional part, no fraction
//! dot without fractional digits, and no negative zero. Rendering such a
//! value never changes the number it denotes.

use vstd::prelude::*;

verus! {

use crate::text::append_chars;
use crate::text::push_char;

/// True for the characters `0` through `9`.
pub open spec fn is_digit(c: char) -> bool {
    ('0' as u32) <= (c as u32) && (c as u32) <= ('9' as u32)
}

/// Every character of `s` is a decimal digit.
pub open spec fn all_digits(s: Seq<char>) -> bool {
    forall|i: int| 0 <= i < s.len() ==> #[trigger] is_digit(s[i])
}

/// The length of the longest prefix of `s` that consists of digits.
pub open spec fn digit_prefix_len(s: Seq<char>) -> int
    decreases s.len(),
{
    if s.len() == 0 || !is_digit(s[0]) {
        0
    } else {
        1 + digit_prefix_len(s.drop_first())
    }
}

/// `s` with leading zeros removed from the front, keeping at least one digit.
pub open spec fn strip_leading_zeros(s: Seq<char>) -> Seq<char>
    decreases s.len(),
{
    if s.len() > 1 && s[0] == '0' {
        strip_leading_zeros(s.drop_first())
    } else {
        s
    }
}

/// `s` with trailing zeros removed from the back.
pub open spec fn strip_trailing_zeros(s: Seq<char>) -> Seq<char>
    decreases s.len(),
{
    if s.len() > 0 && s.last() == '0' {
        strip_trailing_zeros(s.drop_last())
    } else {
        s
    }
}

/// An unsigned decimal literal: one or more digits, optionally followed by a
/// dot and one or more digits.
pub open spec fn is_unsigned_decimal_text(s: Seq<char>) -> bool {
    let k = digit_prefix_len(s);
    &&& k >= 1
    &&& (k == s.len() || (s[k] == '.' && s.len() >= k + 2 && all_digits(
        s.subrange(k + 1, s.len() as int),
    )))
}

/// A decimal literal: an unsigned one, possibly preceded by a minus sign.
pub open spec fn is_decimal_text(s: Seq<char>) -> bool {
    if s.len() >= 1 && s[0] == '-' {
        is_unsigned_decimal_text(s.drop_first())
    } else {
        is_unsigned_decimal_text(s)
    }
}

/// The unsigned part of a decimal literal: `s` without its minus sign.
pub open spec fn unsigned_text(s: Seq<char>) -> Seq<char> {
    if s.len() >= 1 && s[0] == '-' {
        s.drop_first()
    } else {
        s
    }
}

/// The digits before the dot of an unsigned decimal literal.
pub open spec fn int_text(u: Seq<char>) -> Seq<char> {
    u.subrange(0, digit_prefix_len(u))
}

/// The digits after the dot of an unsigned decimal literal, empty when the
/// literal has no dot.
pub open spec fn frac_text(u: Seq<char>) -> Seq<char> {
    if digit_prefix_len(u) == u.len() {
        Seq::empty()
    } else {
        u.subrange(digit_prefix_len(u) + 1, u.len() as int)
    }
}

/// A decimal number in canonical form: a sign, the digits of the integer
/// part and the digits of the fractional part.
#[derive(Debug)]
pub struct Decimal {
    /// Whether the number is negative; never set for zero.
    pub negative: bool,
    /// The digits before the dot, without leading zeros (except a lone `0`).
    pub int_digits: Vec<char>,
    /// The digits after the dot, without trailing zeros; empty when the
    /// number is an integer.
    pub frac_digits: Vec<char>,
}

impl Decimal {
    /// The canonical-form invariant that `parse` establishes.
    pub open spec fn wf(self) -> bool {
        &&& self.int_digits@.len() >= 1
        &&& all_digits(self.int_digits@)
        &&& (self.int_digits@.len() > 1 ==> self.int_digits@[0] != '0')
        &&& all_digits(self.frac_digits@)
        &&& (self.frac_digits@.len() > 0 ==> self.frac_digits@.last() != '0')
        &&& (self.negative ==> !self.is_zero())
    }

    /// The number denoted is zero.
    pub open spec fn is_zero(self) -> bool {
        self.int_digits@ =~= seq!['0'] && self.frac_digits@.len() == 0
    }

    /// The rendered text: sign, integer digits, and a dot with the
    /// fractional digits when there are any.
    pub open spec fn text(self) -> Seq<char> {
        let unsigned = if self.frac_digits@.len() > 0 {
            self.int_digits@ + seq!['.'] + self.frac_digits@
        } else {
            self.int_digits@
        };
        if self.negative {
            seq!['-'] + unsigned
        } else {
            unsigned
        }
    }

    /// The number lies strictly between zero and one.
    pub open spec fn in_open_unit_interval(self) -> bool {
        &&& !self.negative
        &&& self.int_digits@ =~= seq!['0']
        &&& self.frac_digits@.len() > 0
    }

    /// Parses a decimal literal. Returns the canonical value exactly when
    /// the text matches the grammar `-? digits (. digits)?`; superfluous
    /// zeros are stripped, so the denoted number is kept unchanged.
    pub fn parse(s: &str) -> (r: Option<Decimal>)
        ensures
            r is Some <==> is_decimal_text(s@),
            r matches Some(d) ==> ({
                let u = unsigned_text(s@);
                &&& d.wf()
                &&& d.int_digits@ == strip_leading_zeros(int_text(u))
                &&& d.frac_digits@ == strip_trailing_zeros(frac_text(u))
                &&& d.negative == (s@.len() >= 1 && s@[0] == '-' && !d.is_zero())
            }),
    {
        let n: usize = s.unicode_len();
        let neg_sign: bool = n > 0 && s.get_char(0) == '-';
        let start: usize = if neg_sign {
            1
        } else {
            0
        };
        let ghost u = unsigned_text(s@);
        proof {
            assert(u =~= s@.subrange(start as int, n as int));
        }
        let mut i: usize = start;
        let mut int_digits: Vec<char> = Vec::new();
        loop
            invariant
                n == s@.len(),
                start <= i <= n,
                u =~= s@.subrange(start as int, n as int),
                int_digits@ =~= s@.subrange(start as int, i as int),
                all_digits(int_digits@),
            ensures
                start <= i <= n,
                int_digits@ =~= s@.subrange(start as int, i as int),
                all_digits(int_digits@),
                i == n || !is_digit(s@[i as int]),
            decreases n - i,
        {
            if i == n {
                break;
            }
            let c = s.get_char(i);
            if !is_digit_char(c) {
                break;
            }
            int_digits.push(c);
            proof {
                assert(int_digits@ =~= s@.subrange(start as int, i + 1));
            }
            i = i + 1;
        }
        proof {
            assert forall|q: int| 0 <= q < i - start implies is_digit(#[trigger] u[q]) by {
                assert(u[q] == int_digits@[q]);
            }
            lemma_digit_prefix_characterized(u, i - start);
        }
        if int_digits.len() == 0 {
            proof {
                assert(!is_unsigned_decimal_text(u));
            }
            return None;
        }
        let mut frac_digits: Vec<char> = Vec::new();
        if i < n {
            if s.get_char(i) != '.' {
                proof {
                    let k = digit_prefix_len(u);
                    assert(u[k] == s@[i as int]);
                    assert(!is_unsigned_decimal_text(u));
                }
                return None;
            }
            if i + 1 == n {
                proof {
                    let k = digit_prefix_len(u);
                    assert(u.len() == k + 1);
                    assert(!is_unsigned_decimal_text(u));
                }
                return None;
            }
            let mut j: usize = i + 1;
            loop
                invariant
                    n == s@.len(),
                    u == unsigned_text(s@),
                    u =~= s@.subrange(start as int, n as int),
                    digit_prefix_len(u) == i - start,
                    start <= i < n,
                    s@[i as int] == '.',
                    i + 1 < n,
                    i + 1 <= j <= n,
                    frac_digits@ =~= s@.subrange(i + 1, j as int),
                    all_digits(frac_digits@),
                ensures
                    j == n,
                    frac_digits@ =~= s@.subrange(i + 1, n as int),
                    all_digits(frac_digits@),
                decreases n - j,
            {
                if j == n {
                    break;
                }
                let c = s.get_char(j);
                if !is_digit_char(c) {
                    proof {
                        let k = digit_prefix_len(u);
                        assert(u[k] == '.');
                        assert(u.subrange(k + 1, u.len() as int)[j - i - 1] == s@[j as int]);
                        assert(!all_digits(u.subrange(k + 1, u.len() as int)));
                        assert(!is_unsigned_decimal_text(u));
                    }
                    return None;
                }
                frac_digits.push(c);
                proof {
                    assert(frac_digits@ =~= s@.subrange(i + 1, j + 1));
                }
                j = j + 1;
            }
            proof {
                assert(frac_digits@ =~= frac_text(u));
            }
        } else {
            proof {
                assert(frac_digits@ =~= frac_text(u));
            }
        }
        proof {
            assert(int_digits@ =~= int_text(u));
            assert(is_unsigned_decimal_text(u));
            assert(is_decimal_text(s@));
        }
        // Strip leading zeros from the integer part, keeping one digit.
        let mut first: usize = 0;
        while first < int_digits.len() - 1 && int_digits[first] == '0'
            invariant
                int_digits@.len() >= 1,
                first < int_digits@.len(),
                forall|q: int| 0 <= q < first ==> int_digits@[q] == '0',
            decreases int_digits@.len() - first,
        {
            first = first + 1;
        }
        let mut canon_int: Vec<char> = Vec::new();
        let mut p: usize = first;
        while p < int_digits.len()
            invariant
                first <= p <= int_digits@.len(),
                canon_int@ =~= int_digits@.subrange(first as int, p as int),
            decreases int_digits@.len() - p,
        {
            canon_int.push(int_digits[p]);
            proof {
                assert(canon_int@ =~= int_digits@.subrange(first as int, p + 1));
            }
            p = p + 1;
        }
        proof {
            lemma_strip_leading_characterized(int_digits@, first as int);
            assert(canon_int@ =~= int_digits@.subrange(first as int, int_digits@.len() as int));
        }
        // Strip trailing zeros from the fractional part.
        let ghost frac0 = frac_digits@;
        loop
            invariant
                all_digits(frac_digits@),
                strip_trailing_zeros(frac0) == strip_trailing_zeros(frac_digits@),
            ensures
                all_digits(frac_digits@),
                strip_trailing_zeros(frac0) == strip_trailing_zeros(frac_digits@),
                frac_digits@.len() == 0 || frac_digits@.last() != '0',
            decreases frac_digits@.len(),
        {
            let m: usize = frac_digits.len();
            if m == 0 {
                break;
            }
            if frac_digits[m - 1] != '0' {
                break;
            }
            frac_digits.pop();
        }
        proof {
            assert(strip_trailing_zeros(frac_digits@) == frac_digits@);
        }
        let is_zero: bool = canon_int.len() == 1 && canon_int[0] == '0' && frac_digits.len() == 0;
        let d = Decimal {
            negative: neg_sign && !is_zero,
            int_digits: canon_int,
            frac_digits,
        };
        proof {
            assert(d.is_zero() == is_zero);
        }
        Some(d)
    }

    /// Renders the canonical text of the number.
    pub fn render(&self) -> (r: String)
        ensures
            r@ == self.text(),
    {
        let mut out = String::new();
        if self.negative {
            push_char(&mut out, '-');
        }
        append_chars(&mut out, &self.int_digits);
        if self.frac_digits.len() > 0 {
            push_char(&mut out, '.');
            append_chars(&mut out, &self.frac_digits);
        }
        proof {
            assert(out@ =~= self.text());
        }
        out
    }

    /// True exactly when the number lies strictly between zero and one.
    pub fn is_in_open_unit_interval(&self) -> (r: bool)
        ensures
            r == self.in_open_unit_interval(),
    {
        let r = !self.negative && self.int_digits.len() == 1 && self.int_digits[0] == '0'
            && self.frac_digits.len() > 0;
        proof {
            if self.int_digits@.len() == 1 && self.int_digits@[0] == '0' {
                assert(self.int_digits@ =~= seq!['0']);
            }
        }
        r
    }
}

/// True exactly for the characters `0` through `9`.
fn is_digit_char(c: char) -> (r: bool)
    ensures
        r == is_digit(c),
{
    (c as u32) >= ('0' as u32) && (c as u32) <= ('9' as u32)
}

/// A scan that saw `j` digits and then the end or a non-digit has found the
/// longest digit prefix.
pub(crate) proof fn lemma_digit_prefix_characterized(u: Seq<char>, j: int)
    requires
        0 <= j <= u.len(),
        forall|q: int| 0 <= q < j ==> is_digit(#[trigger] u[q]),
        j == u.len() || !is_digit(u[j]),
    ensures
        digit_prefix_len(u) == j,
    decreases u.len(),
{
    if j == 0 {
        assert(u.len() == 0 || !is_digit(u[0]));
    } else {
        assert(is_digit(u[0]));
        lemma_digit_prefix_characterized(u.drop_first(), j - 1);
    }
}

/// Stopping at the first index that is not a removable leading zero yields
/// exactly `strip_leading_zeros`.
proof fn lemma_strip_leading_characterized(s: Seq<char>, m: int)
    requires
        0 <= m < s.len(),
        forall|q: int| 0 <= q < m ==> s[q] == '0',
        m + 1 == s.len() || s[m] != '0',
    ensures
        strip_leading_zeros(s) == s.subrange(m, s.len() as int),
    decreases m,
{
    if m == 0 {
        assert(s.subrange(0, s.len() as int) =~= s);
    } else {
        lemma_strip_leading_characterized(s.drop_first(), m - 1);
        assert(s.len() > 1 && s[0] == '0');
        assert(s.drop_first().subrange(m - 1, s.drop_first().len() as int) =~= s.subrange(
            m,
            s.len() as int,
        ));
    }
}

} // verus!
