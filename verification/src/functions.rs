//! The function library: named transformations applied to vector
//! expressions.
//!
//! The repetitive unary functions are driven by two declarative tables,
//! [`InstantFunction`] and [`RangeFunction`], each pairing a function name
//! with the phase it accepts; one generic operation wraps the operand's
//! text in `name(...)`. The parameterized functions take additional number
//! or label arguments and validate them before any text is produced.

use vstd::prelude::*;

verus! {

use vstd::string::StringExecFns;
use crate::error::Error;
use crate::num::Decimal;
use crate::text::append_quoted;
use crate::text::append_quoted_join;
use crate::text::push_char;
use crate::text::quoted;
use crate::text::quoted_join;
use crate::vector::InstantVector;
use crate::vector::RangeVector;

/// The unary functions that accept an instant vector and produce an
/// instant vector.
#[derive(Clone, Copy, PartialEq, Eq, Structural, Debug)]
pub enum InstantFunction {
    /// The `abs` function.
    Abs,
    /// The `absent` function.
    Absent,
    /// The `ceil` function.
    Ceil,
    /// The `day_of_month` function.
    DayOfMonth,
    /// The `day_of_week` function.
    DayOfWeek,
    /// The `days_in_month` function.
    DaysInMonth,
    /// The `exp` function.
    Exp,
    /// The `floor` function.
    Floor,
    /// The `hour` function.
    Hour,
    /// The `ln` function.
    Ln,
    /// The `log2` function.
    Log2,
    /// The `log10` function.
    Log10,
    /// The `minute` function.
    Minute,
    /// The `month` function.
    Month,
    /// The `scalar` function.
    Scalar,
    /// The `sgn` function.
    Sgn,
    /// The `sort` function.
    Sort,
    /// The `sort_desc` function.
    SortDesc,
    /// The `timestamp` function.
    Timestamp,
    /// The `year` function.
    Year,
}

impl InstantFunction {
    /// The function's lowercase identifier in the query grammar.
    pub open spec fn name(self) -> Seq<char> {
        match self {
            InstantFunction::Abs => "abs"@,
            InstantFunction::Absent => "absent"@,
            InstantFunction::Ceil => "ceil"@,
            InstantFunction::DayOfMonth => "day_of_month"@,
            InstantFunction::DayOfWeek => "day_of_week"@,
            InstantFunction::DaysInMonth => "days_in_month"@,
            InstantFunction::Exp => "exp"@,
            InstantFunction::Floor => "floor"@,
            InstantFunction::Hour => "hour"@,
            InstantFunction::Ln => "ln"@,
            InstantFunction::Log2 => "log2"@,
            InstantFunction::Log10 => "log10"@,
            InstantFunction::Minute => "minute"@,
            InstantFunction::Month => "month"@,
            InstantFunction::Scalar => "scalar"@,
            InstantFunction::Sgn => "sgn"@,
            InstantFunction::Sort => "sort"@,
            InstantFunction::SortDesc => "sort_desc"@,
            InstantFunction::Timestamp => "timestamp"@,
            InstantFunction::Year => "year"@,
        }
    }

    /// The function's identifier as text.
    pub fn token(self) -> (r: &'static str)
        ensures
            r@ == self.name(),
    {
        match self {
            InstantFunction::Abs => "abs",
            InstantFunction::Absent => "absent",
            InstantFunction::Ceil => "ceil",
            InstantFunction::DayOfMonth => "day_of_month",
            InstantFunction::DayOfWeek => "day_of_week",
            InstantFunction::DaysInMonth => "days_in_month",
            InstantFunction::Exp => "exp",
            InstantFunction::Floor => "floor",
            InstantFunction::Hour => "hour",
            InstantFunction::Ln => "ln",
            InstantFunction::Log2 => "log2",
            InstantFunction::Log10 => "log10",
            InstantFunction::Minute => "minute",
            InstantFunction::Month => "month",
            InstantFunction::Scalar => "scalar",
            InstantFunction::Sgn => "sgn",
            InstantFunction::Sort => "sort",
            InstantFunction::SortDesc => "sort_desc",
            InstantFunction::Timestamp => "timestamp",
            InstantFunction::Year => "year",
        }
    }
}

/// The unary functions that accept a range vector and produce an instant
/// vector.
#[derive(Clone, Copy, PartialEq, Eq, Structural, Debug)]
pub enum RangeFunction {
    /// The `absent_over_time` function.
    AbsentOverTime,
    /// The `avg_over_time` function.
    AvgOverTime,
    /// The `changes` function.
    Changes,
    /// The `count_over_time` function.
    CountOverTime,
    /// The `delta` function.
    Delta,
    /// The `deriv` function.
    Deriv,
    /// The `idelta` function.
    Idelta,
    /// The `increase` function.
    Increase,
    /// The `irate` function.
    Irate,
    /// The `last_over_time` function.
    LastOverTime,
    /// The `max_over_time` function.
    MaxOverTime,
    /// The `min_over_time` function.
    MinOverTime,
    /// The `present_over_time` function.
    PresentOverTime,
    /// The `rate` function.
    Rate,
    /// The `resets` function.
    Resets,
    /// The `stddev_over_time` function.
    StddevOverTime,
    /// The `stdvar_over_time` function.
    StdvarOverTime,
    /// The `sum_over_time` function.
    SumOverTime,
}

impl RangeFunction {
    /// The function's lowercase identifier in the query grammar.
    pub open spec fn name(self) -> Seq<char> {
        match self {
            RangeFunction::AbsentOverTime => "absent_over_time"@,
            RangeFunction::AvgOverTime => "avg_over_time"@,
            RangeFunction::Changes => "changes"@,
            RangeFunction::CountOverTime => "count_over_time"@,
            RangeFunction::Delta => "delta"@,
            RangeFunction::Deriv => "deriv"@,
            RangeFunction::Idelta => "idelta"@,
            RangeFunction::Increase => "increase"@,
            RangeFunction::Irate => "irate"@,
            RangeFunction::LastOverTime => "last_over_time"@,
            RangeFunction::MaxOverTime => "max_over_time"@,
            RangeFunction::MinOverTime => "min_over_time"@,
            RangeFunction::PresentOverTime => "present_over_time"@,
            RangeFunction::Rate => "rate"@,
            RangeFunction::Resets => "resets"@,
            RangeFunction::StddevOverTime => "stddev_over_time"@,
            RangeFunction::StdvarOverTime => "stdvar_over_time"@,
            RangeFunction::SumOverTime => "sum_over_time"@,
        }
    }

    /// The function's identifier as text.
    pub fn token(self) -> (r: &'static str)
        ensures
            r@ == self.name(),
    {
        match self {
            RangeFunction::AbsentOverTime => "absent_over_time",
            RangeFunction::AvgOverTime => "avg_over_time",
            RangeFunction::Changes => "changes",
            RangeFunction::CountOverTime => "count_over_time",
            RangeFunction::Delta => "delta",
            RangeFunction::Deriv => "deriv",
            RangeFunction::Idelta => "idelta",
            RangeFunction::Increase => "increase",
            RangeFunction::Irate => "irate",
            RangeFunction::LastOverTime => "last_over_time",
            RangeFunction::MaxOverTime => "max_over_time",
            RangeFunction::MinOverTime => "min_over_time",
            RangeFunction::PresentOverTime => "present_over_time",
            RangeFunction::Rate => "rate",
            RangeFunction::Resets => "resets",
            RangeFunction::StddevOverTime => "stddev_over_time",
            RangeFunction::StdvarOverTime => "stdvar_over_time",
            RangeFunction::SumOverTime => "sum_over_time",
        }
    }
}

/// `name(inner)`: the shared template of every unary function call.
fn call_text(name: &str, inner: &String) -> (r: String)
    ensures
        r@ == name@ + seq!['('] + inner@ + seq![')'],
{
    let mut out = name.to_owned();
    push_char(&mut out, '(');
    out.append(inner.as_str());
    push_char(&mut out, ')');
    proof {
        assert(out@ =~= name@ + seq!['('] + inner@ + seq![')']);
    }
    out
}

/// Applies a unary instant-vector function: wraps the operand's text in
/// `name(...)` and tags the result as an instant vector.
pub fn apply_instant(function: InstantFunction, vector: InstantVector) -> (r: InstantVector)
    ensures
        r@ == function.name() + seq!['('] + vector@ + seq![')'],
{
    let inner = vector.serialize();
    InstantVector::from_text(call_text(function.token(), &inner))
}

/// Applies a unary range-vector function: wraps the operand's text in
/// `name(...)`; the result is an instant vector.
pub fn apply_range(function: RangeFunction, vector: RangeVector) -> (r: InstantVector)
    ensures
        r@ == function.name() + seq!['('] + vector@ + seq![')'],
{
    let inner = vector.serialize();
    InstantVector::from_text(call_text(function.token(), &inner))
}

/// Applies `clamp`: `clamp(<inner>, <min>, <max>)`.
pub fn clamp(vector: InstantVector, min: &Decimal, max: &Decimal) -> (r: InstantVector)
    ensures
        r@ == "clamp"@ + seq!['('] + vector@ + ", "@ + min.text() + ", "@ + max.text()
            + seq![')'],
{
    let mut out = "clamp".to_owned();
    push_char(&mut out, '(');
    let inner = vector.serialize();
    out.append(inner.as_str());
    out.append(", ");
    let min_text = min.render();
    out.append(min_text.as_str());
    out.append(", ");
    let max_text = max.render();
    out.append(max_text.as_str());
    push_char(&mut out, ')');
    proof {
        assert(out@ =~= "clamp"@ + seq!['('] + vector@ + ", "@ + min.text() + ", "@ + max.text()
            + seq![')']);
    }
    InstantVector::from_text(out)
}

/// Applies `clamp_max`: `clamp_max(<inner>, <max>)`.
pub fn clamp_max(vector: InstantVector, max: &Decimal) -> (r: InstantVector)
    ensures
        r@ == "clamp_max"@ + seq!['('] + vector@ + ", "@ + max.text() + seq![')'],
{
    let mut out = "clamp_max".to_owned();
    push_char(&mut out, '(');
    let inner = vector.serialize();
    out.append(inner.as_str());
    out.append(", ");
    let max_text = max.render();
    out.append(max_text.as_str());
    push_char(&mut out, ')');
    proof {
        assert(out@ =~= "clamp_max"@ + seq!['('] + vector@ + ", "@ + max.text() + seq![')']);
    }
    InstantVector::from_text(out)
}

/// Applies `clamp_min`: `clamp_min(<inner>, <min>)`.
pub fn clamp_min(vector: InstantVector, min: &Decimal) -> (r: InstantVector)
    ensures
        r@ == "clamp_min"@ + seq!['('] + vector@ + ", "@ + min.text() + seq![')'],
{
    let mut out = "clamp_min".to_owned();
    push_char(&mut out, '(');
    let inner = vector.serialize();
    out.append(inner.as_str());
    out.append(", ");
    let min_text = min.render();
    out.append(min_text.as_str());
    push_char(&mut out, ')');
    proof {
        assert(out@ =~= "clamp_min"@ + seq!['('] + vector@ + ", "@ + min.text() + seq![')']);
    }
    InstantVector::from_text(out)
}

/// Applies `histogram_quantile`: `histogram_quantile(<quantile>, <inner>)`.
pub fn histogram_quantile(quantile: &Decimal, vector: InstantVector) -> (r: InstantVector)
    ensures
        r@ == "histogram_quantile"@ + seq!['('] + quantile.text() + ", "@ + vector@ + seq![')'],
{
    let mut out = "histogram_quantile".to_owned();
    push_char(&mut out, '(');
    let quantile_text = quantile.render();
    out.append(quantile_text.as_str());
    out.append(", ");
    let inner = vector.serialize();
    out.append(inner.as_str());
    push_char(&mut out, ')');
    proof {
        assert(out@ =~= "histogram_quantile"@ + seq!['('] + quantile.text() + ", "@ + vector@
            + seq![')']);
    }
    InstantVector::from_text(out)
}

/// Applies `quantile_over_time`:
/// `quantile_over_time(<quantile>, <inner>)`.
pub fn quantile_over_time(quantile: &Decimal, vector: RangeVector) -> (r: InstantVector)
    ensures
        r@ == "quantile_over_time"@ + seq!['('] + quantile.text() + ", "@ + vector@ + seq![')'],
{
    let mut out = "quantile_over_time".to_owned();
    push_char(&mut out, '(');
    let quantile_text = quantile.render();
    out.append(quantile_text.as_str());
    out.append(", ");
    let inner = vector.serialize();
    out.append(inner.as_str());
    push_char(&mut out, ')');
    proof {
        assert(out@ =~= "quantile_over_time"@ + seq!['('] + quantile.text() + ", "@ + vector@
            + seq![')']);
    }
    InstantVector::from_text(out)
}

/// Applies `predict_linear`: `predict_linear(<inner>, <seconds>)`.
pub fn predict_linear(vector: RangeVector, seconds: &Decimal) -> (r: InstantVector)
    ensures
        r@ == "predict_linear"@ + seq!['('] + vector@ + ", "@ + seconds.text() + seq![')'],
{
    let mut out = "predict_linear".to_owned();
    push_char(&mut out, '(');
    let inner = vector.serialize();
    out.append(inner.as_str());
    out.append(", ");
    let seconds_text = seconds.render();
    out.append(seconds_text.as_str());
    push_char(&mut out, ')');
    proof {
        assert(out@ =~= "predict_linear"@ + seq!['('] + vector@ + ", "@ + seconds.text()
            + seq![')']);
    }
    InstantVector::from_text(out)
}

/// Applies `round`: `round(<inner>)` when no nearest multiple is given,
/// `round(<inner>, <nearest>)` when one is — the trailing argument is
/// omitted entirely, not defaulted.
pub fn round(vector: InstantVector, to_nearest: Option<Decimal>) -> (r: InstantVector)
    ensures
        to_nearest matches Some(nearest) ==> r@ == "round"@ + seq!['('] + vector@ + ", "@
            + nearest.text() + seq![')'],
        to_nearest is None ==> r@ == "round"@ + seq!['('] + vector@ + seq![')'],
{
    let mut out = "round".to_owned();
    push_char(&mut out, '(');
    let inner = vector.serialize();
    out.append(inner.as_str());
    match &to_nearest {
        Some(nearest) => {
            out.append(", ");
            let nearest_text = nearest.render();
            out.append(nearest_text.as_str());
        },
        None => (),
    }
    push_char(&mut out, ')');
    proof {
        match to_nearest {
            Some(nearest) => {
                assert(out@ =~= "round"@ + seq!['('] + vector@ + ", "@ + nearest.text()
                    + seq![')']);
            },
            None => {
                assert(out@ =~= "round"@ + seq!['('] + vector@ + seq![')']);
            },
        }
    }
    InstantVector::from_text(out)
}

/// Applies `holt_winters`: `holt_winters(<inner>, <sf>, <tf>)`. Both
/// smoothing factors must lie strictly between zero and one; any other
/// value fails with `InvalidFunctionArgument` and produces no query text.
pub fn holt_winters(vector: RangeVector, sf: &Decimal, tf: &Decimal) -> (r: Result<
    InstantVector,
    Error,
>)
    ensures
        r is Ok <==> (sf.in_open_unit_interval() && tf.in_open_unit_interval()),
        r matches Ok(v) ==> v@ == "holt_winters"@ + seq!['('] + vector@ + ", "@ + sf.text()
            + ", "@ + tf.text() + seq![')'],
        r matches Err(e) ==> e matches Error::InvalidFunctionArgument(m) && m@
            == "smoothing factors in holt_winters() must be between 0.0 (excl.) and 1.0 (excl.)"@,
{
    if !sf.is_in_open_unit_interval() || !tf.is_in_open_unit_interval() {
        return Err(
            Error::InvalidFunctionArgument(
                "smoothing factors in holt_winters() must be between 0.0 (excl.) and 1.0 (excl.)".to_owned(),
            ),
        );
    }
    let mut out = "holt_winters".to_owned();
    push_char(&mut out, '(');
    let inner = vector.serialize();
    out.append(inner.as_str());
    out.append(", ");
    let sf_text = sf.render();
    out.append(sf_text.as_str());
    out.append(", ");
    let tf_text = tf.render();
    out.append(tf_text.as_str());
    push_char(&mut out, ')');
    proof {
        assert(out@ =~= "holt_winters"@ + seq!['('] + vector@ + ", "@ + sf.text() + ", "@
            + tf.text() + seq![')']);
    }
    Ok(InstantVector::from_text(out))
}

/// Applies `label_join`:
/// `label_join(<inner>, "<dst>", "<sep>", "<src>", ...)` with every label
/// argument quoted and the source labels in the order supplied. The
/// destination label and the source list must be nonempty; a violation
/// fails with `InvalidFunctionArgument` and produces no query text.
pub fn label_join(
    vector: InstantVector,
    dst_label: &str,
    separator: &str,
    src_labels: &Vec<String>,
) -> (r: Result<InstantVector, Error>)
    ensures
        r is Ok <==> (dst_label@.len() > 0 && src_labels@.len() > 0),
        r matches Ok(v) ==> v@ == "label_join"@ + seq!['('] + vector@ + ", "@ + quoted(dst_label@)
            + ", "@ + quoted(separator@) + ", "@ + quoted_join(src_labels.deep_view())
            + seq![')'],
        dst_label@.len() == 0 ==> (r matches Err(Error::InvalidFunctionArgument(m)) && m@
            == "destination label name in label_join() cannot be empty"@),
        dst_label@.len() > 0 && src_labels@.len() == 0 ==> (r matches Err(
            Error::InvalidFunctionArgument(m),
        ) && m@ == "list of source label names in label_join() cannot be empty"@),
{
    if dst_label.is_empty() {
        return Err(
            Error::InvalidFunctionArgument(
                "destination label name in label_join() cannot be empty".to_owned(),
            ),
        );
    }
    if src_labels.len() == 0 {
        return Err(
            Error::InvalidFunctionArgument(
                "list of source label names in label_join() cannot be empty".to_owned(),
            ),
        );
    }
    let mut out = "label_join".to_owned();
    push_char(&mut out, '(');
    let inner = vector.serialize();
    out.append(inner.as_str());
    out.append(", ");
    append_quoted(&mut out, dst_label);
    out.append(", ");
    append_quoted(&mut out, separator);
    out.append(", ");
    append_quoted_join(&mut out, src_labels);
    push_char(&mut out, ')');
    proof {
        assert(out@ =~= "label_join"@ + seq!['('] + vector@ + ", "@ + quoted(dst_label@) + ", "@
            + quoted(separator@) + ", "@ + quoted_join(src_labels.deep_view()) + seq![')']);
    }
    Ok(InstantVector::from_text(out))
}

/// Applies `label_replace`:
/// `label_replace(<inner>, "<dst>", "<replacement>", "<src>", "<regex>")`
/// with every argument quoted. The destination label must be nonempty; an
/// empty one fails with `InvalidFunctionArgument` and produces no query
/// text.
pub fn label_replace(
    vector: InstantVector,
    dst_label: &str,
    replacement: &str,
    src_label: &str,
    regex: &str,
) -> (r: Result<InstantVector, Error>)
    ensures
        r is Ok <==> dst_label@.len() > 0,
        r matches Ok(v) ==> v@ == "label_replace"@ + seq!['('] + vector@ + ", "@ + quoted(
            dst_label@,
        ) + ", "@ + quoted(replacement@) + ", "@ + quoted(src_label@) + ", "@ + quoted(regex@)
            + seq![')'],
        r matches Err(e) ==> e matches Error::InvalidFunctionArgument(m) && m@
            == "destination label name in label_replace() cannot be empty"@,
{
    if dst_label.is_empty() {
        return Err(
            Error::InvalidFunctionArgument(
                "destination label name in label_replace() cannot be empty".to_owned(),
            ),
        );
    }
    let mut out = "label_replace".to_owned();
    push_char(&mut out, '(');
    let inner = vector.serialize();
    out.append(inner.as_str());
    out.append(", ");
    append_quoted(&mut out, dst_label);
    out.append(", ");
    append_quoted(&mut out, replacement);
    out.append(", ");
    append_quoted(&mut out, src_label);
    out.append(", ");
    append_quoted(&mut out, regex);
    push_char(&mut out, ')');
    proof {
        assert(out@ =~= "label_replace"@ + seq!['('] + vector@ + ", "@ + quoted(dst_label@)
            + ", "@ + quoted(replacement@) + ", "@ + quoted(src_label@) + ", "@ + quoted(regex@)
            + seq![')']);
    }
    Ok(InstantVector::from_text(out))
}

} // verus!
