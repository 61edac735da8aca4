use promql_builder::error::Error;
use promql_builder::functions::apply_instant;
use promql_builder::functions::apply_range;
use promql_builder::functions::clamp;
use promql_builder::functions::clamp_max;
use promql_builder::functions::clamp_min;
use promql_builder::functions::histogram_quantile;
use promql_builder::functions::holt_winters;
use promql_builder::functions::label_join;
use promql_builder::functions::label_replace;
use promql_builder::functions::predict_linear;
use promql_builder::functions::quantile_over_time;
use promql_builder::functions::round;
use promql_builder::functions::InstantFunction;
use promql_builder::functions::RangeFunction;
use promql_builder::num::Decimal;
use promql_builder::selector::Selector;
use promql_builder::vector::InstantVector;
use promql_builder::vector::RangeVector;

fn some_instant() -> InstantVector {
    Selector::new()
        .metric("some_metric")
        .unwrap()
        .with("some_label", "some_value")
        .unwrap()
        .to_instant_vector()
        .unwrap()
}

fn some_range() -> RangeVector {
    Selector::new()
        .metric("some_metric")
        .unwrap()
        .with("some_label", "some_value")
        .unwrap()
        .range("5m")
        .unwrap()
        .to_range_vector()
        .unwrap()
}

fn dec(text: &str) -> Decimal {
    Decimal::parse(text).unwrap()
}

#[test]
fn clamp_serializes_exactly() {
    let v = clamp(some_instant(), &dec("0.5"), &dec("0.75"));
    assert_eq!(
        v.serialize(),
        "clamp(some_metric{some_label=\"some_value\"}, 0.5, 0.75)"
    );
}

#[test]
fn clamp_max_serializes_exactly() {
    let v = clamp_max(some_instant(), &dec("0.75"));
    assert_eq!(
        v.serialize(),
        "clamp_max(some_metric{some_label=\"some_value\"}, 0.75)"
    );
}

#[test]
fn clamp_min_serializes_exactly() {
    let v = clamp_min(some_instant(), &dec("0.5"));
    assert_eq!(
        v.serialize(),
        "clamp_min(some_metric{some_label=\"some_value\"}, 0.5)"
    );
}

#[test]
fn histogram_quantile_serializes_exactly() {
    let v = histogram_quantile(&dec("0.95"), some_instant());
    assert_eq!(
        v.serialize(),
        "histogram_quantile(0.95, some_metric{some_label=\"some_value\"})"
    );
}

#[test]
fn quantile_over_time_serializes_exactly() {
    let v = quantile_over_time(&dec("0.95"), some_range());
    assert_eq!(
        v.serialize(),
        "quantile_over_time(0.95, some_metric{some_label=\"some_value\"}[5m])"
    );
}

#[test]
fn predict_linear_serializes_exactly() {
    let v = predict_linear(some_range(), &dec("300"));
    assert_eq!(
        v.serialize(),
        "predict_linear(some_metric{some_label=\"some_value\"}[5m], 300)"
    );
}

#[test]
fn predict_linear_drops_zero_fraction() {
    let v = predict_linear(some_range(), &dec("300.0"));
    assert_eq!(
        v.serialize(),
        "predict_linear(some_metric{some_label=\"some_value\"}[5m], 300)"
    );
}

#[test]
fn holt_winters_rejects_out_of_range_factors() {
    for bad in ["0.0", "1.0", "-0.1", "1.1"] {
        let r = holt_winters(some_range(), &dec(bad), &dec("0.5"));
        assert!(
            matches!(r, Err(Error::InvalidFunctionArgument(_))),
            "accepted sf {:?}",
            bad
        );
        let r = holt_winters(some_range(), &dec("0.5"), &dec(bad));
        assert!(
            matches!(r, Err(Error::InvalidFunctionArgument(_))),
            "accepted tf {:?}",
            bad
        );
    }
}

#[test]
fn holt_winters_accepts_open_interval() {
    let v = holt_winters(some_range(), &dec("0.5"), &dec("0.9")).unwrap();
    assert_eq!(
        v.serialize(),
        "holt_winters(some_metric{some_label=\"some_value\"}[5m], 0.5, 0.9)"
    );
}

#[test]
fn holt_winters_error_message_names_the_constraint() {
    let r = holt_winters(some_range(), &dec("1.0"), &dec("0.5"));
    match r {
        Err(e) => assert_eq!(
            e.message(),
            "smoothing factors in holt_winters() must be between 0.0 (excl.) and 1.0 (excl.)"
        ),
        Ok(_) => panic!("holt_winters accepted a factor of 1.0"),
    }
}

#[test]
fn label_join_rejects_empty_destination() {
    let labels = vec![String::from("a")];
    let r = label_join(some_instant(), "", ":", &labels);
    assert!(matches!(r, Err(Error::InvalidFunctionArgument(_))));
}

#[test]
fn label_join_rejects_empty_source_list() {
    let labels: Vec<String> = Vec::new();
    let r = label_join(some_instant(), "d", ":", &labels);
    assert!(matches!(r, Err(Error::InvalidFunctionArgument(_))));
}

#[test]
fn label_join_serializes_exactly() {
    let v = Selector::new()
        .metric("some_metric")
        .unwrap()
        .with("label1", "value1")
        .unwrap()
        .with("label2", "value2")
        .unwrap()
        .to_instant_vector()
        .unwrap();
    let labels = vec![String::from("label1"), String::from("label2")];
    let joined = label_join(v, "new_label", ":", &labels).unwrap();
    assert_eq!(
        joined.serialize(),
        "label_join(some_metric{label1=\"value1\",label2=\"value2\"}, \"new_label\", \":\", \"label1\", \"label2\")"
    );
}

#[test]
fn label_replace_serializes_exactly() {
    let v = label_replace(some_instant(), "new_label", "$1", "some_label", "(.*):.*").unwrap();
    assert_eq!(
        v.serialize(),
        "label_replace(some_metric{some_label=\"some_value\"}, \"new_label\", \"$1\", \"some_label\", \"(.*):.*\")"
    );
}

#[test]
fn label_replace_rejects_empty_destination() {
    let r = label_replace(some_instant(), "", "$1", "some_label", "(.*)");
    assert!(matches!(r, Err(Error::InvalidFunctionArgument(_))));
}

#[test]
fn round_without_nearest_omits_the_argument() {
    let v = round(some_instant(), None);
    assert_eq!(v.serialize(), "round(some_metric{some_label=\"some_value\"})");
}

#[test]
fn round_with_nearest_appends_it() {
    let v = round(some_instant(), Some(dec("0.5")));
    assert_eq!(
        v.serialize(),
        "round(some_metric{some_label=\"some_value\"}, 0.5)"
    );
}

#[test]
fn reserialization_is_a_no_op() {
    let v = round(some_instant(), Some(dec("0.5")));
    let once = v.serialize();
    let again = v.serialize();
    assert_eq!(once, again);
}

#[test]
fn unary_instant_functions_wrap_the_operand() {
    let cases = [
        (InstantFunction::Abs, "abs"),
        (InstantFunction::Absent, "absent"),
        (InstantFunction::Ceil, "ceil"),
        (InstantFunction::DayOfMonth, "day_of_month"),
        (InstantFunction::DayOfWeek, "day_of_week"),
        (InstantFunction::DaysInMonth, "days_in_month"),
        (InstantFunction::Exp, "exp"),
        (InstantFunction::Floor, "floor"),
        (InstantFunction::Hour, "hour"),
        (InstantFunction::Ln, "ln"),
        (InstantFunction::Log2, "log2"),
        (InstantFunction::Log10, "log10"),
        (InstantFunction::Minute, "minute"),
        (InstantFunction::Month, "month"),
        (InstantFunction::Scalar, "scalar"),
        (InstantFunction::Sgn, "sgn"),
        (InstantFunction::Sort, "sort"),
        (InstantFunction::SortDesc, "sort_desc"),
        (InstantFunction::Timestamp, "timestamp"),
        (InstantFunction::Year, "year"),
    ];
    for (function, name) in cases {
        let v = apply_instant(function, some_instant());
        assert_eq!(
            v.serialize(),
            format!("{}(some_metric{{some_label=\"some_value\"}})", name)
        );
    }
}

#[test]
fn unary_range_functions_wrap_the_operand() {
    let cases = [
        (RangeFunction::AbsentOverTime, "absent_over_time"),
        (RangeFunction::AvgOverTime, "avg_over_time"),
        (RangeFunction::Changes, "changes"),
        (RangeFunction::CountOverTime, "count_over_time"),
        (RangeFunction::Delta, "delta"),
        (RangeFunction::Deriv, "deriv"),
        (RangeFunction::Idelta, "idelta"),
        (RangeFunction::Increase, "increase"),
        (RangeFunction::Irate, "irate"),
        (RangeFunction::LastOverTime, "last_over_time"),
        (RangeFunction::MaxOverTime, "max_over_time"),
        (RangeFunction::MinOverTime, "min_over_time"),
        (RangeFunction::PresentOverTime, "present_over_time"),
        (RangeFunction::Rate, "rate"),
        (RangeFunction::Resets, "resets"),
        (RangeFunction::StddevOverTime, "stddev_over_time"),
        (RangeFunction::StdvarOverTime, "stdvar_over_time"),
        (RangeFunction::SumOverTime, "sum_over_time"),
    ];
    for (function, name) in cases {
        let v = apply_range(function, some_range());
        assert_eq!(
            v.serialize(),
            format!("{}(some_metric{{some_label=\"some_value\"}}[5m])", name)
        );
    }
}

#[test]
fn functions_compose() {
    let v = apply_instant(
        InstantFunction::Ceil,
        apply_range(RangeFunction::Rate, some_range()),
    );
    assert_eq!(
        v.serialize(),
        "ceil(rate(some_metric{some_label=\"some_value\"}[5m]))"
    );
}
