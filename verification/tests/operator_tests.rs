use promql_builder::error::Error;
use promql_builder::num::Decimal;
use promql_builder::operators::scalar_scalar;
use promql_builder::operators::scalar_vector;
use promql_builder::operators::vector_scalar;
use promql_builder::operators::vector_vector;
use promql_builder::operators::BinaryOperator;
use promql_builder::operators::Grouping;
use promql_builder::operators::MatchKind;
use promql_builder::operators::VectorMatching;
use promql_builder::selector::Selector;
use promql_builder::vector::InstantVector;
use promql_builder::vector::Scalar;
use promql_builder::vector::StringLiteral;

fn metric(name: &str) -> InstantVector {
    Selector::new()
        .metric(name)
        .unwrap()
        .to_instant_vector()
        .unwrap()
}

fn scalar(text: &str) -> Scalar {
    Scalar::from_decimal(&Decimal::parse(text).unwrap())
}

#[test]
fn vector_vector_arithmetic() {
    let v = vector_vector(BinaryOperator::Plus, false, None, metric("a"), metric("b")).unwrap();
    assert_eq!(v.serialize(), "a + b");
    let v = vector_vector(BinaryOperator::Power, false, None, metric("a"), metric("b")).unwrap();
    assert_eq!(v.serialize(), "a ^ b");
}

#[test]
fn vector_vector_set_operators() {
    let v = vector_vector(
        BinaryOperator::Intersect,
        false,
        None,
        metric("a"),
        metric("b"),
    )
    .unwrap();
    assert_eq!(v.serialize(), "a and b");
    let v = vector_vector(BinaryOperator::Union, false, None, metric("a"), metric("b")).unwrap();
    assert_eq!(v.serialize(), "a or b");
    let v = vector_vector(
        BinaryOperator::Complement,
        false,
        None,
        metric("a"),
        metric("b"),
    )
    .unwrap();
    assert_eq!(v.serialize(), "a unless b");
}

#[test]
fn comparison_with_bool_modifier() {
    let v = vector_vector(BinaryOperator::Equal, true, None, metric("a"), metric("b")).unwrap();
    assert_eq!(v.serialize(), "a == bool b");
}

#[test]
fn bool_modifier_requires_comparison() {
    let r = vector_vector(BinaryOperator::Plus, true, None, metric("a"), metric("b"));
    assert!(matches!(r, Err(Error::InvalidFunctionArgument(_))));
    let r = vector_scalar(BinaryOperator::Divide, true, metric("a"), scalar("2"));
    assert!(matches!(r, Err(Error::InvalidFunctionArgument(_))));
}

#[test]
fn matching_modifier_token_order() {
    let matching = VectorMatching {
        kind: MatchKind::On,
        labels: vec![String::from("instance"), String::from("job")],
        grouping: Grouping::NoGrouping,
    };
    let v = vector_vector(
        BinaryOperator::Times,
        false,
        Some(matching),
        metric("a"),
        metric("b"),
    )
    .unwrap();
    assert_eq!(v.serialize(), "a * on(instance, job) b");
}

#[test]
fn ignoring_with_group_left() {
    let matching = VectorMatching {
        kind: MatchKind::Ignoring,
        labels: vec![String::from("mode")],
        grouping: Grouping::GroupLeft(None),
    };
    let v = vector_vector(
        BinaryOperator::Divide,
        false,
        Some(matching),
        metric("a"),
        metric("b"),
    )
    .unwrap();
    assert_eq!(v.serialize(), "a / ignoring(mode) group_left b");
}

#[test]
fn group_right_with_included_labels() {
    let matching = VectorMatching {
        kind: MatchKind::On,
        labels: vec![String::from("instance")],
        grouping: Grouping::GroupRight(Some(vec![String::from("extra")])),
    };
    let v = vector_vector(
        BinaryOperator::Minus,
        false,
        Some(matching),
        metric("a"),
        metric("b"),
    )
    .unwrap();
    assert_eq!(v.serialize(), "a - on(instance) group_right(extra) b");
}

#[test]
fn comparison_with_bool_and_matching() {
    let matching = VectorMatching {
        kind: MatchKind::On,
        labels: vec![String::from("job")],
        grouping: Grouping::NoGrouping,
    };
    let v = vector_vector(
        BinaryOperator::GreaterThan,
        true,
        Some(matching),
        metric("a"),
        metric("b"),
    )
    .unwrap();
    assert_eq!(v.serialize(), "a > bool on(job) b");
}

#[test]
fn empty_on_label_list_rejected() {
    let matching = VectorMatching {
        kind: MatchKind::On,
        labels: Vec::new(),
        grouping: Grouping::NoGrouping,
    };
    let r = vector_vector(
        BinaryOperator::Plus,
        false,
        Some(matching),
        metric("a"),
        metric("b"),
    );
    assert!(matches!(r, Err(Error::InvalidFunctionArgument(_))));
}

#[test]
fn empty_grouping_label_list_rejected() {
    let matching = VectorMatching {
        kind: MatchKind::On,
        labels: vec![String::from("job")],
        grouping: Grouping::GroupLeft(Some(Vec::new())),
    };
    let r = vector_vector(
        BinaryOperator::Plus,
        false,
        Some(matching),
        metric("a"),
        metric("b"),
    );
    assert!(matches!(r, Err(Error::InvalidFunctionArgument(_))));
}

#[test]
fn vector_scalar_combinations() {
    let v = vector_scalar(
        BinaryOperator::GreaterThan,
        false,
        metric("a"),
        scalar("0.5"),
    )
    .unwrap();
    assert_eq!(v.serialize(), "a > 0.5");
    let v = scalar_vector(BinaryOperator::Times, false, scalar("2"), metric("b")).unwrap();
    assert_eq!(v.serialize(), "2 * b");
}

#[test]
fn set_operator_needs_two_vectors() {
    let r = vector_scalar(BinaryOperator::Intersect, false, metric("a"), scalar("1"));
    assert!(matches!(r, Err(Error::InvalidFunctionArgument(_))));
    let r = scalar_vector(BinaryOperator::Union, false, scalar("1"), metric("b"));
    assert!(matches!(r, Err(Error::InvalidFunctionArgument(_))));
    let r = scalar_scalar(BinaryOperator::Complement, false, scalar("1"), scalar("2"));
    assert!(matches!(r, Err(Error::InvalidFunctionArgument(_))));
}

#[test]
fn scalar_scalar_stays_scalar() {
    let v = scalar_scalar(BinaryOperator::Plus, false, scalar("1"), scalar("2")).unwrap();
    assert_eq!(v.serialize(), "1 + 2");
}

#[test]
fn string_literal_is_quoted_and_escaped() {
    let s = StringLiteral::new("abc");
    assert_eq!(s.serialize(), "\"abc\"");
    let s = StringLiteral::new("a\"b\\c");
    assert_eq!(s.serialize(), "\"a\\\"b\\\\c\"");
}

#[test]
fn operators_compose_with_functions() {
    let sum = vector_vector(BinaryOperator::Plus, false, None, metric("a"), metric("b")).unwrap();
    let v = vector_scalar(BinaryOperator::LessOrEqual, true, sum, scalar("100")).unwrap();
    assert_eq!(v.serialize(), "a + b <= bool 100");
}
