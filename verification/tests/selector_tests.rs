use promql_builder::error::Error;
use promql_builder::selector::Duration;
use promql_builder::selector::Selector;

#[test]
fn instant_vector_with_matcher() {
    let v = Selector::new()
        .metric("some_metric")
        .unwrap()
        .with("some_label", "some_value")
        .unwrap()
        .to_instant_vector()
        .unwrap();
    assert_eq!(v.serialize(), "some_metric{some_label=\"some_value\"}");
}

#[test]
fn instant_vector_metric_only() {
    let v = Selector::new()
        .metric("up")
        .unwrap()
        .to_instant_vector()
        .unwrap();
    assert_eq!(v.serialize(), "up");
}

#[test]
fn instant_vector_matchers_only() {
    let v = Selector::new()
        .with("job", "node")
        .unwrap()
        .with("mode", "idle")
        .unwrap()
        .to_instant_vector()
        .unwrap();
    assert_eq!(v.serialize(), "{job=\"node\",mode=\"idle\"}");
}

#[test]
fn matchers_keep_insertion_order() {
    let v = Selector::new()
        .metric("some_metric")
        .unwrap()
        .with("label1", "value1")
        .unwrap()
        .with("label2", "value2")
        .unwrap()
        .to_instant_vector()
        .unwrap();
    assert_eq!(v.serialize(), "some_metric{label1=\"value1\",label2=\"value2\"}");
}

#[test]
fn all_matcher_operators() {
    let v = Selector::new()
        .metric("some_metric")
        .unwrap()
        .with("a", "1")
        .unwrap()
        .not_equal("b", "2")
        .unwrap()
        .regex_match("c", "x.*")
        .unwrap()
        .regex_not_match("d", "y.+")
        .unwrap()
        .to_instant_vector()
        .unwrap();
    assert_eq!(
        v.serialize(),
        "some_metric{a=\"1\",b!=\"2\",c=~\"x.*\",d!~\"y.+\"}"
    );
}

#[test]
fn matcher_value_is_escaped() {
    let v = Selector::new()
        .metric("some_metric")
        .unwrap()
        .with("some_label", "va\"l\\ue")
        .unwrap()
        .to_instant_vector()
        .unwrap();
    assert_eq!(v.serialize(), "some_metric{some_label=\"va\\\"l\\\\ue\"}");
}

#[test]
fn range_vector_appends_duration() {
    let v = Selector::new()
        .metric("some_metric")
        .unwrap()
        .with("some_label", "some_value")
        .unwrap()
        .range("5m")
        .unwrap()
        .to_range_vector()
        .unwrap();
    assert_eq!(v.serialize(), "some_metric{some_label=\"some_value\"}[5m]");
}

#[test]
fn range_vector_metric_only() {
    let v = Selector::new()
        .metric("up")
        .unwrap()
        .range("90m")
        .unwrap()
        .to_range_vector()
        .unwrap();
    assert_eq!(v.serialize(), "up[90m]");
}

#[test]
fn all_duration_units_accepted() {
    for unit in ["ms", "s", "m", "h", "d", "w", "y"] {
        let text = format!("15{}", unit);
        let v = Selector::new()
            .metric("up")
            .unwrap()
            .range(&text)
            .unwrap()
            .to_range_vector()
            .unwrap();
        assert_eq!(v.serialize(), format!("up[{}]", text));
    }
}

#[test]
fn empty_selector_rejected() {
    let r = Selector::new().to_instant_vector();
    assert!(matches!(r, Err(Error::EmptySelector)));
    let r = Selector::new().to_range_vector();
    assert!(matches!(r, Err(Error::EmptySelector)));
}

#[test]
fn missing_range_rejected() {
    let r = Selector::new().metric("up").unwrap().to_range_vector();
    assert!(matches!(r, Err(Error::InvalidDuration)));
}

#[test]
fn invalid_metric_names_rejected() {
    for name in ["", "1bad", "bad name", "bad-name", "métric"] {
        let r = Selector::new().metric(name);
        assert!(matches!(r, Err(Error::InvalidSelector)));
    }
}

#[test]
fn valid_metric_names_accepted() {
    for name in ["up", "_private", ":colon:rule", "http_requests_total", "a1"] {
        let v = Selector::new()
            .metric(name)
            .unwrap()
            .to_instant_vector()
            .unwrap();
        assert_eq!(v.serialize(), name);
    }
}

#[test]
fn empty_label_rejected() {
    let r = Selector::new().metric("up").unwrap().with("", "x");
    assert!(matches!(r, Err(Error::InvalidMatcher)));
    let r = Selector::new().metric("up").unwrap().regex_match("", "x");
    assert!(matches!(r, Err(Error::InvalidMatcher)));
}

#[test]
fn invalid_durations_rejected() {
    for text in ["", "m", "5", "5x", "0m", "000s", "-5m", "5m5", "1.5h", "5 m"] {
        let r = Selector::new().metric("up").unwrap().range(text);
        assert!(matches!(r, Err(Error::InvalidDuration)), "accepted {:?}", text);
    }
}

#[test]
fn duration_kept_verbatim() {
    let v = Selector::new()
        .metric("up")
        .unwrap()
        .range("0500ms")
        .unwrap()
        .to_range_vector()
        .unwrap();
    assert_eq!(v.serialize(), "up[0500ms]");
}

#[test]
fn duration_parses_and_keeps_its_text() {
    let d = Duration::parse("5m").unwrap();
    assert_eq!(d.serialize(), "5m");
    assert!(Duration::parse("5x").is_err());
}

#[test]
fn error_messages_name_the_violation() {
    let e = Selector::new().to_instant_vector().unwrap_err();
    assert_eq!(
        e.message(),
        "selector must have a metric name or at least one matcher"
    );
    let e = Selector::new().metric("1bad").unwrap_err();
    assert_eq!(e.message(), "metric name is empty or not a valid identifier");
    let e = Selector::new().with("", "x").unwrap_err();
    assert_eq!(e.message(), "label name in a matcher cannot be empty");
    let e = Selector::new().metric("up").unwrap().range("5x").unwrap_err();
    assert_eq!(
        e.message(),
        "duration must be a positive integer with a valid time unit"
    );
}

#[test]
fn serialization_is_repeatable() {
    let v = Selector::new()
        .metric("some_metric")
        .unwrap()
        .with("some_label", "some_value")
        .unwrap()
        .to_instant_vector()
        .unwrap();
    let first = v.serialize();
    let second = v.serialize();
    assert_eq!(first, second);
}
