use sdi::error::DomainError;
use sdi::scenario::{validate_claimed_resources, Scenario, ScenarioResult, ScenarioStatus};

#[test]
fn gwt_empty_given_rejected() {
    let err = Scenario::validate_gwt("", "act", "result").unwrap_err();
    assert!(matches!(err, DomainError::GwtEmpty { field: "given" }));
}

#[test]
fn gwt_whitespace_when_rejected() {
    let err = Scenario::validate_gwt("ctx", "   ", "result").unwrap_err();
    assert!(matches!(err, DomainError::GwtEmpty { field: "when" }));
}

#[test]
fn gwt_blank_then_rejected() {
    let err = Scenario::validate_gwt("ctx", "act", "\t\n").unwrap_err();
    assert!(matches!(err, DomainError::GwtEmpty { field: "then" }));
    assert_eq!(err.code(), "GWT_EMPTY");
}

#[test]
fn gwt_all_present_passes() {
    Scenario::validate_gwt("ctx", "act", "result").unwrap();
}

#[test]
fn depends_on_rejects_self_reference() {
    let err = Scenario::validate_depends_on("US-A-001", &["US-A-001".into()]).unwrap_err();
    assert!(matches!(err, DomainError::Validation(_)));
}

#[test]
fn depends_on_allows_other_short_codes() {
    Scenario::validate_depends_on("US-A-002", &["US-A-001".into()]).unwrap();
}

#[test]
fn claimed_resources_parses_array_of_globs() {
    let v = validate_claimed_resources(r#"["crates/db/migrations/*.sql","plugin/agents/*.md"]"#).unwrap();
    assert_eq!(v.len(), 2);
}

#[test]
fn claimed_resources_rejects_empty_entry() {
    let err = validate_claimed_resources(r#"["",""]"#).unwrap_err();
    assert!(matches!(err, DomainError::Validation(_)));
}

#[test]
fn claimed_resources_rejects_wildcard_only() {
    let err = validate_claimed_resources(r#"["**"]"#).unwrap_err();
    assert!(matches!(err, DomainError::Validation(_)));
}

#[test]
fn claimed_resources_rejects_non_array() {
    let err = validate_claimed_resources(r#"{"a":1}"#).unwrap_err();
    match err {
        DomainError::Validation(m) => assert!(m.starts_with("claimed_resources parse error: ")),
        other => panic!("unexpected {other:?}"),
    }
}

#[test]
fn claimed_resources_keeps_entries_verbatim() {
    let v = validate_claimed_resources(r#"[" src/*.rs "]"#).unwrap();
    assert_eq!(v, vec![" src/*.rs ".to_string()]);
    let err = validate_claimed_resources(r#"["./**/?"]"#).unwrap_err();
    assert_eq!(
        err,
        DomainError::Validation("claimed_resources entry has no literal path component: ./**/?".to_string())
    );
}

#[test]
fn scenario_names_round_trip() {
    for r in [ScenarioResult::Passing, ScenarioResult::Failing] {
        assert_eq!(r.as_str().parse::<ScenarioResult>().unwrap(), r);
    }
    assert!("bogus".parse::<ScenarioStatus>().is_err());
}
