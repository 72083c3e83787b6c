use sdi::error::DomainError;
use sdi::json::Json;
use sdi::pattern::{
    count_distinct_reviewers, validate_pattern_shape, validate_reversal_plan_json, PatternKind, PatternLifecycle,
    PatternStep, PeerLink, ReversalPlan, Reviewer, Stance,
};

fn reviewer(name: &str, stance: Stance) -> Reviewer {
    Reviewer { name: name.into(), stance }
}

fn step(idx: usize, agent: &str) -> PatternStep {
    PatternStep { idx, agent: agent.into(), action: "act".into() }
}

fn to_json(v: &serde_json::Value) -> Json {
    match v {
        serde_json::Value::Null => Json::Null,
        serde_json::Value::Bool(b) => Json::Bool(*b),
        serde_json::Value::Number(n) => Json::Number(n.to_string()),
        serde_json::Value::String(s) => Json::Str(s.clone()),
        serde_json::Value::Array(a) => Json::Array(a.iter().map(to_json).collect()),
        serde_json::Value::Object(m) => Json::Object(m.iter().map(|(k, v)| (k.clone(), to_json(v))).collect()),
    }
}

fn text(v: &serde_json::Value, key: &str) -> Result<String, String> {
    v.get(key).and_then(|x| x.as_str()).map(|s| s.to_string()).ok_or_else(|| format!("missing field `{key}`"))
}

/// Decodes a stored reversal plan for these tests: the `type` tag and the
/// fields the cases below use (a missing `dependencies` reads as empty).
fn decode_plan(json: &str) -> Result<ReversalPlan, String> {
    let v: serde_json::Value = serde_json::from_str(json).map_err(|e| e.to_string())?;
    match v.get("type").and_then(|t| t.as_str()) {
        Some("migration_sql") => Ok(ReversalPlan::MigrationSql {
            sql: text(&v, "sql")?,
            dependencies: v
                .get("dependencies")
                .and_then(|d| d.as_array())
                .map(|a| a.iter().filter_map(|x| x.as_str().map(|s| s.to_string())).collect())
                .unwrap_or_default(),
        }),
        Some("git_revert") => Ok(ReversalPlan::GitRevert { sha: text(&v, "sha")? }),
        Some("fs_snapshot") => Ok(ReversalPlan::FsSnapshot { snapshot_ref: text(&v, "snapshot_ref")? }),
        Some("compensating_action") => Ok(ReversalPlan::CompensatingAction {
            action_spec: to_json(v.get("action_spec").unwrap_or(&serde_json::Value::Null)),
        }),
        _ => Err("unknown variant".to_string()),
    }
}

#[test]
fn workflow_requires_two_steps() {
    let one = vec![step(0, "a")];
    let err = validate_pattern_shape(PatternKind::Workflow, Some(&one), None, None, None).unwrap_err();
    assert!(matches!(err, DomainError::Validation(_)));
    let two = vec![step(0, "a"), step(1, "b")];
    validate_pattern_shape(PatternKind::Workflow, Some(&two), None, None, None).unwrap();
}

#[test]
fn graph_rejects_same_name_stance_pair() {
    let sybil = vec![reviewer("impl-coder", Stance::Neutral), reviewer("impl-coder", Stance::Neutral)];
    let err = validate_pattern_shape(PatternKind::Graph, None, Some(&sybil), None, None).unwrap_err();
    assert!(matches!(err, DomainError::Validation(_)));
}

#[test]
fn graph_accepts_same_name_distinct_stance() {
    let diverse = vec![reviewer("impl-coder", Stance::Proposer), reviewer("impl-coder", Stance::DevilAdvocate)];
    validate_pattern_shape(PatternKind::Graph, None, Some(&diverse), None, None).unwrap();
}

#[test]
fn swarm_requires_two_fan_out() {
    let one = vec!["a".to_string()];
    let err = validate_pattern_shape(PatternKind::Swarm, None, None, Some(&one), None).unwrap_err();
    assert!(matches!(err, DomainError::Validation(_)));
    let two = vec!["a".to_string(), "b".to_string()];
    validate_pattern_shape(PatternKind::Swarm, None, None, Some(&two), None).unwrap();
}

#[test]
fn agents_as_tools_requires_one_peer() {
    let none: Vec<PeerLink> = vec![];
    let err = validate_pattern_shape(PatternKind::AgentsAsTools, None, None, None, Some(&none)).unwrap_err();
    assert!(matches!(err, DomainError::Validation(_)));
    let one = vec![PeerLink { caller: "a".into(), callee: "b".into() }];
    validate_pattern_shape(PatternKind::AgentsAsTools, None, None, None, Some(&one)).unwrap();
}

#[test]
fn direct_always_passes() {
    validate_pattern_shape(PatternKind::Direct, None, None, None, None).unwrap();
}

#[test]
fn reversal_plan_migration_sql_round_trip() {
    let json = r#"{"type":"migration_sql","sql":"DROP TABLE x;","dependencies":["001"]}"#;
    let p = validate_reversal_plan_json(decode_plan(json)).unwrap();
    match p {
        ReversalPlan::MigrationSql { sql, dependencies } => {
            assert_eq!(sql, "DROP TABLE x;");
            assert_eq!(dependencies, vec!["001"]);
        }
        _ => panic!("wrong variant"),
    }
}

#[test]
fn reversal_plan_git_revert_requires_non_empty_sha() {
    let err = validate_reversal_plan_json(decode_plan(r#"{"type":"git_revert","sha":""}"#)).unwrap_err();
    assert!(matches!(err, DomainError::Validation(_)));
}

#[test]
fn reversal_plan_compensating_action_rejects_empty_object() {
    let err =
        validate_reversal_plan_json(decode_plan(r#"{"type":"compensating_action","action_spec":{}}"#)).unwrap_err();
    assert!(matches!(err, DomainError::Validation(_)));
}

#[test]
fn reversal_plan_decode_error_is_validation() {
    let err = validate_reversal_plan_json(decode_plan("not json")).unwrap_err();
    match err {
        DomainError::Validation(m) => assert!(m.starts_with("reversal_plan")),
        other => panic!("unexpected {other:?}"),
    }
}

#[test]
fn pattern_kind_round_trip() {
    for k in [
        PatternKind::Workflow,
        PatternKind::Graph,
        PatternKind::Swarm,
        PatternKind::AgentsAsTools,
        PatternKind::Direct,
    ] {
        let s = k.as_str();
        assert_eq!(s.parse::<PatternKind>().unwrap(), k);
    }
}

#[test]
fn lifecycle_terminal_predicate() {
    assert!(PatternLifecycle::Converged.is_terminal());
    assert!(PatternLifecycle::Dissensus.is_terminal());
    assert!(PatternLifecycle::Aborted.is_terminal());
    assert!(!PatternLifecycle::Pending.is_terminal());
    assert!(!PatternLifecycle::Active.is_terminal());
}

#[test]
fn distinct_reviewers_count_name_stance_pairs() {
    let rs = vec![
        reviewer("a", Stance::Neutral),
        reviewer("a", Stance::Neutral),
        reviewer("a", Stance::Proposer),
        reviewer("b", Stance::Neutral),
    ];
    assert_eq!(count_distinct_reviewers(&rs), 3);
}
