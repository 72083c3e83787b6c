use sdi::agent_note::{AgentNote, AgentNoteKind, AgentNoteScope};
use sdi::agent_spec::{stock_agents, stock_meta_agents, AgentSpec};
use sdi::error::DomainError;
use sdi::ids::Id;

fn id(s: &str) -> Id {
    s.into()
}

#[test]
fn anchor_requires_exactly_one_id() {
    let err = AgentNote::validate_anchor(AgentNoteScope::Plan, None, None, None, None).unwrap_err();
    assert!(matches!(err, DomainError::Validation(_)));
    let err = AgentNote::validate_anchor(AgentNoteScope::Plan, Some(&id("PLAN-x")), Some(&id("ROUND-y")), None, None)
        .unwrap_err();
    assert!(matches!(err, DomainError::Validation(_)));
}

#[test]
fn anchor_id_must_match_scope() {
    let err = AgentNote::validate_anchor(AgentNoteScope::Plan, None, Some(&id("ROUND-y")), None, None).unwrap_err();
    assert!(matches!(err, DomainError::Validation(_)));
}

#[test]
fn anchor_with_matching_id_passes() {
    AgentNote::validate_anchor(AgentNoteScope::Plan, Some(&id("PLAN-x")), None, None, None).unwrap();
    AgentNote::validate_anchor(AgentNoteScope::Task, None, None, None, Some(&id("TASK-x"))).unwrap();
}

#[test]
fn handoff_requires_to_agent() {
    let err = AgentNote::validate_handoff(AgentNoteKind::Handoff, None).unwrap_err();
    assert!(matches!(err, DomainError::Validation(_)));
    AgentNote::validate_handoff(AgentNoteKind::Handoff, Some("impl-coder")).unwrap();
    AgentNote::validate_handoff(AgentNoteKind::Observation, None).unwrap();
}

#[test]
fn unknown_name_rejected() {
    let err = AgentSpec::validate_name("random-bot").unwrap_err();
    assert!(matches!(err, DomainError::Validation(_)));
}

#[test]
fn stock_names_accepted() {
    for n in stock_agents() {
        AgentSpec::validate_name(n).unwrap();
    }
}

#[test]
fn meta_specialist_names_accepted() {
    for (n, _) in stock_meta_agents() {
        AgentSpec::validate_name(n).unwrap();
    }
}

#[test]
fn instance_count_bounds() {
    AgentSpec::validate_instance_count(0).unwrap();
    AgentSpec::validate_instance_count(16).unwrap();
    assert!(AgentSpec::validate_instance_count(-1).is_err());
    assert!(AgentSpec::validate_instance_count(17).is_err());
}

#[test]
fn note_kind_names_round_trip() {
    for k in [AgentNoteKind::Handoff, AgentNoteKind::Observation] {
        assert_eq!(k.as_str().parse::<AgentNoteKind>().unwrap(), k);
    }
    assert!("bogus".parse::<AgentNoteScope>().is_err());
}
