use sdi::error::DomainError;
use sdi::ids::{now, Id};
use sdi::scenario::ScenarioResult;
use sdi::task::{transition_allowed, ScenarioEvidence, Task, TaskEvidence, TaskStatus};

fn sample_task() -> Task {
    Task {
        id: Id::from("TASK-X"),
        round_id: Id::from("ROUND-X"),
        short_code: "SDI-1".into(),
        description: "x".into(),
        status: TaskStatus::InProgress,
        parent_scenario_ids: vec![],
        parent_requirement_ids: vec![],
        evidence: None,
        created_at: now().unwrap(),
        updated_at: now().unwrap(),
        evidence_at: None,
    }
}

fn evidence(reference: &str) -> TaskEvidence {
    TaskEvidence {
        scenarios: vec![ScenarioEvidence {
            scenario_id: Id::from("SCN-1"),
            result: ScenarioResult::Passing,
            evidence_ref: reference.into(),
            note: None,
        }],
        summary: Some("ok".into()),
        extras: Default::default(),
    }
}

#[test]
fn done_without_evidence_rejected() {
    let t = sample_task();
    let err = t.check_transition(TaskStatus::Done, None).unwrap_err();
    assert!(matches!(err, DomainError::EvidenceRequired));
}

#[test]
fn done_with_evidence_accepted() {
    let t = sample_task();
    let ev = evidence("src/lib.rs:42");
    t.check_transition(TaskStatus::Done, Some(&ev)).unwrap();
}

#[test]
fn invalid_transition_rejected() {
    let mut t = sample_task();
    t.status = TaskStatus::Done;
    let err = t.check_transition(TaskStatus::InProgress, None).unwrap_err();
    assert!(matches!(err, DomainError::InvalidTransition { .. }));
}

#[test]
fn blank_evidence_ref_rejected() {
    let t = sample_task();
    let err = t.check_transition(TaskStatus::Done, Some(&evidence("   "))).unwrap_err();
    assert!(matches!(err, DomainError::Validation(_)));
}

#[test]
fn empty_evidence_is_empty() {
    assert!(TaskEvidence::default().is_empty());
    assert!(!evidence("x").is_empty());
    let t = sample_task();
    let err = t.check_transition(TaskStatus::Done, Some(&TaskEvidence::default())).unwrap_err();
    assert!(matches!(err, DomainError::EvidenceRequired));
}

#[test]
fn terminal_states_have_no_exit() {
    for to in [TaskStatus::Todo, TaskStatus::InProgress, TaskStatus::Blocked, TaskStatus::Done, TaskStatus::Cancelled] {
        assert!(!transition_allowed(TaskStatus::Done, to));
        assert!(!transition_allowed(TaskStatus::Cancelled, to));
    }
    assert!(transition_allowed(TaskStatus::Todo, TaskStatus::InProgress));
}

#[test]
fn task_status_names_round_trip() {
    for s in ["todo", "in_progress", "done", "cancelled", "blocked"] {
        assert_eq!(s.parse::<TaskStatus>().unwrap().to_string(), s);
    }
}

#[test]
fn summary_only_evidence_rejected() {
    let ev = TaskEvidence { scenarios: vec![], summary: Some("done".into()), extras: Default::default() };
    assert!(matches!(ev.validate_for_done(), Err(DomainError::EvidenceRequired)));
}
