use sdi::decision::{Decision, DecisionKind};
use sdi::decision_question::{DecisionQuestion, QuestionAnswer, QuestionStatus, QuestionType};
use sdi::error::DomainError;
use sdi::ids::Id;

fn pid() -> Id {
    "DEC-proposal".into()
}

#[test]
fn proposal_must_not_have_proposal_id() {
    let err = Decision::validate_stage_transition(DecisionKind::Proposal, &[], Some(&pid())).unwrap_err();
    assert!(matches!(err, DomainError::Validation(_)));
}

#[test]
fn critique_requires_proposal_id() {
    let err = Decision::validate_stage_transition(DecisionKind::Critique, &[], None).unwrap_err();
    assert!(matches!(err, DomainError::Validation(_)));
}

#[test]
fn consensus_blocked_without_critique() {
    let err = Decision::validate_stage_transition(DecisionKind::Consensus, &[], Some(&pid())).unwrap_err();
    assert!(matches!(err, DomainError::ConsensusMissingCritique { .. }));
}

#[test]
fn consensus_allowed_after_critique() {
    Decision::validate_stage_transition(DecisionKind::Consensus, &[DecisionKind::Critique], Some(&pid())).unwrap();
}

#[test]
fn dissensus_allowed_with_proposal_id() {
    Decision::validate_stage_transition(DecisionKind::Dissensus, &[DecisionKind::Critique], Some(&pid())).unwrap();
}

#[test]
fn proposal_without_proposal_id_passes() {
    Decision::validate_stage_transition(DecisionKind::Proposal, &[], None).unwrap();
}

#[test]
fn qtype_roundtrip() {
    for s in ["fact", "preference"] {
        let parsed: QuestionType = s.parse().unwrap();
        assert_eq!(parsed.to_string(), s);
    }
    assert!("bogus".parse::<QuestionType>().is_err());
}

#[test]
fn decision_question_status_roundtrip() {
    for s in ["open", "answered", "auto_decided"] {
        let parsed: QuestionStatus = s.parse().unwrap();
        assert_eq!(parsed.to_string(), s);
    }
    assert!("bogus".parse::<QuestionStatus>().is_err());
}

#[test]
fn context_must_be_non_empty() {
    DecisionQuestion::validate_context("페르소나 X가 결제 실패 시 …").unwrap();
    assert!(DecisionQuestion::validate_context("  ").is_err());
}

#[test]
fn answer_requires_choice_or_text() {
    QuestionAnswer::validate(&Some("QOPT-1".into()), &None).unwrap();
    QuestionAnswer::validate(&None, &Some("내 방식".into())).unwrap();
    assert!(QuestionAnswer::validate(&None, &None).is_err());
    assert!(QuestionAnswer::validate(&Some("  ".into()), &Some("  ".into())).is_err());
}

#[test]
fn decision_kind_names_round_trip() {
    for k in [DecisionKind::Proposal, DecisionKind::Critique, DecisionKind::Consensus, DecisionKind::Dissensus] {
        assert_eq!(k.as_str().parse::<DecisionKind>().unwrap(), k);
    }
}
