use sdi::autonomy_policy::{AutonomyMode, AutonomyPolicy, AutonomyScopeKind};
use sdi::error::DomainError;
use sdi::ids::Id;

#[test]
fn floor_forces_architecture_to_l4() {
    assert_eq!(AutonomyMode::floor_for_kind("architecture"), AutonomyMode::L4);
    assert_eq!(AutonomyMode::floor_for_kind("schema"), AutonomyMode::L4);
    assert_eq!(AutonomyMode::floor_for_kind("naming-canonical"), AutonomyMode::L4);
    assert_eq!(AutonomyMode::floor_for_kind("general"), AutonomyMode::L3);
}

#[test]
fn l5_does_not_satisfy_l4_floor() {
    assert!(!AutonomyMode::L5.satisfies(AutonomyMode::L4));
    assert!(AutonomyMode::L4.satisfies(AutonomyMode::L4));
    assert!(AutonomyMode::L3.satisfies(AutonomyMode::L4));
}

#[test]
fn validate_scope_plan_requires_plan_id() {
    let err = AutonomyPolicy::validate_scope(AutonomyScopeKind::Plan, None, None, None).unwrap_err();
    assert!(matches!(err, DomainError::Validation(_)));
}

#[test]
fn validate_scope_global_forbids_plan_id() {
    let pid: Id = "PLAN-x".into();
    let err = AutonomyPolicy::validate_scope(AutonomyScopeKind::Global, Some(&pid), None, None).unwrap_err();
    assert!(matches!(err, DomainError::Validation(_)));
}

#[test]
fn validate_scope_pattern_kind_requires_pattern_kind() {
    let err = AutonomyPolicy::validate_scope(AutonomyScopeKind::PatternKind, None, None, None).unwrap_err();
    assert!(matches!(err, DomainError::Validation(_)));
}

#[test]
fn validate_scope_pattern_kind_accepts_known_kind() {
    AutonomyPolicy::validate_scope(AutonomyScopeKind::PatternKind, None, None, Some("workflow")).unwrap();
}

#[test]
fn validate_scope_pattern_kind_rejects_unknown_kind() {
    let err = AutonomyPolicy::validate_scope(AutonomyScopeKind::PatternKind, None, None, Some("rogue")).unwrap_err();
    assert!(matches!(err, DomainError::Validation(_)));
}

#[test]
fn default_pattern_kind_mode_defaults() {
    assert_eq!(AutonomyMode::default_pattern_kind_mode("workflow"), AutonomyMode::L5);
    assert_eq!(AutonomyMode::default_pattern_kind_mode("graph"), AutonomyMode::L5);
    assert_eq!(AutonomyMode::default_pattern_kind_mode("swarm"), AutonomyMode::L4);
    assert_eq!(AutonomyMode::default_pattern_kind_mode("agents-as-tools"), AutonomyMode::L4);
    assert_eq!(AutonomyMode::default_pattern_kind_mode("direct"), AutonomyMode::L3);
}

#[test]
fn effective_mode_picks_strictest() {
    assert_eq!(AutonomyMode::effective_mode(AutonomyMode::L5, AutonomyMode::L4), AutonomyMode::L4);
    assert_eq!(AutonomyMode::effective_mode(AutonomyMode::L4, AutonomyMode::L5), AutonomyMode::L4);
    assert_eq!(AutonomyMode::effective_mode(AutonomyMode::L3, AutonomyMode::L5), AutonomyMode::L3);
}

#[test]
fn validate_mode_blocks_l5_on_architecture() {
    let err = AutonomyPolicy::validate_mode_against_kind(
        AutonomyScopeKind::DecisionKind,
        Some("architecture"),
        AutonomyMode::L5,
    )
    .unwrap_err();
    assert!(matches!(err, DomainError::AutonomyGateBlocked { .. }));
}

#[test]
fn circuit_breaker_demotes_below_every_floor() {
    let demoted = AutonomyMode::demoted();
    assert_eq!(demoted, AutonomyMode::L3);
    for floor in [AutonomyMode::L3, AutonomyMode::L4, AutonomyMode::L5] {
        assert!(demoted.satisfies(floor));
    }
}

#[test]
fn forced_kinds_block_l5_and_l4_passes() {
    for kind in ["architecture", "schema", "naming-canonical"] {
        assert!(AutonomyMode::is_forced_l4(kind));
        AutonomyPolicy::validate_mode_against_kind(AutonomyScopeKind::DecisionKind, Some(kind), AutonomyMode::L4)
            .unwrap();
    }
    assert!(!AutonomyMode::is_forced_l4("general"));
    // Kinds that are not forced run at any mode.
    for mode in [AutonomyMode::L3, AutonomyMode::L4, AutonomyMode::L5] {
        AutonomyPolicy::validate_mode_against_kind(AutonomyScopeKind::DecisionKind, Some("general"), mode)
            .unwrap();
    }
    // Outside decision-kind scope the floor does not apply.
    AutonomyPolicy::validate_mode_against_kind(AutonomyScopeKind::Plan, Some("architecture"), AutonomyMode::L5)
        .unwrap();
}

#[test]
fn autonomy_mode_names_round_trip() {
    for m in [AutonomyMode::L3, AutonomyMode::L4, AutonomyMode::L5] {
        assert_eq!(m.as_str().parse::<AutonomyMode>().unwrap(), m);
    }
    assert!("L6".parse::<AutonomyMode>().is_err());
    assert_eq!(AutonomyScopeKind::PatternKind.to_string(), "pattern_kind");
}
