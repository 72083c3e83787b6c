//! Domain errors: one variant per rule the model enforces, each with a stable
//! machine code, an HTTP status and a human message.
use vstd::prelude::*;
use crate::text::concat2;
use crate::text::concat3;
use crate::text::owned;

verus! {

#[derive(Debug, Clone, PartialEq, Eq)]
pub enum DomainError {
    InvalidTransition { entity: String, from: String, to: String },
    Validation(String),
    NotFound(String),
    PlanNotActive(String),
    ScenariosRequired,
    GwtEmpty { field: &'static str },
    EvidenceRequired,
    InvalidRoundMode(String),
    PathInvariant(String),
    DisruptionPending,
    InFlightTaskPause,
    SnapshotViolation(String),
    Conflict(String),
    ConsensusMissingCritique { proposal_id: String },
    DissensusEscalated,
    AutonomyGateBlocked { kind: String, required: String, actual: String },
    CircuitBreakerActive,
}

pub type DomainResult<T> = Result<T, DomainError>;

/// `e` is a `Validation` error whose message is `msg`.
pub open spec fn is_validation(e: DomainError, msg: Seq<char>) -> bool {
    e matches DomainError::Validation(m) && m@ == msg
}

/// `e` is an `InvalidTransition` error for `entity` from `from` to `to`.
pub open spec fn is_invalid_transition(
    e: DomainError,
    entity: Seq<char>,
    from: Seq<char>,
    to: Seq<char>,
) -> bool {
    e matches DomainError::InvalidTransition { entity: en, from: fr, to: t } && en@ == entity
        && fr@ == from && t@ == to
}

/// `e` is an `AutonomyGateBlocked` error with the given fields.
pub open spec fn is_autonomy_gate_blocked(
    e: DomainError,
    kind: Seq<char>,
    required: Seq<char>,
    actual: Seq<char>,
) -> bool {
    e matches DomainError::AutonomyGateBlocked { kind: k, required: q, actual: a } && k@ == kind
        && q@ == required && a@ == actual
}

impl DomainError {
    /// Stable machine-readable code of each variant.
    pub open spec fn spec_code(self) -> Seq<char> {
        match self {
            DomainError::InvalidTransition { .. } => "INVALID_TRANSITION"@,
            DomainError::Validation(_) => "VALIDATION"@,
            DomainError::NotFound(_) => "NOT_FOUND"@,
            DomainError::PlanNotActive(_) => "PLAN_NOT_ACTIVE"@,
            DomainError::ScenariosRequired => "SCENARIOS_REQUIRED"@,
            DomainError::GwtEmpty { .. } => "GWT_EMPTY"@,
            DomainError::EvidenceRequired => "EVIDENCE_REQUIRED"@,
            DomainError::InvalidRoundMode(_) => "INVALID_ROUND_MODE"@,
            DomainError::PathInvariant(_) => "PATH_INVARIANT_VIOLATION"@,
            DomainError::DisruptionPending => "DISRUPTION_PENDING"@,
            DomainError::InFlightTaskPause => "IN_FLIGHT_TASK_PAUSE"@,
            DomainError::SnapshotViolation(_) => "SNAPSHOT_VIOLATION"@,
            DomainError::Conflict(_) => "CONFLICT"@,
            DomainError::ConsensusMissingCritique { .. } => "CONSENSUS_MISSING_CRITIQUE"@,
            DomainError::DissensusEscalated => "DISSENSUS_ESCALATED"@,
            DomainError::AutonomyGateBlocked { .. } => "AUTONOMY_GATE_BLOCKED"@,
            DomainError::CircuitBreakerActive => "CIRCUIT_BREAKER_ACTIVE"@,
        }
    }

    /// HTTP status the daemon answers with for each variant.
    pub open spec fn spec_http_status(self) -> u16 {
        match self {
            DomainError::NotFound(_) => 404,
            DomainError::Conflict(_) => 409,
            DomainError::DissensusEscalated => 409,
            DomainError::AutonomyGateBlocked { .. } => 403,
            DomainError::CircuitBreakerActive => 423,
            _ => 400,
        }
    }

    /// Human-readable message of each variant.
    pub open spec fn spec_message(self) -> Seq<char> {
        match self {
            DomainError::InvalidTransition { entity, from, to } => "invalid state transition: "@
                + entity@ + " "@ + from@ + " -> "@ + to@,
            DomainError::Validation(m) => "validation error: "@ + m@,
            DomainError::NotFound(m) => "entity not found: "@ + m@,
            DomainError::PlanNotActive(m) => "plan must be active before this operation: "@ + m@,
            DomainError::ScenariosRequired =>
                "scenarios required: a plan needs at least one confirmed scenario before approval"@,
            DomainError::GwtEmpty { field } => "GWT field empty: "@ + field@,
            DomainError::EvidenceRequired => "evidence required for done transition"@,
            DomainError::InvalidRoundMode(m) => "round mode invalid: "@ + m@,
            DomainError::PathInvariant(m) => "path invariant violated (LM-8): "@ + m@,
            DomainError::DisruptionPending => "disruption pending — needs review"@,
            DomainError::InFlightTaskPause => "in-flight task pause required"@,
            DomainError::SnapshotViolation(m) => "snapshot-only violation: "@ + m@
                + " (move history to a Decision via /decide)"@,
            DomainError::Conflict(m) => "conflict: "@ + m@,
            DomainError::ConsensusMissingCritique { proposal_id } =>
                "consensus stage requires ≥ 1 prior critique against proposal "@ + proposal_id@,
            DomainError::DissensusEscalated =>
                "dissensus escalated to human gate (mode-agnostic, per D20)"@,
            DomainError::AutonomyGateBlocked { kind, required, actual } =>
                "autonomy gate blocked: decision-kind "@ + kind@ + " requires mode "@ + required@
                + " but policy is "@ + actual@,
            DomainError::CircuitBreakerActive =>
                "circuit breaker active — all autonomy modes demoted to L3; explicit user approval required"@,
        }
    }

    pub fn code(&self) -> (r: &'static str)
        ensures
            r@ == self.spec_code(),
    {
        match self {
            DomainError::InvalidTransition { .. } => "INVALID_TRANSITION",
            DomainError::Validation(_) => "VALIDATION",
            DomainError::NotFound(_) => "NOT_FOUND",
            DomainError::PlanNotActive(_) => "PLAN_NOT_ACTIVE",
            DomainError::ScenariosRequired => "SCENARIOS_REQUIRED",
            DomainError::GwtEmpty { .. } => "GWT_EMPTY",
            DomainError::EvidenceRequired => "EVIDENCE_REQUIRED",
            DomainError::InvalidRoundMode(_) => "INVALID_ROUND_MODE",
            DomainError::PathInvariant(_) => "PATH_INVARIANT_VIOLATION",
            DomainError::DisruptionPending => "DISRUPTION_PENDING",
            DomainError::InFlightTaskPause => "IN_FLIGHT_TASK_PAUSE",
            DomainError::SnapshotViolation(_) => "SNAPSHOT_VIOLATION",
            DomainError::Conflict(_) => "CONFLICT",
            DomainError::ConsensusMissingCritique { .. } => "CONSENSUS_MISSING_CRITIQUE",
            DomainError::DissensusEscalated => "DISSENSUS_ESCALATED",
            DomainError::AutonomyGateBlocked { .. } => "AUTONOMY_GATE_BLOCKED",
            DomainError::CircuitBreakerActive => "CIRCUIT_BREAKER_ACTIVE",
        }
    }

    pub fn http_status(&self) -> (r: u16)
        ensures
            r == self.spec_http_status(),
    {
        match self {
            DomainError::NotFound(_) => 404,
            DomainError::Conflict(_) => 409,
            DomainError::DissensusEscalated => 409,
            DomainError::AutonomyGateBlocked { .. } => 403,
            DomainError::CircuitBreakerActive => 423,
            _ => 400,
        }
    }

    /// The display text of the error.
    pub fn message(&self) -> (r: String)
        ensures
            r@ == self.spec_message(),
    {
        match self {
            DomainError::InvalidTransition { entity, from, to } => {
                let a = concat3("invalid state transition: ", entity.as_str(), " ");
                let b = concat3(a.as_str(), from.as_str(), " -> ");
                concat2(b.as_str(), to.as_str())
            },
            DomainError::Validation(m) => concat2("validation error: ", m.as_str()),
            DomainError::NotFound(m) => concat2("entity not found: ", m.as_str()),
            DomainError::PlanNotActive(m) => concat2(
                "plan must be active before this operation: ",
                m.as_str(),
            ),
            DomainError::ScenariosRequired => owned(
                "scenarios required: a plan needs at least one confirmed scenario before approval",
            ),
            DomainError::GwtEmpty { field } => concat2("GWT field empty: ", field),
            DomainError::EvidenceRequired => owned("evidence required for done transition"),
            DomainError::InvalidRoundMode(m) => concat2("round mode invalid: ", m.as_str()),
            DomainError::PathInvariant(m) => concat2("path invariant violated (LM-8): ", m.as_str()),
            DomainError::DisruptionPending => owned("disruption pending — needs review"),
            DomainError::InFlightTaskPause => owned("in-flight task pause required"),
            DomainError::SnapshotViolation(m) => concat3(
                "snapshot-only violation: ",
                m.as_str(),
                " (move history to a Decision via /decide)",
            ),
            DomainError::Conflict(m) => concat2("conflict: ", m.as_str()),
            DomainError::ConsensusMissingCritique { proposal_id } => concat2(
                "consensus stage requires ≥ 1 prior critique against proposal ",
                proposal_id.as_str(),
            ),
            DomainError::DissensusEscalated => owned(
                "dissensus escalated to human gate (mode-agnostic, per D20)",
            ),
            DomainError::AutonomyGateBlocked { kind, required, actual } => {
                let a = concat3("autonomy gate blocked: decision-kind ", kind.as_str(), " requires mode ");
                let b = concat3(a.as_str(), required.as_str(), " but policy is ");
                concat2(b.as_str(), actual.as_str())
            },
            DomainError::CircuitBreakerActive => owned(
                "circuit breaker active — all autonomy modes demoted to L3; explicit user approval required",
            ),
        }
    }
}

/// A `Validation` error carrying `msg`.
pub fn validation(msg: String) -> (e: DomainError)
    ensures
        is_validation(e, msg@),
{
    DomainError::Validation(msg)
}

/// What a refused request is answered with: 404 for a missing entity, 409
/// for a conflict or an escalated dissensus, 403 when the autonomy gate
/// blocks, 423 while the circuit breaker is on, and 400 for every other
/// refusal.
pub proof fn law_http_status(e: DomainError)
    ensures
        e is NotFound ==> e.spec_http_status() == 404,
        (e is Conflict || e is DissensusEscalated) ==> e.spec_http_status() == 409,
        e is AutonomyGateBlocked ==> e.spec_http_status() == 403,
        e is CircuitBreakerActive ==> e.spec_http_status() == 423,
        !(e is NotFound || e is Conflict || e is DissensusEscalated || e is AutonomyGateBlocked
            || e is CircuitBreakerActive) ==> e.spec_http_status() == 400,
        e is Validation ==> e.spec_code() == "VALIDATION"@,
        e is InvalidTransition ==> e.spec_code() == "INVALID_TRANSITION"@,
        e is EvidenceRequired ==> e.spec_code() == "EVIDENCE_REQUIRED"@,
        e is ScenariosRequired ==> e.spec_code() == "SCENARIOS_REQUIRED"@,
        e is GwtEmpty ==> e.spec_code() == "GWT_EMPTY"@,
        e is SnapshotViolation ==> e.spec_code() == "SNAPSHOT_VIOLATION"@,
        e is ConsensusMissingCritique ==> e.spec_code() == "CONSENSUS_MISSING_CRITIQUE"@,
        e is AutonomyGateBlocked ==> e.spec_code() == "AUTONOMY_GATE_BLOCKED"@,
        e is NotFound ==> e.spec_code() == "NOT_FOUND"@,
        e is Conflict ==> e.spec_code() == "CONFLICT"@,
{
}

} // verus!
