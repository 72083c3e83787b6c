//! Collaboration patterns: how a group of agents produces one work entity,
//! with the shape gate run on `pending → active`.
use vstd::prelude::*;
use crate::error::{DomainError, is_validation, validation};
use crate::text::{str_eq, owned, concat2, concat3};

use crate::ids::{Id, Timestamp};
use crate::json::Json;
use crate::text::{nat_decimal, push_nat_decimal, spec_is_blank, is_blank};

verus! {

/// Pattern kind; `direct` marks solo work.
#[derive(Debug, Clone, Copy, PartialEq, Eq, Structural, Hash)]
pub enum PatternKind {
    Workflow,
    Graph,
    Swarm,
    AgentsAsTools,
    Direct,
}

impl PatternKind {
    /// Canonical wire name.
    pub open spec fn spec_name(self) -> Seq<char> {
        match self {
            PatternKind::Workflow => "workflow"@,
            PatternKind::Graph => "graph"@,
            PatternKind::Swarm => "swarm"@,
            PatternKind::AgentsAsTools => "agents-as-tools"@,
            PatternKind::Direct => "direct"@,
        }
    }

    /// The value whose wire name is `s`, if any.
    pub open spec fn from_name(s: Seq<char>) -> Option<PatternKind> {
        if s == "workflow"@ {
            Some(PatternKind::Workflow)
        } else if s == "graph"@ {
            Some(PatternKind::Graph)
        } else if s == "swarm"@ {
            Some(PatternKind::Swarm)
        } else if s == "agents-as-tools"@ {
            Some(PatternKind::AgentsAsTools)
        } else if s == "direct"@ {
            Some(PatternKind::Direct)
        } else {
            None
        }
    }

    pub fn as_str(self) -> (r: &'static str)
        ensures
            r@ == self.spec_name(),
    {
        match self {
            PatternKind::Workflow => "workflow",
            PatternKind::Graph => "graph",
            PatternKind::Swarm => "swarm",
            PatternKind::AgentsAsTools => "agents-as-tools",
            PatternKind::Direct => "direct",
        }
    }

    pub fn to_string(&self) -> (r: String)
        ensures
            r@ == self.spec_name(),
    {
        owned(self.as_str())
    }

    pub fn parse(s: &str) -> (r: Result<PatternKind, DomainError>)
        ensures
            match r {
                Ok(k) => PatternKind::from_name(s@) == Some(k),
                Err(e) => PatternKind::from_name(s@) is None && is_validation(e, "unknown pattern kind: "@ + s@),
            },
    {
        if str_eq(s, "workflow") {
            Ok(PatternKind::Workflow)
        } else if str_eq(s, "graph") {
            Ok(PatternKind::Graph)
        } else if str_eq(s, "swarm") {
            Ok(PatternKind::Swarm)
        } else if str_eq(s, "agents-as-tools") {
            Ok(PatternKind::AgentsAsTools)
        } else if str_eq(s, "direct") {
            Ok(PatternKind::Direct)
        } else {
            Err(validation(concat2("unknown pattern kind: ", s)))
        }
    }
}

impl core::str::FromStr for PatternKind {
    type Err = DomainError;

    fn from_str(s: &str) -> (r: Result<PatternKind, DomainError>)
        ensures
            match r {
                Ok(k) => PatternKind::from_name(s@) == Some(k),
                Err(e) => PatternKind::from_name(s@) is None && is_validation(e, "unknown pattern kind: "@ + s@),
            },
    {
        PatternKind::parse(s)
    }
}

/// Every `PatternKind` parses back from its own wire name, and a name that
/// parses to a value is exactly that value's wire name.
pub proof fn lemma_pattern_kind_names(k: PatternKind, s: Seq<char>)
    ensures
        PatternKind::from_name(k.spec_name()) == Some(k),
        PatternKind::from_name(s) == Some(k) ==> s == k.spec_name(),
{
    reveal_strlit("workflow");
    reveal_strlit("graph");
    reveal_strlit("swarm");
    reveal_strlit("agents-as-tools");
    reveal_strlit("direct");
    assert("workflow"@.len() == 8);
    assert("graph"@.len() == 5);
    assert("swarm"@.len() == 5);
    assert("agents-as-tools"@.len() == 15);
    assert("direct"@.len() == 6);
    assert("graph"@[0] != "swarm"@[0]);
}

/// Work entity a pattern produces.
#[derive(Debug, Clone, Copy, PartialEq, Eq, Structural)]
pub enum AppliesTo {
    Plan,
    Requirement,
    Scenario,
    Task,
    Decision,
    Round,
}

impl AppliesTo {
    /// Canonical wire name.
    pub open spec fn spec_name(self) -> Seq<char> {
        match self {
            AppliesTo::Plan => "plan"@,
            AppliesTo::Requirement => "requirement"@,
            AppliesTo::Scenario => "scenario"@,
            AppliesTo::Task => "task"@,
            AppliesTo::Decision => "decision"@,
            AppliesTo::Round => "round"@,
        }
    }

    /// The value whose wire name is `s`, if any.
    pub open spec fn from_name(s: Seq<char>) -> Option<AppliesTo> {
        if s == "plan"@ {
            Some(AppliesTo::Plan)
        } else if s == "requirement"@ {
            Some(AppliesTo::Requirement)
        } else if s == "scenario"@ {
            Some(AppliesTo::Scenario)
        } else if s == "task"@ {
            Some(AppliesTo::Task)
        } else if s == "decision"@ {
            Some(AppliesTo::Decision)
        } else if s == "round"@ {
            Some(AppliesTo::Round)
        } else {
            None
        }
    }

    pub fn as_str(self) -> (r: &'static str)
        ensures
            r@ == self.spec_name(),
    {
        match self {
            AppliesTo::Plan => "plan",
            AppliesTo::Requirement => "requirement",
            AppliesTo::Scenario => "scenario",
            AppliesTo::Task => "task",
            AppliesTo::Decision => "decision",
            AppliesTo::Round => "round",
        }
    }

    pub fn to_string(&self) -> (r: String)
        ensures
            r@ == self.spec_name(),
    {
        owned(self.as_str())
    }

    pub fn parse(s: &str) -> (r: Result<AppliesTo, DomainError>)
        ensures
            match r {
                Ok(k) => AppliesTo::from_name(s@) == Some(k),
                Err(e) => AppliesTo::from_name(s@) is None && is_validation(e, "unknown applies_to: "@ + s@),
            },
    {
        if str_eq(s, "plan") {
            Ok(AppliesTo::Plan)
        } else if str_eq(s, "requirement") {
            Ok(AppliesTo::Requirement)
        } else if str_eq(s, "scenario") {
            Ok(AppliesTo::Scenario)
        } else if str_eq(s, "task") {
            Ok(AppliesTo::Task)
        } else if str_eq(s, "decision") {
            Ok(AppliesTo::Decision)
        } else if str_eq(s, "round") {
            Ok(AppliesTo::Round)
        } else {
            Err(validation(concat2("unknown applies_to: ", s)))
        }
    }
}

impl core::str::FromStr for AppliesTo {
    type Err = DomainError;

    fn from_str(s: &str) -> (r: Result<AppliesTo, DomainError>)
        ensures
            match r {
                Ok(k) => AppliesTo::from_name(s@) == Some(k),
                Err(e) => AppliesTo::from_name(s@) is None && is_validation(e, "unknown applies_to: "@ + s@),
            },
    {
        AppliesTo::parse(s)
    }
}

/// Every `AppliesTo` parses back from its own wire name, and a name that
/// parses to a value is exactly that value's wire name.
pub proof fn lemma_applies_to_names(k: AppliesTo, s: Seq<char>)
    ensures
        AppliesTo::from_name(k.spec_name()) == Some(k),
        AppliesTo::from_name(s) == Some(k) ==> s == k.spec_name(),
{
    reveal_strlit("plan");
    reveal_strlit("requirement");
    reveal_strlit("scenario");
    reveal_strlit("task");
    reveal_strlit("decision");
    reveal_strlit("round");
    assert("plan"@.len() == 4);
    assert("requirement"@.len() == 11);
    assert("scenario"@.len() == 8);
    assert("task"@.len() == 4);
    assert("decision"@.len() == 8);
    assert("round"@.len() == 5);
    assert("plan"@[0] != "task"@[0]);
    assert("scenario"@[0] != "decision"@[0]);
}

/// Pattern lifecycle.
#[derive(Debug, Clone, Copy, PartialEq, Eq, Structural)]
pub enum PatternLifecycle {
    Pending,
    Active,
    Converged,
    Dissensus,
    Aborted,
}

impl PatternLifecycle {
    /// Canonical wire name.
    pub open spec fn spec_name(self) -> Seq<char> {
        match self {
            PatternLifecycle::Pending => "pending"@,
            PatternLifecycle::Active => "active"@,
            PatternLifecycle::Converged => "converged"@,
            PatternLifecycle::Dissensus => "dissensus"@,
            PatternLifecycle::Aborted => "aborted"@,
        }
    }

    /// The value whose wire name is `s`, if any.
    pub open spec fn from_name(s: Seq<char>) -> Option<PatternLifecycle> {
        if s == "pending"@ {
            Some(PatternLifecycle::Pending)
        } else if s == "active"@ {
            Some(PatternLifecycle::Active)
        } else if s == "converged"@ {
            Some(PatternLifecycle::Converged)
        } else if s == "dissensus"@ {
            Some(PatternLifecycle::Dissensus)
        } else if s == "aborted"@ {
            Some(PatternLifecycle::Aborted)
        } else {
            None
        }
    }

    pub fn as_str(self) -> (r: &'static str)
        ensures
            r@ == self.spec_name(),
    {
        match self {
            PatternLifecycle::Pending => "pending",
            PatternLifecycle::Active => "active",
            PatternLifecycle::Converged => "converged",
            PatternLifecycle::Dissensus => "dissensus",
            PatternLifecycle::Aborted => "aborted",
        }
    }

    pub fn to_string(&self) -> (r: String)
        ensures
            r@ == self.spec_name(),
    {
        owned(self.as_str())
    }

    pub fn parse(s: &str) -> (r: Result<PatternLifecycle, DomainError>)
        ensures
            match r {
                Ok(k) => PatternLifecycle::from_name(s@) == Some(k),
                Err(e) => PatternLifecycle::from_name(s@) is None && is_validation(e, "unknown pattern lifecycle: "@ + s@),
            },
    {
        if str_eq(s, "pending") {
            Ok(PatternLifecycle::Pending)
        } else if str_eq(s, "active") {
            Ok(PatternLifecycle::Active)
        } else if str_eq(s, "converged") {
            Ok(PatternLifecycle::Converged)
        } else if str_eq(s, "dissensus") {
            Ok(PatternLifecycle::Dissensus)
        } else if str_eq(s, "aborted") {
            Ok(PatternLifecycle::Aborted)
        } else {
            Err(validation(concat2("unknown pattern lifecycle: ", s)))
        }
    }
}

impl core::str::FromStr for PatternLifecycle {
    type Err = DomainError;

    fn from_str(s: &str) -> (r: Result<PatternLifecycle, DomainError>)
        ensures
            match r {
                Ok(k) => PatternLifecycle::from_name(s@) == Some(k),
                Err(e) => PatternLifecycle::from_name(s@) is None && is_validation(e, "unknown pattern lifecycle: "@ + s@),
            },
    {
        PatternLifecycle::parse(s)
    }
}

/// Every `PatternLifecycle` parses back from its own wire name, and a name that
/// parses to a value is exactly that value's wire name.
pub proof fn lemma_pattern_lifecycle_names(k: PatternLifecycle, s: Seq<char>)
    ensures
        PatternLifecycle::from_name(k.spec_name()) == Some(k),
        PatternLifecycle::from_name(s) == Some(k) ==> s == k.spec_name(),
{
    reveal_strlit("pending");
    reveal_strlit("active");
    reveal_strlit("converged");
    reveal_strlit("dissensus");
    reveal_strlit("aborted");
    assert("pending"@.len() == 7);
    assert("active"@.len() == 6);
    assert("converged"@.len() == 9);
    assert("dissensus"@.len() == 9);
    assert("aborted"@.len() == 7);
    assert("pending"@[0] != "aborted"@[0]);
    assert("converged"@[0] != "dissensus"@[0]);
}

/// The stance a graph participant takes; with its name it tells two
/// participants apart.
#[derive(Debug, Clone, Copy, PartialEq, Eq, Structural, Hash)]
pub enum Stance {
    Proposer,
    DevilAdvocate,
    SchemaGuardian,
    PerformanceReviewer,
    SecurityReviewer,
    Neutral,
}

impl Stance {
    /// Canonical wire name.
    pub open spec fn spec_name(self) -> Seq<char> {
        match self {
            Stance::Proposer => "proposer"@,
            Stance::DevilAdvocate => "devil_advocate"@,
            Stance::SchemaGuardian => "schema_guardian"@,
            Stance::PerformanceReviewer => "performance_reviewer"@,
            Stance::SecurityReviewer => "security_reviewer"@,
            Stance::Neutral => "neutral"@,
        }
    }

    /// The value whose wire name is `s`, if any.
    pub open spec fn from_name(s: Seq<char>) -> Option<Stance> {
        if s == "proposer"@ {
            Some(Stance::Proposer)
        } else if s == "devil_advocate"@ {
            Some(Stance::DevilAdvocate)
        } else if s == "schema_guardian"@ {
            Some(Stance::SchemaGuardian)
        } else if s == "performance_reviewer"@ {
            Some(Stance::PerformanceReviewer)
        } else if s == "security_reviewer"@ {
            Some(Stance::SecurityReviewer)
        } else if s == "neutral"@ {
            Some(Stance::Neutral)
        } else {
            None
        }
    }

    pub fn as_str(self) -> (r: &'static str)
        ensures
            r@ == self.spec_name(),
    {
        match self {
            Stance::Proposer => "proposer",
            Stance::DevilAdvocate => "devil_advocate",
            Stance::SchemaGuardian => "schema_guardian",
            Stance::PerformanceReviewer => "performance_reviewer",
            Stance::SecurityReviewer => "security_reviewer",
            Stance::Neutral => "neutral",
        }
    }

    pub fn to_string(&self) -> (r: String)
        ensures
            r@ == self.spec_name(),
    {
        owned(self.as_str())
    }

    pub fn parse(s: &str) -> (r: Result<Stance, DomainError>)
        ensures
            match r {
                Ok(k) => Stance::from_name(s@) == Some(k),
                Err(e) => Stance::from_name(s@) is None && is_validation(e, "unknown stance: "@ + s@),
            },
    {
        if str_eq(s, "proposer") {
            Ok(Stance::Proposer)
        } else if str_eq(s, "devil_advocate") {
            Ok(Stance::DevilAdvocate)
        } else if str_eq(s, "schema_guardian") {
            Ok(Stance::SchemaGuardian)
        } else if str_eq(s, "performance_reviewer") {
            Ok(Stance::PerformanceReviewer)
        } else if str_eq(s, "security_reviewer") {
            Ok(Stance::SecurityReviewer)
        } else if str_eq(s, "neutral") {
            Ok(Stance::Neutral)
        } else {
            Err(validation(concat2("unknown stance: ", s)))
        }
    }
}

impl core::str::FromStr for Stance {
    type Err = DomainError;

    fn from_str(s: &str) -> (r: Result<Stance, DomainError>)
        ensures
            match r {
                Ok(k) => Stance::from_name(s@) == Some(k),
                Err(e) => Stance::from_name(s@) is None && is_validation(e, "unknown stance: "@ + s@),
            },
    {
        Stance::parse(s)
    }
}

/// Every `Stance` parses back from its own wire name, and a name that
/// parses to a value is exactly that value's wire name.
pub proof fn lemma_stance_names(k: Stance, s: Seq<char>)
    ensures
        Stance::from_name(k.spec_name()) == Some(k),
        Stance::from_name(s) == Some(k) ==> s == k.spec_name(),
{
    reveal_strlit("proposer");
    reveal_strlit("devil_advocate");
    reveal_strlit("schema_guardian");
    reveal_strlit("performance_reviewer");
    reveal_strlit("security_reviewer");
    reveal_strlit("neutral");
    assert("proposer"@.len() == 8);
    assert("devil_advocate"@.len() == 14);
    assert("schema_guardian"@.len() == 15);
    assert("performance_reviewer"@.len() == 20);
    assert("security_reviewer"@.len() == 17);
    assert("neutral"@.len() == 7);
}

/// Multi-session resource claim status of a scenario.
#[derive(Debug, Clone, Copy, PartialEq, Eq, Structural)]
pub enum ClaimStatus {
    NoClaim,
    Requested,
    Active,
    Released,
}

impl ClaimStatus {
    /// Canonical wire name.
    pub open spec fn spec_name(self) -> Seq<char> {
        match self {
            ClaimStatus::NoClaim => "none"@,
            ClaimStatus::Requested => "requested"@,
            ClaimStatus::Active => "active"@,
            ClaimStatus::Released => "released"@,
        }
    }

    /// The value whose wire name is `s`, if any.
    pub open spec fn from_name(s: Seq<char>) -> Option<ClaimStatus> {
        if s == "none"@ {
            Some(ClaimStatus::NoClaim)
        } else if s == "requested"@ {
            Some(ClaimStatus::Requested)
        } else if s == "active"@ {
            Some(ClaimStatus::Active)
        } else if s == "released"@ {
            Some(ClaimStatus::Released)
        } else {
            None
        }
    }

    pub fn as_str(self) -> (r: &'static str)
        ensures
            r@ == self.spec_name(),
    {
        match self {
            ClaimStatus::NoClaim => "none",
            ClaimStatus::Requested => "requested",
            ClaimStatus::Active => "active",
            ClaimStatus::Released => "released",
        }
    }

    pub fn to_string(&self) -> (r: String)
        ensures
            r@ == self.spec_name(),
    {
        owned(self.as_str())
    }

    pub fn parse(s: &str) -> (r: Result<ClaimStatus, DomainError>)
        ensures
            match r {
                Ok(k) => ClaimStatus::from_name(s@) == Some(k),
                Err(e) => ClaimStatus::from_name(s@) is None && is_validation(e, "unknown claim_status: "@ + s@),
            },
    {
        if str_eq(s, "none") {
            Ok(ClaimStatus::NoClaim)
        } else if str_eq(s, "requested") {
            Ok(ClaimStatus::Requested)
        } else if str_eq(s, "active") {
            Ok(ClaimStatus::Active)
        } else if str_eq(s, "released") {
            Ok(ClaimStatus::Released)
        } else {
            Err(validation(concat2("unknown claim_status: ", s)))
        }
    }
}

impl core::str::FromStr for ClaimStatus {
    type Err = DomainError;

    fn from_str(s: &str) -> (r: Result<ClaimStatus, DomainError>)
        ensures
            match r {
                Ok(k) => ClaimStatus::from_name(s@) == Some(k),
                Err(e) => ClaimStatus::from_name(s@) is None && is_validation(e, "unknown claim_status: "@ + s@),
            },
    {
        ClaimStatus::parse(s)
    }
}

/// Every `ClaimStatus` parses back from its own wire name, and a name that
/// parses to a value is exactly that value's wire name.
pub proof fn lemma_claim_status_names(k: ClaimStatus, s: Seq<char>)
    ensures
        ClaimStatus::from_name(k.spec_name()) == Some(k),
        ClaimStatus::from_name(s) == Some(k) ==> s == k.spec_name(),
{
    reveal_strlit("none");
    reveal_strlit("requested");
    reveal_strlit("active");
    reveal_strlit("released");
    assert("none"@.len() == 4);
    assert("requested"@.len() == 9);
    assert("active"@.len() == 6);
    assert("released"@.len() == 8);
}

impl PatternLifecycle {
    /// `converged`, `dissensus` and `aborted` end a pattern.
    pub open spec fn spec_is_terminal(self) -> bool {
        self == PatternLifecycle::Converged || self == PatternLifecycle::Dissensus || self
            == PatternLifecycle::Aborted
    }

    pub fn is_terminal(self) -> (r: bool)
        ensures
            r == self.spec_is_terminal(),
    {
        self == PatternLifecycle::Converged || self == PatternLifecycle::Dissensus || self
            == PatternLifecycle::Aborted
    }
}

/// One workflow step: 0-based position, the agent and what it does.
#[derive(Debug, Clone, PartialEq, Eq)]
pub struct PatternStep {
    pub idx: usize,
    pub agent: String,
    pub action: String,
}

/// One participant of a graph; distinctness counts `(name, stance)` pairs.
#[derive(Debug, Clone, PartialEq, Eq, Hash)]
pub struct Reviewer {
    pub name: String,
    pub stance: Stance,
}

/// An agents-as-tools registration: `caller` exposes `callee` as a tool.
#[derive(Debug, Clone, PartialEq, Eq)]
pub struct PeerLink {
    pub caller: String,
    pub callee: String,
}

/// A collaboration pattern row.
#[derive(Debug, Clone)]
pub struct CollaborationPattern {
    pub id: Id,
    pub short_code: String,
    pub plan_id: Id,
    pub kind: PatternKind,
    pub applies_to: AppliesTo,
    pub scope_id: String,
    pub parent_pattern_id: Option<Id>,
    pub depth: i64,
    pub lifecycle: PatternLifecycle,
    pub steps: Option<Vec<PatternStep>>,
    pub reviewers: Option<Vec<Reviewer>>,
    pub fan_out: Option<Vec<String>>,
    pub peer_registration: Option<Vec<PeerLink>>,
    pub decided_at: Option<Timestamp>,
    pub decided_reason: Option<String>,
    pub created_at: Timestamp,
    pub updated_at: Timestamp,
}

/// The identity a participant counts under.
pub open spec fn reviewer_key(r: Reviewer) -> (Seq<char>, Stance) {
    (r.name@, r.stance)
}

pub open spec fn reviewer_keys(rs: Seq<Reviewer>) -> Seq<(Seq<char>, Stance)> {
    rs.map_values(|r: Reviewer| reviewer_key(r))
}

/// Number of distinct `(name, stance)` pairs among the participants.
pub open spec fn spec_distinct_reviewer_count(rs: Seq<Reviewer>) -> nat {
    reviewer_keys(rs).to_set().len()
}

pub open spec fn opt_slice_len<T>(o: Option<&[T]>) -> nat {
    match o {
        Some(s) => s@.len(),
        None => 0,
    }
}

pub open spec fn opt_slice_view<T>(o: Option<&[T]>) -> Seq<T> {
    match o {
        Some(s) => s@,
        None => Seq::empty(),
    }
}

/// The message of the shape rule a manifest breaks, if any.
pub open spec fn spec_shape_violation(
    kind: PatternKind,
    steps: nat,
    reviewers: Seq<Reviewer>,
    fan_out: nat,
    peers: nat,
) -> Option<Seq<char>> {
    match kind {
        PatternKind::Workflow => if steps < 2 {
            Some("workflow shape gate: steps ≥ 2 required (got "@ + nat_decimal(steps) + ")"@)
        } else {
            None
        },
        PatternKind::Graph => if spec_distinct_reviewer_count(reviewers) < 2 {
            Some(
                "graph shape gate: distinct (name, stance) tuples ≥ 2 required (got "@
                    + nat_decimal(spec_distinct_reviewer_count(reviewers)) + ")"@,
            )
        } else {
            None
        },
        PatternKind::Swarm => if fan_out < 2 {
            Some("swarm shape gate: fan_out ≥ 2 required (got "@ + nat_decimal(fan_out) + ")"@)
        } else {
            None
        },
        PatternKind::AgentsAsTools => if peers < 1 {
            Some(
                "agents-as-tools shape gate: peer registration ≥ 1 required (got "@ + nat_decimal(
                    peers,
                ) + ")"@,
            )
        } else {
            None
        },
        PatternKind::Direct => None,
    }
}

/// `head`, the decimal count, then `)`.
fn count_message(head: &str, n: usize) -> (r: String)
    ensures
        r@ == head@ + nat_decimal(n as nat) + ")"@,
{
    let mut s = owned(head);
    push_nat_decimal(&mut s, n as u64);
    s.append(")");
    s
}

/// Number of distinct `(name, stance)` pairs.
pub fn count_distinct_reviewers(rs: &[Reviewer]) -> (n: usize)
    ensures
        n == spec_distinct_reviewer_count(rs@),
{
    let ghost keys = reviewer_keys(rs@);
    let mut seen: Vec<usize> = Vec::new();
    let ghost mut sk: Seq<(Seq<char>, Stance)> = Seq::empty();
    let mut i: usize = 0;
    while i < rs.len()
        invariant
            keys == reviewer_keys(rs@),
            i <= rs@.len(),
            sk.len() == seen@.len(),
            forall|j: int| 0 <= j < seen@.len() ==> (#[trigger] seen@[j]) < rs@.len() && sk[j] == keys[seen@[j] as int],
            sk.no_duplicates(),
            sk.to_set() == keys.take(i as int).to_set(),
        decreases rs@.len() - i,
    {
        let mut found = false;
        let mut j: usize = 0;
        while j < seen.len()
            invariant
                keys == reviewer_keys(rs@),
                i < rs@.len(),
                j <= seen@.len(),
                sk.len() == seen@.len(),
                forall|k: int| 0 <= k < seen@.len() ==> (#[trigger] seen@[k]) < rs@.len() && sk[k] == keys[seen@[k] as int],
                found <==> exists|k: int| 0 <= k < j && sk[k] == keys[i as int],
            decreases seen@.len() - j,
        {
            let r = &rs[seen[j]];
            if r.stance == rs[i].stance && r.name == rs[i].name {
                found = true;
                assert(sk[j as int] == keys[i as int]);
            } else {
                assert(sk[j as int] != keys[i as int]);
            }
            j += 1;
        }
        proof {
            assert(keys.take(i + 1) =~= keys.take(i as int).push(keys[i as int]));
            keys.take(i as int).lemma_push_to_set_commute(keys[i as int]);
        }
        if !found {
            seen.push(i);
            proof {
                let old_sk = sk;
                sk = sk.push(keys[i as int]);
                old_sk.lemma_push_to_set_commute(keys[i as int]);
                assert forall|a: int, b: int| 0 <= a < sk.len() && 0 <= b < sk.len() && a != b implies sk[a] != sk[b] by {
                    if a < old_sk.len() && b < old_sk.len() {
                    } else if a == old_sk.len() {
                        assert(sk[b] == old_sk[b]);
                    } else {
                        assert(sk[a] == old_sk[a]);
                    }
                }
            }
        } else {
            proof {
                let k = choose|k: int| 0 <= k < seen@.len() && sk[k] == keys[i as int];
                assert(sk.to_set().contains(sk[k]));
                assert(sk.to_set().insert(keys[i as int]) =~= sk.to_set());
            }
        }
        i += 1;
    }
    proof {
        sk.unique_seq_to_set();
        assert(keys.take(rs@.len() as int) =~= keys);
    }
    seen.len()
}

/// Shape gate run on `pending → active`. `None` counts as an empty manifest
/// for the kind that owns it; the other manifests are ignored; `direct`
/// always passes.
pub fn validate_pattern_shape(
    kind: PatternKind,
    steps: Option<&[PatternStep]>,
    reviewers: Option<&[Reviewer]>,
    fan_out: Option<&[String]>,
    peers: Option<&[PeerLink]>,
) -> (r: Result<(), DomainError>)
    ensures
        match spec_shape_violation(
            kind,
            opt_slice_len(steps),
            opt_slice_view(reviewers),
            opt_slice_len(fan_out),
            opt_slice_len(peers),
        ) {
            None => r is Ok,
            Some(msg) => r matches Err(e) && is_validation(e, msg),
        },
{
    match kind {
        PatternKind::Workflow => {
            let n = match steps {
                Some(s) => s.len(),
                None => 0,
            };
            if n < 2 {
                return Err(validation(count_message("workflow shape gate: steps ≥ 2 required (got ", n)));
            }
        },
        PatternKind::Graph => {
            let n = match reviewers {
                Some(rs) => count_distinct_reviewers(rs),
                None => {
                    proof {
                        assert(reviewer_keys(Seq::<Reviewer>::empty()).to_set() =~= Set::empty());
                    }
                    0
                },
            };
            if n < 2 {
                return Err(
                    validation(
                        count_message(
                            "graph shape gate: distinct (name, stance) tuples ≥ 2 required (got ",
                            n,
                        ),
                    ),
                );
            }
        },
        PatternKind::Swarm => {
            let n = match fan_out {
                Some(f) => f.len(),
                None => 0,
            };
            if n < 2 {
                return Err(validation(count_message("swarm shape gate: fan_out ≥ 2 required (got ", n)));
            }
        },
        PatternKind::AgentsAsTools => {
            let n = match peers {
                Some(p) => p.len(),
                None => 0,
            };
            if n < 1 {
                return Err(
                    validation(
                        count_message(
                            "agents-as-tools shape gate: peer registration ≥ 1 required (got ",
                            n,
                        ),
                    ),
                );
            }
        },
        PatternKind::Direct => {},
    }
    Ok(())
}

/// Two participants with the same name and the same stance count once
/// towards a graph's shape; the same name with two stances counts twice.
pub proof fn law_graph_gate_counts_name_stance_pairs(a: Reviewer, b: Reviewer)
    ensures
        reviewer_key(a) == reviewer_key(b) ==> spec_distinct_reviewer_count(seq![a, b]) == 1,
        reviewer_key(a) != reviewer_key(b) ==> spec_distinct_reviewer_count(seq![a, b]) == 2,
{
    let ks = reviewer_keys(seq![a, b]);
    assert(ks =~= seq![reviewer_key(a), reviewer_key(b)]);
    if reviewer_key(a) == reviewer_key(b) {
        assert(ks.to_set() =~= set![reviewer_key(a)]);
        assert(set![reviewer_key(a)].len() == 1) by {
            assert(Set::<(Seq<char>, Stance)>::empty().insert(reviewer_key(a)).len() == 1);
        }
    } else {
        assert(ks.no_duplicates());
        ks.unique_seq_to_set();
    }
}

/// A reversal plan: how to undo what a decision applied.
#[derive(Debug, PartialEq)]
pub enum ReversalPlan {
    /// Inverse SQL migration and the migration files it depends on.
    MigrationSql { sql: String, dependencies: Vec<String> },
    /// The commit a `git revert` undoes.
    GitRevert { sha: String },
    /// Filesystem snapshot reference.
    FsSnapshot { snapshot_ref: String },
    /// Compensating action against an external system.
    CompensatingAction { action_spec: Json },
}

/// The message of the rule a reversal plan breaks, if any.
pub open spec fn spec_reversal_plan_violation(p: ReversalPlan) -> Option<Seq<char>> {
    match p {
        ReversalPlan::MigrationSql { sql, .. } => if spec_is_blank(sql@) {
            Some("reversal_plan migration_sql.sql must be non-empty"@)
        } else {
            None
        },
        ReversalPlan::GitRevert { sha } => if spec_is_blank(sha@) {
            Some("reversal_plan git_revert.sha must be non-empty"@)
        } else {
            None
        },
        ReversalPlan::FsSnapshot { snapshot_ref } => if spec_is_blank(snapshot_ref@) {
            Some("reversal_plan fs_snapshot.snapshot_ref must be non-empty"@)
        } else {
            None
        },
        ReversalPlan::CompensatingAction { action_spec } => if action_spec is Null || (
        action_spec matches Json::Object(o) && o@.len() == 0) {
            Some("reversal_plan compensating_action.action_spec must be non-empty"@)
        } else {
            None
        },
    }
}

/// Validate a decoded reversal plan. `parsed` is the decoding of the stored
/// JSON text: the plan, or the decoder's error text.
pub fn validate_reversal_plan_json(parsed: Result<ReversalPlan, String>) -> (r: Result<
    ReversalPlan,
    DomainError,
>)
    ensures
        match parsed {
            Err(e) => r matches Err(x) && is_validation(x, "reversal_plan parse error: "@ + e@),
            Ok(p) => match spec_reversal_plan_violation(p) {
                None => r == Ok::<ReversalPlan, DomainError>(p),
                Some(msg) => r matches Err(x) && is_validation(x, msg),
            },
        },
{
    let plan = match parsed {
        Err(e) => {
            return Err(validation(concat2("reversal_plan parse error: ", e.as_str())));
        },
        Ok(p) => p,
    };
    let bad: Option<&str> = match &plan {
        ReversalPlan::MigrationSql { sql, .. } => if is_blank(sql.as_str()) {
            Some("reversal_plan migration_sql.sql must be non-empty")
        } else {
            None
        },
        ReversalPlan::GitRevert { sha } => if is_blank(sha.as_str()) {
            Some("reversal_plan git_revert.sha must be non-empty")
        } else {
            None
        },
        ReversalPlan::FsSnapshot { snapshot_ref } => if is_blank(snapshot_ref.as_str()) {
            Some("reversal_plan fs_snapshot.snapshot_ref must be non-empty")
        } else {
            None
        },
        ReversalPlan::CompensatingAction { action_spec } => {
            let empty = match action_spec {
                Json::Null => true,
                Json::Object(o) => o.len() == 0,
                _ => false,
            };
            if empty {
                Some("reversal_plan compensating_action.action_spec must be non-empty")
            } else {
                None
            }
        },
    };
    match bad {
        Some(m) => Err(validation(owned(m))),
        None => Ok(plan),
    }
}


/// The shape gate passes exactly when the manifest of the pattern's own
/// kind is big enough: a workflow with at least two steps, a graph with at
/// least two distinct (name, stance) participants, a swarm with a fan-out of
/// at least two, agents-as-tools with at least one peer; `direct` always
/// passes. Only the manifest of the pattern's kind counts.
pub proof fn law_shape_gate(kind: PatternKind, steps: nat, reviewers: Seq<Reviewer>, fan_out: nat, peers: nat)
    ensures
        kind == PatternKind::Workflow ==> (spec_shape_violation(kind, steps, reviewers, fan_out, peers) is None
            <==> steps >= 2),
        kind == PatternKind::Graph ==> (spec_shape_violation(kind, steps, reviewers, fan_out, peers) is None
            <==> spec_distinct_reviewer_count(reviewers) >= 2),
        kind == PatternKind::Swarm ==> (spec_shape_violation(kind, steps, reviewers, fan_out, peers) is None
            <==> fan_out >= 2),
        kind == PatternKind::AgentsAsTools ==> (spec_shape_violation(kind, steps, reviewers, fan_out, peers)
            is None <==> peers >= 1),
        kind == PatternKind::Direct ==> spec_shape_violation(kind, steps, reviewers, fan_out, peers) is None,
{
}

/// Two participants count once when they share both name and stance, and
/// twice when they differ in either.
pub proof fn law_graph_pairs_by_fields(a: Reviewer, b: Reviewer)
    ensures
        (a.name@ == b.name@ && a.stance == b.stance) ==> spec_distinct_reviewer_count(seq![a, b]) == 1,
        !(a.name@ == b.name@ && a.stance == b.stance) ==> spec_distinct_reviewer_count(seq![a, b]) == 2,
{
    law_graph_gate_counts_name_stance_pairs(a, b);
}

/// A pattern's lifecycle is over exactly once it has converged, ended in
/// dissensus or been aborted; `pending` and `active` are not final.
pub proof fn law_terminal_lifecycles(l: PatternLifecycle)
    ensures
        l.spec_is_terminal() <==> (l == PatternLifecycle::Converged || l == PatternLifecycle::Dissensus || l
            == PatternLifecycle::Aborted),
        !PatternLifecycle::Pending.spec_is_terminal(),
        !PatternLifecycle::Active.spec_is_terminal(),
{
}

/// A reversal plan is accepted exactly when what it names is there: a
/// migration's SQL, a revert's commit and a snapshot's reference must not be
/// blank; a compensating action's spec must be neither null nor an empty
/// object.
pub proof fn law_reversal_plan_accepted(p: ReversalPlan)
    ensures
        spec_reversal_plan_violation(p) is None <==> match p {
            ReversalPlan::MigrationSql { sql, .. } => !spec_is_blank(sql@),
            ReversalPlan::GitRevert { sha } => !spec_is_blank(sha@),
            ReversalPlan::FsSnapshot { snapshot_ref } => !spec_is_blank(snapshot_ref@),
            ReversalPlan::CompensatingAction { action_spec } => !(action_spec is Null) && !(action_spec matches Json::Object(
                o,
            ) && o@.len() == 0),
        },
{
}

} // verus!
