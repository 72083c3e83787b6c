//! Agent notes: the append-only blackboard agents use to talk to each other.
use vstd::prelude::*;
use crate::error::{DomainError, is_validation, validation};
use crate::text::{str_eq, owned, concat2, concat3};

use crate::ids::{Id, Timestamp};
use crate::json::Json;
use crate::text::{nat_decimal, push_nat_decimal};

verus! {

/// Anchor kind of a note.
#[derive(Debug, Clone, Copy, PartialEq, Eq, Structural)]
pub enum AgentNoteScope {
    Plan,
    Round,
    Scenario,
    Task,
}

impl AgentNoteScope {
    /// Canonical wire name.
    pub open spec fn spec_name(self) -> Seq<char> {
        match self {
            AgentNoteScope::Plan => "plan"@,
            AgentNoteScope::Round => "round"@,
            AgentNoteScope::Scenario => "scenario"@,
            AgentNoteScope::Task => "task"@,
        }
    }

    /// The value whose wire name is `s`, if any.
    pub open spec fn from_name(s: Seq<char>) -> Option<AgentNoteScope> {
        if s == "plan"@ {
            Some(AgentNoteScope::Plan)
        } else if s == "round"@ {
            Some(AgentNoteScope::Round)
        } else if s == "scenario"@ {
            Some(AgentNoteScope::Scenario)
        } else if s == "task"@ {
            Some(AgentNoteScope::Task)
        } else {
            None
        }
    }

    pub fn as_str(self) -> (r: &'static str)
        ensures
            r@ == self.spec_name(),
    {
        match self {
            AgentNoteScope::Plan => "plan",
            AgentNoteScope::Round => "round",
            AgentNoteScope::Scenario => "scenario",
            AgentNoteScope::Task => "task",
        }
    }

    pub fn to_string(&self) -> (r: String)
        ensures
            r@ == self.spec_name(),
    {
        owned(self.as_str())
    }

    pub fn parse(s: &str) -> (r: Result<AgentNoteScope, DomainError>)
        ensures
            match r {
                Ok(k) => AgentNoteScope::from_name(s@) == Some(k),
                Err(e) => AgentNoteScope::from_name(s@) is None && is_validation(e, "unknown agent_note scope: "@ + s@),
            },
    {
        if str_eq(s, "plan") {
            Ok(AgentNoteScope::Plan)
        } else if str_eq(s, "round") {
            Ok(AgentNoteScope::Round)
        } else if str_eq(s, "scenario") {
            Ok(AgentNoteScope::Scenario)
        } else if str_eq(s, "task") {
            Ok(AgentNoteScope::Task)
        } else {
            Err(validation(concat2("unknown agent_note scope: ", s)))
        }
    }
}

impl core::str::FromStr for AgentNoteScope {
    type Err = DomainError;

    fn from_str(s: &str) -> (r: Result<AgentNoteScope, DomainError>)
        ensures
            match r {
                Ok(k) => AgentNoteScope::from_name(s@) == Some(k),
                Err(e) => AgentNoteScope::from_name(s@) is None && is_validation(e, "unknown agent_note scope: "@ + s@),
            },
    {
        AgentNoteScope::parse(s)
    }
}

/// Every `AgentNoteScope` parses back from its own wire name, and a name that
/// parses to a value is exactly that value's wire name.
pub proof fn lemma_agent_note_scope_names(k: AgentNoteScope, s: Seq<char>)
    ensures
        AgentNoteScope::from_name(k.spec_name()) == Some(k),
        AgentNoteScope::from_name(s) == Some(k) ==> s == k.spec_name(),
{
    reveal_strlit("plan");
    reveal_strlit("round");
    reveal_strlit("scenario");
    reveal_strlit("task");
    assert("plan"@.len() == 4);
    assert("round"@.len() == 5);
    assert("scenario"@.len() == 8);
    assert("task"@.len() == 4);
    assert("plan"@[0] != "task"@[0]);
}

/// Note semantics; only `handoff` needs a recipient.
#[derive(Debug, Clone, Copy, PartialEq, Eq, Structural)]
pub enum AgentNoteKind {
    Hypothesis,
    Observation,
    Question,
    Dissent,
    Evidence,
    Handoff,
}

impl AgentNoteKind {
    /// Canonical wire name.
    pub open spec fn spec_name(self) -> Seq<char> {
        match self {
            AgentNoteKind::Hypothesis => "hypothesis"@,
            AgentNoteKind::Observation => "observation"@,
            AgentNoteKind::Question => "question"@,
            AgentNoteKind::Dissent => "dissent"@,
            AgentNoteKind::Evidence => "evidence"@,
            AgentNoteKind::Handoff => "handoff"@,
        }
    }

    /// The value whose wire name is `s`, if any.
    pub open spec fn from_name(s: Seq<char>) -> Option<AgentNoteKind> {
        if s == "hypothesis"@ {
            Some(AgentNoteKind::Hypothesis)
        } else if s == "observation"@ {
            Some(AgentNoteKind::Observation)
        } else if s == "question"@ {
            Some(AgentNoteKind::Question)
        } else if s == "dissent"@ {
            Some(AgentNoteKind::Dissent)
        } else if s == "evidence"@ {
            Some(AgentNoteKind::Evidence)
        } else if s == "handoff"@ {
            Some(AgentNoteKind::Handoff)
        } else {
            None
        }
    }

    pub fn as_str(self) -> (r: &'static str)
        ensures
            r@ == self.spec_name(),
    {
        match self {
            AgentNoteKind::Hypothesis => "hypothesis",
            AgentNoteKind::Observation => "observation",
            AgentNoteKind::Question => "question",
            AgentNoteKind::Dissent => "dissent",
            AgentNoteKind::Evidence => "evidence",
            AgentNoteKind::Handoff => "handoff",
        }
    }

    pub fn to_string(&self) -> (r: String)
        ensures
            r@ == self.spec_name(),
    {
        owned(self.as_str())
    }

    pub fn parse(s: &str) -> (r: Result<AgentNoteKind, DomainError>)
        ensures
            match r {
                Ok(k) => AgentNoteKind::from_name(s@) == Some(k),
                Err(e) => AgentNoteKind::from_name(s@) is None && is_validation(e, "unknown agent_note kind: "@ + s@),
            },
    {
        if str_eq(s, "hypothesis") {
            Ok(AgentNoteKind::Hypothesis)
        } else if str_eq(s, "observation") {
            Ok(AgentNoteKind::Observation)
        } else if str_eq(s, "question") {
            Ok(AgentNoteKind::Question)
        } else if str_eq(s, "dissent") {
            Ok(AgentNoteKind::Dissent)
        } else if str_eq(s, "evidence") {
            Ok(AgentNoteKind::Evidence)
        } else if str_eq(s, "handoff") {
            Ok(AgentNoteKind::Handoff)
        } else {
            Err(validation(concat2("unknown agent_note kind: ", s)))
        }
    }
}

impl core::str::FromStr for AgentNoteKind {
    type Err = DomainError;

    fn from_str(s: &str) -> (r: Result<AgentNoteKind, DomainError>)
        ensures
            match r {
                Ok(k) => AgentNoteKind::from_name(s@) == Some(k),
                Err(e) => AgentNoteKind::from_name(s@) is None && is_validation(e, "unknown agent_note kind: "@ + s@),
            },
    {
        AgentNoteKind::parse(s)
    }
}

/// Every `AgentNoteKind` parses back from its own wire name, and a name that
/// parses to a value is exactly that value's wire name.
pub proof fn lemma_agent_note_kind_names(k: AgentNoteKind, s: Seq<char>)
    ensures
        AgentNoteKind::from_name(k.spec_name()) == Some(k),
        AgentNoteKind::from_name(s) == Some(k) ==> s == k.spec_name(),
{
    reveal_strlit("hypothesis");
    reveal_strlit("observation");
    reveal_strlit("question");
    reveal_strlit("dissent");
    reveal_strlit("evidence");
    reveal_strlit("handoff");
    assert("hypothesis"@.len() == 10);
    assert("observation"@.len() == 11);
    assert("question"@.len() == 8);
    assert("dissent"@.len() == 7);
    assert("evidence"@.len() == 8);
    assert("handoff"@.len() == 7);
    assert("question"@[0] != "evidence"@[0]);
    assert("dissent"@[0] != "handoff"@[0]);
}

/// A blackboard note. Exactly one of the four anchor ids is set, and it
/// matches `scope_kind`.
#[derive(Debug)]
pub struct AgentNote {
    pub id: Id,
    pub project_id: Id,
    pub plan_id: Option<Id>,
    pub round_id: Option<Id>,
    pub scenario_id: Option<Id>,
    pub task_id: Option<Id>,
    pub scope_kind: AgentNoteScope,
    pub kind: AgentNoteKind,
    pub from_agent: String,
    pub to_agent: Option<String>,
    pub body: String,
    pub payload: Json,
    pub receipt_acknowledged_at: Option<Timestamp>,
    pub retired_at: Option<Timestamp>,
    pub retired_reason: Option<String>,
    pub created_at: Timestamp,
}

/// Number of anchors that are set.
pub open spec fn anchor_count(plan: bool, round: bool, scenario: bool, task: bool) -> nat {
    (if plan { 1nat } else { 0nat }) + (if round { 1nat } else { 0nat }) + (if scenario {
        1nat
    } else {
        0nat
    }) + (if task { 1nat } else { 0nat })
}

/// The anchor required by a scope is set.
pub open spec fn scope_anchor_set(
    scope: AgentNoteScope,
    plan: bool,
    round: bool,
    scenario: bool,
    task: bool,
) -> bool {
    match scope {
        AgentNoteScope::Plan => plan,
        AgentNoteScope::Round => round,
        AgentNoteScope::Scenario => scenario,
        AgentNoteScope::Task => task,
    }
}

/// The message of the anchor rule broken, if any.
pub open spec fn spec_note_anchor_violation(
    scope: AgentNoteScope,
    plan: bool,
    round: bool,
    scenario: bool,
    task: bool,
) -> Option<Seq<char>> {
    let n = anchor_count(plan, round, scenario, task);
    if n != 1 {
        Some("agent_note requires exactly one anchor id, got "@ + nat_decimal(n))
    } else if !scope_anchor_set(scope, plan, round, scenario, task) {
        Some("agent_note anchor id must match scope_kind="@ + scope.spec_name())
    } else {
        None
    }
}

/// A handoff note has a non-empty recipient.
pub open spec fn spec_handoff_ok(kind: AgentNoteKind, to_agent: Option<&str>) -> bool {
    kind == AgentNoteKind::Handoff ==> (to_agent matches Some(t) && t@.len() > 0)
}

impl AgentNote {
    /// Exactly one anchor id is set and it is the one `scope_kind` names.
    pub fn validate_anchor(
        scope_kind: AgentNoteScope,
        plan_id: Option<&Id>,
        round_id: Option<&Id>,
        scenario_id: Option<&Id>,
        task_id: Option<&Id>,
    ) -> (r: Result<(), DomainError>)
        ensures
            match spec_note_anchor_violation(
                scope_kind,
                plan_id is Some,
                round_id is Some,
                scenario_id is Some,
                task_id is Some,
            ) {
                None => r is Ok,
                Some(msg) => r matches Err(e) && is_validation(e, msg),
            },
    {
        let mut bits: usize = 0;
        if plan_id.is_some() {
            bits += 1;
        }
        if round_id.is_some() {
            bits += 1;
        }
        if scenario_id.is_some() {
            bits += 1;
        }
        if task_id.is_some() {
            bits += 1;
        }
        if bits != 1 {
            let mut m = owned("agent_note requires exactly one anchor id, got ");
            push_nat_decimal(&mut m, bits as u64);
            return Err(validation(m));
        }
        let ok = match scope_kind {
            AgentNoteScope::Plan => plan_id.is_some(),
            AgentNoteScope::Round => round_id.is_some(),
            AgentNoteScope::Scenario => scenario_id.is_some(),
            AgentNoteScope::Task => task_id.is_some(),
        };
        if !ok {
            return Err(validation(concat2("agent_note anchor id must match scope_kind=", scope_kind.as_str())));
        }
        Ok(())
    }

    /// A `handoff` note needs a non-empty `to_agent`.
    pub fn validate_handoff(kind: AgentNoteKind, to_agent: Option<&str>) -> (r: Result<(), DomainError>)
        ensures
            spec_handoff_ok(kind, to_agent) ==> r is Ok,
            !spec_handoff_ok(kind, to_agent) ==> (r matches Err(e) && is_validation(
                e,
                "handoff note requires non-empty to_agent"@,
            )),
    {
        let missing = match to_agent {
            Some(t) => t.unicode_len() == 0,
            None => true,
        };
        if kind == AgentNoteKind::Handoff && missing {
            return Err(validation(owned("handoff note requires non-empty to_agent")));
        }
        Ok(())
    }

    /// A note stays on the active blackboard until it is retired.
    pub fn is_active(&self) -> (r: bool)
        ensures
            r == (self.retired_at is None),
    {
        self.retired_at.is_none()
    }
}


/// A note is anchored well exactly when one of its four ids is set and it
/// is the one its scope names; a handoff needs a non-empty recipient, and
/// no other kind of note does.
pub proof fn law_note_rules(
    scope: AgentNoteScope,
    plan: bool,
    round: bool,
    scenario: bool,
    task: bool,
    kind: AgentNoteKind,
    to_agent: Option<&str>,
)
    ensures
        spec_note_anchor_violation(scope, plan, round, scenario, task) is None <==> match scope {
            AgentNoteScope::Plan => plan && !round && !scenario && !task,
            AgentNoteScope::Round => !plan && round && !scenario && !task,
            AgentNoteScope::Scenario => !plan && !round && scenario && !task,
            AgentNoteScope::Task => !plan && !round && !scenario && task,
        },
        kind != AgentNoteKind::Handoff ==> spec_handoff_ok(kind, to_agent),
        kind == AgentNoteKind::Handoff ==> (spec_handoff_ok(kind, to_agent) <==> (to_agent matches Some(t) && t@.len()
            > 0)),
{
}

} // verus!
