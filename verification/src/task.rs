//! Tasks: status transitions and the evidence gate on `done`.
use vstd::prelude::*;
use crate::error::{DomainError, is_validation, validation};
use crate::text::{str_eq, owned, concat2, concat3};

use crate::ids::{Id, Timestamp};
use crate::scenario::ScenarioResult;
use crate::error::is_invalid_transition;
use crate::text::{spec_is_blank, is_blank};
use std::collections::BTreeMap;

verus! {

/// Task status.
#[derive(Debug, Clone, Copy, PartialEq, Eq, Structural)]
pub enum TaskStatus {
    Todo,
    InProgress,
    Done,
    Cancelled,
    Blocked,
}

impl TaskStatus {
    /// Canonical wire name.
    pub open spec fn spec_name(self) -> Seq<char> {
        match self {
            TaskStatus::Todo => "todo"@,
            TaskStatus::InProgress => "in_progress"@,
            TaskStatus::Done => "done"@,
            TaskStatus::Cancelled => "cancelled"@,
            TaskStatus::Blocked => "blocked"@,
        }
    }

    /// The value whose wire name is `s`, if any.
    pub open spec fn from_name(s: Seq<char>) -> Option<TaskStatus> {
        if s == "todo"@ {
            Some(TaskStatus::Todo)
        } else if s == "in_progress"@ {
            Some(TaskStatus::InProgress)
        } else if s == "done"@ {
            Some(TaskStatus::Done)
        } else if s == "cancelled"@ {
            Some(TaskStatus::Cancelled)
        } else if s == "blocked"@ {
            Some(TaskStatus::Blocked)
        } else {
            None
        }
    }

    pub fn as_str(self) -> (r: &'static str)
        ensures
            r@ == self.spec_name(),
    {
        match self {
            TaskStatus::Todo => "todo",
            TaskStatus::InProgress => "in_progress",
            TaskStatus::Done => "done",
            TaskStatus::Cancelled => "cancelled",
            TaskStatus::Blocked => "blocked",
        }
    }

    pub fn to_string(&self) -> (r: String)
        ensures
            r@ == self.spec_name(),
    {
        owned(self.as_str())
    }

    pub fn parse(s: &str) -> (r: Result<TaskStatus, DomainError>)
        ensures
            match r {
                Ok(k) => TaskStatus::from_name(s@) == Some(k),
                Err(e) => TaskStatus::from_name(s@) is None && is_validation(e, "unknown task status: "@ + s@),
            },
    {
        if str_eq(s, "todo") {
            Ok(TaskStatus::Todo)
        } else if str_eq(s, "in_progress") {
            Ok(TaskStatus::InProgress)
        } else if str_eq(s, "done") {
            Ok(TaskStatus::Done)
        } else if str_eq(s, "cancelled") {
            Ok(TaskStatus::Cancelled)
        } else if str_eq(s, "blocked") {
            Ok(TaskStatus::Blocked)
        } else {
            Err(validation(concat2("unknown task status: ", s)))
        }
    }
}

impl core::str::FromStr for TaskStatus {
    type Err = DomainError;

    fn from_str(s: &str) -> (r: Result<TaskStatus, DomainError>)
        ensures
            match r {
                Ok(k) => TaskStatus::from_name(s@) == Some(k),
                Err(e) => TaskStatus::from_name(s@) is None && is_validation(e, "unknown task status: "@ + s@),
            },
    {
        TaskStatus::parse(s)
    }
}

/// Every `TaskStatus` parses back from its own wire name, and a name that
/// parses to a value is exactly that value's wire name.
pub proof fn lemma_task_status_names(k: TaskStatus, s: Seq<char>)
    ensures
        TaskStatus::from_name(k.spec_name()) == Some(k),
        TaskStatus::from_name(s) == Some(k) ==> s == k.spec_name(),
{
    reveal_strlit("todo");
    reveal_strlit("in_progress");
    reveal_strlit("done");
    reveal_strlit("cancelled");
    reveal_strlit("blocked");
    assert("todo"@.len() == 4);
    assert("in_progress"@.len() == 11);
    assert("done"@.len() == 4);
    assert("cancelled"@.len() == 9);
    assert("blocked"@.len() == 7);
    assert("todo"@[0] != "done"@[0]);
}

/// One scenario's verdict and a pointer to its evidence.
#[derive(Debug, Clone)]
pub struct ScenarioEvidence {
    pub scenario_id: Id,
    pub result: ScenarioResult,
    pub evidence_ref: String,
    pub note: Option<String>,
}

/// Structured evidence, required to finish a task.
#[derive(Debug, Clone)]
pub struct TaskEvidence {
    pub scenarios: Vec<ScenarioEvidence>,
    pub summary: Option<String>,
    pub extras: BTreeMap<String, String>,
}

impl core::default::Default for TaskEvidence {
    fn default() -> (r: TaskEvidence)
        ensures
            r.scenarios@.len() == 0,
            r.summary is None,
            r.extras@.is_empty(),
    {
        let extras: BTreeMap<String, String> = BTreeMap::new();
        TaskEvidence { scenarios: Vec::new(), summary: None, extras }
    }
}

/// Index of the first scenario entry whose evidence reference is blank.
pub open spec fn spec_first_blank_ref(entries: Seq<ScenarioEvidence>) -> Option<int>
    decreases entries.len(),
{
    if entries.len() == 0 {
        None
    } else if spec_is_blank(entries[0].evidence_ref@) {
        Some(0)
    } else {
        match spec_first_blank_ref(entries.drop_first()) {
            Some(i) => Some(i + 1),
            None => None,
        }
    }
}

/// What the evidence gate answers.
pub enum EvidenceVerdict {
    Accept,
    Required,
    BlankRef(Seq<char>),
}

impl TaskEvidence {
    pub open spec fn spec_is_empty(self) -> bool {
        self.scenarios@.len() == 0 && self.summary is None && self.extras@.is_empty()
    }

    /// The verdict of the evidence gate.
    pub open spec fn spec_verdict(self) -> EvidenceVerdict {
        if self.scenarios@.len() == 0 {
            EvidenceVerdict::Required
        } else {
            match spec_first_blank_ref(self.scenarios@) {
                Some(i) => EvidenceVerdict::BlankRef(self.scenarios@[i].scenario_id@),
                None => EvidenceVerdict::Accept,
            }
        }
    }

    /// No scenario entries, no summary and no extras.
    pub fn is_empty(&self) -> (r: bool)
        ensures
            r == self.spec_is_empty(),
    {
        self.scenarios.len() == 0 && self.summary.is_none() && self.extras.is_empty()
    }

    /// Evidence for `done` covers at least one scenario, and every scenario
    /// entry has a non-blank reference; a summary or extras alone are not
    /// evidence.
    pub fn validate_for_done(&self) -> (r: Result<(), DomainError>)
        ensures
            match self.spec_verdict() {
                EvidenceVerdict::Accept => r is Ok,
                EvidenceVerdict::Required => r == Err::<(), DomainError>(DomainError::EvidenceRequired),
                EvidenceVerdict::BlankRef(sid) => r matches Err(e) && is_validation(
                    e,
                    "evidence_ref empty for scenario "@ + sid,
                ),
            },
    {
        if self.scenarios.len() == 0 {
            return Err(DomainError::EvidenceRequired);
        }
        let mut i: usize = 0;
        assert(self.scenarios@.subrange(0, self.scenarios@.len() as int) =~= self.scenarios@);
        while i < self.scenarios.len()
            invariant
                i <= self.scenarios@.len(),
                spec_first_blank_ref(self.scenarios@) == match spec_first_blank_ref(
                    self.scenarios@.subrange(i as int, self.scenarios@.len() as int),
                ) {
                    Some(j) => Some(j + i),
                    None => None,
                },
            decreases self.scenarios@.len() - i,
        {
            let ghost rest = self.scenarios@.subrange(i as int, self.scenarios@.len() as int);
            assert(rest.drop_first() =~= self.scenarios@.subrange(i + 1, self.scenarios@.len() as int));
            let entry = &self.scenarios[i];
            if is_blank(entry.evidence_ref.as_str()) {
                return Err(
                    validation(concat2("evidence_ref empty for scenario ", entry.scenario_id.as_str())),
                );
            }
            i += 1;
        }
        Ok(())
    }
}

/// A runtime task.
#[derive(Debug, Clone)]
pub struct Task {
    pub id: Id,
    pub round_id: Id,
    pub short_code: String,
    pub description: String,
    pub status: TaskStatus,
    pub parent_scenario_ids: Vec<Id>,
    pub parent_requirement_ids: Vec<Id>,
    pub evidence: Option<TaskEvidence>,
    pub created_at: Timestamp,
    pub updated_at: Timestamp,
    pub evidence_at: Option<Timestamp>,
}

/// The allowed status moves.
pub open spec fn spec_transition_allowed(from: TaskStatus, to: TaskStatus) -> bool {
    match (from, to) {
        (TaskStatus::Todo, TaskStatus::InProgress) => true,
        (TaskStatus::Todo, TaskStatus::Cancelled) => true,
        (TaskStatus::Todo, TaskStatus::Blocked) => true,
        (TaskStatus::InProgress, TaskStatus::Done) => true,
        (TaskStatus::InProgress, TaskStatus::Cancelled) => true,
        (TaskStatus::InProgress, TaskStatus::Blocked) => true,
        (TaskStatus::Blocked, TaskStatus::Todo) => true,
        (TaskStatus::Blocked, TaskStatus::InProgress) => true,
        (TaskStatus::Blocked, TaskStatus::Cancelled) => true,
        _ => false,
    }
}

pub fn transition_allowed(from: TaskStatus, to: TaskStatus) -> (r: bool)
    ensures
        r == spec_transition_allowed(from, to),
{
    match (from, to) {
        (TaskStatus::Todo, TaskStatus::InProgress) => true,
        (TaskStatus::Todo, TaskStatus::Cancelled) => true,
        (TaskStatus::Todo, TaskStatus::Blocked) => true,
        (TaskStatus::InProgress, TaskStatus::Done) => true,
        (TaskStatus::InProgress, TaskStatus::Cancelled) => true,
        (TaskStatus::InProgress, TaskStatus::Blocked) => true,
        (TaskStatus::Blocked, TaskStatus::Todo) => true,
        (TaskStatus::Blocked, TaskStatus::InProgress) => true,
        (TaskStatus::Blocked, TaskStatus::Cancelled) => true,
        _ => false,
    }
}

pub open spec fn opt_evidence(o: Option<&TaskEvidence>) -> Option<TaskEvidence> {
    match o {
        Some(e) => Some(*e),
        None => None,
    }
}

impl Task {
    /// Check a status move; `done` also needs valid evidence.
    pub fn check_transition(&self, target: TaskStatus, evidence: Option<&TaskEvidence>) -> (r: Result<(), DomainError>)
        ensures
            !spec_transition_allowed(self.status, target) ==> (r matches Err(e) && is_invalid_transition(
                e,
                "task"@,
                self.status.spec_name(),
                target.spec_name(),
            )),
            spec_transition_allowed(self.status, target) && target != TaskStatus::Done ==> r is Ok,
            spec_transition_allowed(self.status, target) && target == TaskStatus::Done ==> match opt_evidence(evidence) {
                None => r == Err::<(), DomainError>(DomainError::EvidenceRequired),
                Some(ev) => match ev.spec_verdict() {
                    EvidenceVerdict::Accept => r is Ok,
                    EvidenceVerdict::Required => r == Err::<(), DomainError>(DomainError::EvidenceRequired),
                    EvidenceVerdict::BlankRef(sid) => r matches Err(e) && is_validation(
                        e,
                        "evidence_ref empty for scenario "@ + sid,
                    ),
                },
            },
    {
        if !transition_allowed(self.status, target) {
            return Err(
                DomainError::InvalidTransition {
                    entity: owned("task"),
                    from: self.status.to_string(),
                    to: target.to_string(),
                },
            );
        }
        if target == TaskStatus::Done {
            match evidence {
                None => {
                    return Err(DomainError::EvidenceRequired);
                },
                Some(ev) => {
                    ev.validate_for_done()?;
                },
            }
        }
        Ok(())
    }
}

/// Task lifecycle: `done` and `cancelled` are final, `done` is reached only
/// from `in_progress`, and no status moves to itself.
pub proof fn law_task_lifecycle(from: TaskStatus, to: TaskStatus)
    ensures
        from == TaskStatus::Done ==> !spec_transition_allowed(from, to),
        from == TaskStatus::Cancelled ==> !spec_transition_allowed(from, to),
        to == TaskStatus::Done && spec_transition_allowed(from, to) ==> from == TaskStatus::InProgress,
        !spec_transition_allowed(from, from),
        spec_transition_allowed(from, to) ==> to != TaskStatus::Todo || from == TaskStatus::Blocked,
{
}


/// The moves a task may make are exactly these: from `todo` to
/// `in_progress`, `cancelled` or `blocked`; from `in_progress` to `done`,
/// `cancelled` or `blocked`; from `blocked` to `todo`, `in_progress` or
/// `cancelled`. So every status that is not final may be cancelled.
pub proof fn law_task_moves(from: TaskStatus, to: TaskStatus)
    ensures
        spec_transition_allowed(from, to) <==> (
            (from == TaskStatus::Todo && (to == TaskStatus::InProgress || to == TaskStatus::Cancelled
                || to == TaskStatus::Blocked))
            || (from == TaskStatus::InProgress && (to == TaskStatus::Done || to == TaskStatus::Cancelled
                || to == TaskStatus::Blocked))
            || (from == TaskStatus::Blocked && (to == TaskStatus::Todo || to == TaskStatus::InProgress
                || to == TaskStatus::Cancelled))),
        from != TaskStatus::Done && from != TaskStatus::Cancelled ==> spec_transition_allowed(
            from,
            TaskStatus::Cancelled,
        ),
{
}

/// The evidence gate: evidence is accepted exactly when it covers at least
/// one scenario and every scenario entry has a non-blank reference; a
/// summary or extras do not make up for missing scenario entries.
pub proof fn law_evidence_gate(ev: TaskEvidence)
    ensures
        ev.spec_verdict() is Accept <==> (ev.scenarios@.len() > 0 && forall|i: int| 0 <= i < ev.scenarios@.len()
            ==> !spec_is_blank(#[trigger] ev.scenarios@[i].evidence_ref@)),
        ev.scenarios@.len() == 0 ==> ev.spec_verdict() is Required,
{
    lemma_first_blank_ref(ev.scenarios@);
}

proof fn lemma_first_blank_ref(s: Seq<ScenarioEvidence>)
    ensures
        spec_first_blank_ref(s) is None <==> forall|i: int| 0 <= i < s.len() ==> !spec_is_blank(#[trigger] s[i].evidence_ref@),
        spec_first_blank_ref(s) matches Some(i) ==> 0 <= i < s.len(),
    decreases s.len(),
{
    if s.len() > 0 {
        lemma_first_blank_ref(s.drop_first());
        if spec_first_blank_ref(s) is None {
            assert forall|i: int| 0 <= i < s.len() implies !spec_is_blank(#[trigger] s[i].evidence_ref@) by {
                if i > 0 {
                    assert(s.drop_first()[i - 1] == s[i]);
                }
            }
        } else if !spec_is_blank(s[0].evidence_ref@) {
            let k = choose|k: int| 0 <= k < s.drop_first().len() && spec_is_blank(#[trigger] s.drop_first()[k].evidence_ref@);
            assert(s[k + 1] == s.drop_first()[k]);
        }
    }
}

} // verus!
