//! Task runtime entities: runs (execution attempts), task relations and
//! leases.
use vstd::prelude::*;
use crate::error::{DomainError, is_validation, validation};
use crate::text::{str_eq, owned, concat2, concat3};

use crate::ids::{Id, Timestamp};
use crate::json::Json;

verus! {

/// Outcome of a run.
#[derive(Debug, Clone, Copy, PartialEq, Eq, Structural)]
pub enum RunResult {
    Success,
    Failure,
    Aborted,
}

impl RunResult {
    /// Canonical wire name.
    pub open spec fn spec_name(self) -> Seq<char> {
        match self {
            RunResult::Success => "success"@,
            RunResult::Failure => "failure"@,
            RunResult::Aborted => "aborted"@,
        }
    }

    /// The value whose wire name is `s`, if any.
    pub open spec fn from_name(s: Seq<char>) -> Option<RunResult> {
        if s == "success"@ {
            Some(RunResult::Success)
        } else if s == "failure"@ {
            Some(RunResult::Failure)
        } else if s == "aborted"@ {
            Some(RunResult::Aborted)
        } else {
            None
        }
    }

    pub fn as_str(self) -> (r: &'static str)
        ensures
            r@ == self.spec_name(),
    {
        match self {
            RunResult::Success => "success",
            RunResult::Failure => "failure",
            RunResult::Aborted => "aborted",
        }
    }

    pub fn to_string(&self) -> (r: String)
        ensures
            r@ == self.spec_name(),
    {
        owned(self.as_str())
    }

    pub fn parse(s: &str) -> (r: Result<RunResult, DomainError>)
        ensures
            match r {
                Ok(k) => RunResult::from_name(s@) == Some(k),
                Err(e) => RunResult::from_name(s@) is None && is_validation(e, "unknown run result: "@ + s@),
            },
    {
        if str_eq(s, "success") {
            Ok(RunResult::Success)
        } else if str_eq(s, "failure") {
            Ok(RunResult::Failure)
        } else if str_eq(s, "aborted") {
            Ok(RunResult::Aborted)
        } else {
            Err(validation(concat2("unknown run result: ", s)))
        }
    }
}

impl core::str::FromStr for RunResult {
    type Err = DomainError;

    fn from_str(s: &str) -> (r: Result<RunResult, DomainError>)
        ensures
            match r {
                Ok(k) => RunResult::from_name(s@) == Some(k),
                Err(e) => RunResult::from_name(s@) is None && is_validation(e, "unknown run result: "@ + s@),
            },
    {
        RunResult::parse(s)
    }
}

/// Every `RunResult` parses back from its own wire name, and a name that
/// parses to a value is exactly that value's wire name.
pub proof fn lemma_run_result_names(k: RunResult, s: Seq<char>)
    ensures
        RunResult::from_name(k.spec_name()) == Some(k),
        RunResult::from_name(s) == Some(k) ==> s == k.spec_name(),
{
    reveal_strlit("success");
    reveal_strlit("failure");
    reveal_strlit("aborted");
    assert("success"@.len() == 7);
    assert("failure"@.len() == 7);
    assert("aborted"@.len() == 7);
    assert("success"@[0] != "failure"@[0]);
    assert("success"@[0] != "aborted"@[0]);
    assert("failure"@[0] != "aborted"@[0]);
}

/// Kind of link between two tasks.
#[derive(Debug, Clone, Copy, PartialEq, Eq, Structural)]
pub enum RelationKind {
    Parent,
    Blocks,
    DependsOn,
    Duplicates,
    Related,
}

impl RelationKind {
    /// Canonical wire name.
    pub open spec fn spec_name(self) -> Seq<char> {
        match self {
            RelationKind::Parent => "parent"@,
            RelationKind::Blocks => "blocks"@,
            RelationKind::DependsOn => "depends-on"@,
            RelationKind::Duplicates => "duplicates"@,
            RelationKind::Related => "related"@,
        }
    }

    /// The value whose wire name is `s`, if any.
    pub open spec fn from_name(s: Seq<char>) -> Option<RelationKind> {
        if s == "parent"@ {
            Some(RelationKind::Parent)
        } else if s == "blocks"@ {
            Some(RelationKind::Blocks)
        } else if s == "depends-on"@ {
            Some(RelationKind::DependsOn)
        } else if s == "duplicates"@ {
            Some(RelationKind::Duplicates)
        } else if s == "related"@ {
            Some(RelationKind::Related)
        } else {
            None
        }
    }

    pub fn as_str(self) -> (r: &'static str)
        ensures
            r@ == self.spec_name(),
    {
        match self {
            RelationKind::Parent => "parent",
            RelationKind::Blocks => "blocks",
            RelationKind::DependsOn => "depends-on",
            RelationKind::Duplicates => "duplicates",
            RelationKind::Related => "related",
        }
    }

    pub fn to_string(&self) -> (r: String)
        ensures
            r@ == self.spec_name(),
    {
        owned(self.as_str())
    }

    pub fn parse(s: &str) -> (r: Result<RelationKind, DomainError>)
        ensures
            match r {
                Ok(k) => RelationKind::from_name(s@) == Some(k),
                Err(e) => RelationKind::from_name(s@) is None && is_validation(e, "unknown relation kind: "@ + s@),
            },
    {
        if str_eq(s, "parent") {
            Ok(RelationKind::Parent)
        } else if str_eq(s, "blocks") {
            Ok(RelationKind::Blocks)
        } else if str_eq(s, "depends-on") {
            Ok(RelationKind::DependsOn)
        } else if str_eq(s, "duplicates") {
            Ok(RelationKind::Duplicates)
        } else if str_eq(s, "related") {
            Ok(RelationKind::Related)
        } else {
            Err(validation(concat2("unknown relation kind: ", s)))
        }
    }
}

impl core::str::FromStr for RelationKind {
    type Err = DomainError;

    fn from_str(s: &str) -> (r: Result<RelationKind, DomainError>)
        ensures
            match r {
                Ok(k) => RelationKind::from_name(s@) == Some(k),
                Err(e) => RelationKind::from_name(s@) is None && is_validation(e, "unknown relation kind: "@ + s@),
            },
    {
        RelationKind::parse(s)
    }
}

/// Every `RelationKind` parses back from its own wire name, and a name that
/// parses to a value is exactly that value's wire name.
pub proof fn lemma_relation_kind_names(k: RelationKind, s: Seq<char>)
    ensures
        RelationKind::from_name(k.spec_name()) == Some(k),
        RelationKind::from_name(s) == Some(k) ==> s == k.spec_name(),
{
    reveal_strlit("parent");
    reveal_strlit("blocks");
    reveal_strlit("depends-on");
    reveal_strlit("duplicates");
    reveal_strlit("related");
    assert("parent"@.len() == 6);
    assert("blocks"@.len() == 6);
    assert("depends-on"@.len() == 10);
    assert("duplicates"@.len() == 10);
    assert("related"@.len() == 7);
    assert("parent"@[0] != "blocks"@[0]);
    assert("depends-on"@[1] != "duplicates"@[1]);
}

/// One execution attempt of a task.
#[derive(Debug)]
pub struct Run {
    pub id: Id,
    pub task_id: Id,
    pub actor: String,
    pub session_id: Option<String>,
    pub started_at: Timestamp,
    pub finished_at: Option<Timestamp>,
    pub result: Option<RunResult>,
    pub notes: Option<String>,
    pub payload: Json,
}

/// A link between two tasks.
#[derive(Debug, Clone)]
pub struct TaskRelation {
    pub id: Id,
    pub parent_id: Id,
    pub child_id: Id,
    pub kind: RelationKind,
    pub created_at: Timestamp,
}

/// A single-writer lease on a task.
#[derive(Debug, Clone)]
pub struct TaskLease {
    pub task_id: Id,
    pub holder: String,
    pub acquired_at: Timestamp,
    pub heartbeat_at: Timestamp,
    pub expires_at: Timestamp,
}


} // verus!
