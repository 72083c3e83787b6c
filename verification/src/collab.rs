//! Collaboration surface: comments (one anchor each), plan questions, and
//! the activity feed.
use vstd::prelude::*;
use crate::error::{DomainError, is_validation, validation};
use crate::text::{str_eq, owned, concat2, concat3};

use crate::ids::{Id, Timestamp};
use crate::json::Json;
use crate::text::{nat_decimal, push_nat_decimal};
use crate::agent_note::anchor_count;

verus! {

/// Status of a plan question.
#[derive(Debug, Clone, Copy, PartialEq, Eq, Structural)]
pub enum QuestionStatus {
    Open,
    Answered,
}

impl QuestionStatus {
    /// Canonical wire name.
    pub open spec fn spec_name(self) -> Seq<char> {
        match self {
            QuestionStatus::Open => "open"@,
            QuestionStatus::Answered => "answered"@,
        }
    }

    /// The value whose wire name is `s`, if any.
    pub open spec fn from_name(s: Seq<char>) -> Option<QuestionStatus> {
        if s == "open"@ {
            Some(QuestionStatus::Open)
        } else if s == "answered"@ {
            Some(QuestionStatus::Answered)
        } else {
            None
        }
    }

    pub fn as_str(self) -> (r: &'static str)
        ensures
            r@ == self.spec_name(),
    {
        match self {
            QuestionStatus::Open => "open",
            QuestionStatus::Answered => "answered",
        }
    }

    pub fn to_string(&self) -> (r: String)
        ensures
            r@ == self.spec_name(),
    {
        owned(self.as_str())
    }

    pub fn parse(s: &str) -> (r: Result<QuestionStatus, DomainError>)
        ensures
            match r {
                Ok(k) => QuestionStatus::from_name(s@) == Some(k),
                Err(e) => QuestionStatus::from_name(s@) is None && is_validation(e, "unknown question status: "@ + s@),
            },
    {
        if str_eq(s, "open") {
            Ok(QuestionStatus::Open)
        } else if str_eq(s, "answered") {
            Ok(QuestionStatus::Answered)
        } else {
            Err(validation(concat2("unknown question status: ", s)))
        }
    }
}

impl core::str::FromStr for QuestionStatus {
    type Err = DomainError;

    fn from_str(s: &str) -> (r: Result<QuestionStatus, DomainError>)
        ensures
            match r {
                Ok(k) => QuestionStatus::from_name(s@) == Some(k),
                Err(e) => QuestionStatus::from_name(s@) is None && is_validation(e, "unknown question status: "@ + s@),
            },
    {
        QuestionStatus::parse(s)
    }
}

/// Every `QuestionStatus` parses back from its own wire name, and a name that
/// parses to a value is exactly that value's wire name.
pub proof fn lemma_question_status_names(k: QuestionStatus, s: Seq<char>)
    ensures
        QuestionStatus::from_name(k.spec_name()) == Some(k),
        QuestionStatus::from_name(s) == Some(k) ==> s == k.spec_name(),
{
    reveal_strlit("open");
    reveal_strlit("answered");
    assert("open"@.len() == 4);
    assert("answered"@.len() == 8);
}

/// A comment anchored on exactly one of plan, task, scenario or round.
#[derive(Debug, Clone)]
pub struct Comment {
    pub id: Id,
    pub project_id: Id,
    pub plan_id: Option<Id>,
    pub task_id: Option<Id>,
    pub scenario_id: Option<Id>,
    pub round_id: Option<Id>,
    pub author: String,
    pub body: String,
    pub created_at: Timestamp,
    pub updated_at: Timestamp,
}

/// What a comment is attached to.
#[derive(Debug, Clone, Copy, PartialEq, Eq, Structural)]
pub enum CommentAnchor {
    Plan,
    Task,
    Scenario,
    Round,
}

impl Comment {
    /// The anchor a well-formed comment has.
    pub open spec fn spec_anchor(self) -> Result<CommentAnchor, Seq<char>> {
        let n = anchor_count(
            self.plan_id is Some,
            self.task_id is Some,
            self.scenario_id is Some,
            self.round_id is Some,
        );
        if n != 1 {
            Err(
                "comment must anchor on exactly one of plan|task|scenario|round (got "@
                    + nat_decimal(n) + ")"@,
            )
        } else if self.plan_id is Some {
            Ok(CommentAnchor::Plan)
        } else if self.task_id is Some {
            Ok(CommentAnchor::Task)
        } else if self.scenario_id is Some {
            Ok(CommentAnchor::Scenario)
        } else {
            Ok(CommentAnchor::Round)
        }
    }

    /// Exactly one anchor is set; returns which.
    pub fn validate_anchor(&self) -> (r: Result<CommentAnchor, DomainError>)
        ensures
            match self.spec_anchor() {
                Ok(a) => r == Ok::<CommentAnchor, DomainError>(a),
                Err(msg) => r matches Err(e) && is_validation(e, msg),
            },
    {
        let mut count: usize = 0;
        if self.plan_id.is_some() {
            count += 1;
        }
        if self.task_id.is_some() {
            count += 1;
        }
        if self.scenario_id.is_some() {
            count += 1;
        }
        if self.round_id.is_some() {
            count += 1;
        }
        if count != 1 {
            let mut m = owned("comment must anchor on exactly one of plan|task|scenario|round (got ");
            push_nat_decimal(&mut m, count as u64);
            m.append(")");
            return Err(validation(m));
        }
        if self.plan_id.is_some() {
            Ok(CommentAnchor::Plan)
        } else if self.task_id.is_some() {
            Ok(CommentAnchor::Task)
        } else if self.scenario_id.is_some() {
            Ok(CommentAnchor::Scenario)
        } else {
            Ok(CommentAnchor::Round)
        }
    }
}

/// A single-answer question on a plan.
#[derive(Debug, Clone)]
pub struct Question {
    pub id: Id,
    pub plan_id: Id,
    pub asker: String,
    pub body: String,
    pub answer: Option<String>,
    pub answered_by: Option<String>,
    pub answered_at: Option<Timestamp>,
    pub status: QuestionStatus,
    pub created_at: Timestamp,
    pub updated_at: Timestamp,
}

/// An entry of the append-only activity feed.
#[derive(Debug)]
pub struct Activity {
    pub id: Id,
    pub project_id: Id,
    pub actor: String,
    pub kind: String,
    pub entity_id: Option<Id>,
    pub summary: String,
    pub payload: Json,
    pub created_at: Timestamp,
}


/// A comment is anchored exactly when one of plan, task, scenario and round
/// is set, and its anchor is the one that is set.
pub proof fn law_comment_anchor(c: Comment)
    ensures
        c.spec_anchor() == Ok::<CommentAnchor, Seq<char>>(CommentAnchor::Plan) <==> (c.plan_id is Some && c.task_id is None
            && c.scenario_id is None && c.round_id is None),
        c.spec_anchor() == Ok::<CommentAnchor, Seq<char>>(CommentAnchor::Task) <==> (c.plan_id is None && c.task_id is Some
            && c.scenario_id is None && c.round_id is None),
        c.spec_anchor() == Ok::<CommentAnchor, Seq<char>>(CommentAnchor::Scenario) <==> (c.plan_id is None && c.task_id
            is None && c.scenario_id is Some && c.round_id is None),
        c.spec_anchor() == Ok::<CommentAnchor, Seq<char>>(CommentAnchor::Round) <==> (c.plan_id is None && c.task_id
            is None && c.scenario_id is None && c.round_id is Some),
{
}

} // verus!
