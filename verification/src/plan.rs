//! Plans: draft → active → completed, with the approve gate.
use vstd::prelude::*;
use crate::error::{DomainError, is_validation, validation};
use crate::text::{str_eq, owned, concat2, concat3};

use crate::ids::{Id, Timestamp};
use crate::error::is_invalid_transition;

verus! {

/// Plan lifecycle status.
#[derive(Debug, Clone, Copy, PartialEq, Eq, Structural)]
pub enum PlanStatus {
    Draft,
    Active,
    Completed,
}

impl PlanStatus {
    /// Canonical wire name.
    pub open spec fn spec_name(self) -> Seq<char> {
        match self {
            PlanStatus::Draft => "draft"@,
            PlanStatus::Active => "active"@,
            PlanStatus::Completed => "completed"@,
        }
    }

    /// The value whose wire name is `s`, if any.
    pub open spec fn from_name(s: Seq<char>) -> Option<PlanStatus> {
        if s == "draft"@ {
            Some(PlanStatus::Draft)
        } else if s == "active"@ {
            Some(PlanStatus::Active)
        } else if s == "completed"@ {
            Some(PlanStatus::Completed)
        } else {
            None
        }
    }

    pub fn as_str(self) -> (r: &'static str)
        ensures
            r@ == self.spec_name(),
    {
        match self {
            PlanStatus::Draft => "draft",
            PlanStatus::Active => "active",
            PlanStatus::Completed => "completed",
        }
    }

    pub fn to_string(&self) -> (r: String)
        ensures
            r@ == self.spec_name(),
    {
        owned(self.as_str())
    }

    pub fn parse(s: &str) -> (r: Result<PlanStatus, DomainError>)
        ensures
            match r {
                Ok(k) => PlanStatus::from_name(s@) == Some(k),
                Err(e) => PlanStatus::from_name(s@) is None && is_validation(e, "unknown plan status: "@ + s@),
            },
    {
        if str_eq(s, "draft") {
            Ok(PlanStatus::Draft)
        } else if str_eq(s, "active") {
            Ok(PlanStatus::Active)
        } else if str_eq(s, "completed") {
            Ok(PlanStatus::Completed)
        } else {
            Err(validation(concat2("unknown plan status: ", s)))
        }
    }
}

impl core::str::FromStr for PlanStatus {
    type Err = DomainError;

    fn from_str(s: &str) -> (r: Result<PlanStatus, DomainError>)
        ensures
            match r {
                Ok(k) => PlanStatus::from_name(s@) == Some(k),
                Err(e) => PlanStatus::from_name(s@) is None && is_validation(e, "unknown plan status: "@ + s@),
            },
    {
        PlanStatus::parse(s)
    }
}

/// Every `PlanStatus` parses back from its own wire name, and a name that
/// parses to a value is exactly that value's wire name.
pub proof fn lemma_plan_status_names(k: PlanStatus, s: Seq<char>)
    ensures
        PlanStatus::from_name(k.spec_name()) == Some(k),
        PlanStatus::from_name(s) == Some(k) ==> s == k.spec_name(),
{
    reveal_strlit("draft");
    reveal_strlit("active");
    reveal_strlit("completed");
    assert("draft"@.len() == 5);
    assert("active"@.len() == 6);
    assert("completed"@.len() == 9);
}

/// A plan; its body is a snapshot overwritten in place.
#[derive(Debug, Clone)]
pub struct Plan {
    pub id: Id,
    pub project_id: Id,
    pub short_code: String,
    pub title: String,
    pub body: String,
    pub status: PlanStatus,
    pub version: i64,
    pub created_at: Timestamp,
    pub updated_at: Timestamp,
    pub approved_at: Option<Timestamp>,
    pub completed_at: Option<Timestamp>,
}

impl Plan {
    /// Approve gate: the plan is a draft and has a confirmed scenario.
    pub fn check_can_approve(&self, has_confirmed_scenarios: bool) -> (r: Result<(), DomainError>)
        ensures
            self.status != PlanStatus::Draft ==> (r matches Err(e) && is_invalid_transition(
                e,
                "plan"@,
                self.status.spec_name(),
                "active"@,
            )),
            self.status == PlanStatus::Draft && !has_confirmed_scenarios ==> r
                == Err::<(), DomainError>(DomainError::ScenariosRequired),
            self.status == PlanStatus::Draft && has_confirmed_scenarios ==> r is Ok,
    {
        if self.status != PlanStatus::Draft {
            return Err(
                DomainError::InvalidTransition {
                    entity: owned("plan"),
                    from: self.status.to_string(),
                    to: owned("active"),
                },
            );
        }
        if !has_confirmed_scenarios {
            return Err(DomainError::ScenariosRequired);
        }
        Ok(())
    }

    /// Only an active plan completes.
    pub fn check_can_complete(&self) -> (r: Result<(), DomainError>)
        ensures
            self.status == PlanStatus::Active ==> r is Ok,
            self.status != PlanStatus::Active ==> (r matches Err(e) && is_invalid_transition(
                e,
                "plan"@,
                self.status.spec_name(),
                "completed"@,
            )),
    {
        if self.status != PlanStatus::Active {
            return Err(
                DomainError::InvalidTransition {
                    entity: owned("plan"),
                    from: self.status.to_string(),
                    to: owned("completed"),
                },
            );
        }
        Ok(())
    }
}


} // verus!
