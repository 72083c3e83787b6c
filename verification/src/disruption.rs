//! Disruption reviews: impacted scenarios a human must resolve before a round
//! can activate.
use vstd::prelude::*;
use crate::error::{DomainError, is_validation, validation};
use crate::text::{str_eq, owned, concat2, concat3};

use crate::ids::{Id, Timestamp};

verus! {

/// What triggered the review.
#[derive(Debug, Clone, Copy, PartialEq, Eq, Structural)]
pub enum DisruptionSource {
    Scenario,
    Requirement,
    Decision,
}

impl DisruptionSource {
    /// Canonical wire name.
    pub open spec fn spec_name(self) -> Seq<char> {
        match self {
            DisruptionSource::Scenario => "scenario"@,
            DisruptionSource::Requirement => "requirement"@,
            DisruptionSource::Decision => "decision"@,
        }
    }

    /// The value whose wire name is `s`, if any.
    pub open spec fn from_name(s: Seq<char>) -> Option<DisruptionSource> {
        if s == "scenario"@ {
            Some(DisruptionSource::Scenario)
        } else if s == "requirement"@ {
            Some(DisruptionSource::Requirement)
        } else if s == "decision"@ {
            Some(DisruptionSource::Decision)
        } else {
            None
        }
    }

    pub fn as_str(self) -> (r: &'static str)
        ensures
            r@ == self.spec_name(),
    {
        match self {
            DisruptionSource::Scenario => "scenario",
            DisruptionSource::Requirement => "requirement",
            DisruptionSource::Decision => "decision",
        }
    }

    pub fn to_string(&self) -> (r: String)
        ensures
            r@ == self.spec_name(),
    {
        owned(self.as_str())
    }

    pub fn parse(s: &str) -> (r: Result<DisruptionSource, DomainError>)
        ensures
            match r {
                Ok(k) => DisruptionSource::from_name(s@) == Some(k),
                Err(e) => DisruptionSource::from_name(s@) is None && is_validation(e, "unknown disruption source: "@ + s@),
            },
    {
        if str_eq(s, "scenario") {
            Ok(DisruptionSource::Scenario)
        } else if str_eq(s, "requirement") {
            Ok(DisruptionSource::Requirement)
        } else if str_eq(s, "decision") {
            Ok(DisruptionSource::Decision)
        } else {
            Err(validation(concat2("unknown disruption source: ", s)))
        }
    }
}

impl core::str::FromStr for DisruptionSource {
    type Err = DomainError;

    fn from_str(s: &str) -> (r: Result<DisruptionSource, DomainError>)
        ensures
            match r {
                Ok(k) => DisruptionSource::from_name(s@) == Some(k),
                Err(e) => DisruptionSource::from_name(s@) is None && is_validation(e, "unknown disruption source: "@ + s@),
            },
    {
        DisruptionSource::parse(s)
    }
}

/// Every `DisruptionSource` parses back from its own wire name, and a name that
/// parses to a value is exactly that value's wire name.
pub proof fn lemma_disruption_source_names(k: DisruptionSource, s: Seq<char>)
    ensures
        DisruptionSource::from_name(k.spec_name()) == Some(k),
        DisruptionSource::from_name(s) == Some(k) ==> s == k.spec_name(),
{
    reveal_strlit("scenario");
    reveal_strlit("requirement");
    reveal_strlit("decision");
    assert("scenario"@.len() == 8);
    assert("requirement"@.len() == 11);
    assert("decision"@.len() == 8);
    assert("scenario"@[0] != "decision"@[0]);
}

/// Status of a review.
#[derive(Debug, Clone, Copy, PartialEq, Eq, Structural)]
pub enum DisruptionReviewStatus {
    Pending,
    Resolved,
}

impl DisruptionReviewStatus {
    /// Canonical wire name.
    pub open spec fn spec_name(self) -> Seq<char> {
        match self {
            DisruptionReviewStatus::Pending => "pending"@,
            DisruptionReviewStatus::Resolved => "resolved"@,
        }
    }

    /// The value whose wire name is `s`, if any.
    pub open spec fn from_name(s: Seq<char>) -> Option<DisruptionReviewStatus> {
        if s == "pending"@ {
            Some(DisruptionReviewStatus::Pending)
        } else if s == "resolved"@ {
            Some(DisruptionReviewStatus::Resolved)
        } else {
            None
        }
    }

    pub fn as_str(self) -> (r: &'static str)
        ensures
            r@ == self.spec_name(),
    {
        match self {
            DisruptionReviewStatus::Pending => "pending",
            DisruptionReviewStatus::Resolved => "resolved",
        }
    }

    pub fn to_string(&self) -> (r: String)
        ensures
            r@ == self.spec_name(),
    {
        owned(self.as_str())
    }

    pub fn parse(s: &str) -> (r: Result<DisruptionReviewStatus, DomainError>)
        ensures
            match r {
                Ok(k) => DisruptionReviewStatus::from_name(s@) == Some(k),
                Err(e) => DisruptionReviewStatus::from_name(s@) is None && is_validation(e, "unknown disruption review status: "@ + s@),
            },
    {
        if str_eq(s, "pending") {
            Ok(DisruptionReviewStatus::Pending)
        } else if str_eq(s, "resolved") {
            Ok(DisruptionReviewStatus::Resolved)
        } else {
            Err(validation(concat2("unknown disruption review status: ", s)))
        }
    }
}

impl core::str::FromStr for DisruptionReviewStatus {
    type Err = DomainError;

    fn from_str(s: &str) -> (r: Result<DisruptionReviewStatus, DomainError>)
        ensures
            match r {
                Ok(k) => DisruptionReviewStatus::from_name(s@) == Some(k),
                Err(e) => DisruptionReviewStatus::from_name(s@) is None && is_validation(e, "unknown disruption review status: "@ + s@),
            },
    {
        DisruptionReviewStatus::parse(s)
    }
}

/// Every `DisruptionReviewStatus` parses back from its own wire name, and a name that
/// parses to a value is exactly that value's wire name.
pub proof fn lemma_disruption_review_status_names(k: DisruptionReviewStatus, s: Seq<char>)
    ensures
        DisruptionReviewStatus::from_name(k.spec_name()) == Some(k),
        DisruptionReviewStatus::from_name(s) == Some(k) ==> s == k.spec_name(),
{
    reveal_strlit("pending");
    reveal_strlit("resolved");
    assert("pending"@.len() == 7);
    assert("resolved"@.len() == 8);
}

/// Human verdict on a disruption.
#[derive(Debug, Clone, Copy, PartialEq, Eq, Structural)]
pub enum DisruptionResolution {
    Retire,
    Edit,
    Keep,
}

impl DisruptionResolution {
    /// Canonical wire name.
    pub open spec fn spec_name(self) -> Seq<char> {
        match self {
            DisruptionResolution::Retire => "retire"@,
            DisruptionResolution::Edit => "edit"@,
            DisruptionResolution::Keep => "keep"@,
        }
    }

    /// The value whose wire name is `s`, if any.
    pub open spec fn from_name(s: Seq<char>) -> Option<DisruptionResolution> {
        if s == "retire"@ {
            Some(DisruptionResolution::Retire)
        } else if s == "edit"@ {
            Some(DisruptionResolution::Edit)
        } else if s == "keep"@ {
            Some(DisruptionResolution::Keep)
        } else {
            None
        }
    }

    pub fn as_str(self) -> (r: &'static str)
        ensures
            r@ == self.spec_name(),
    {
        match self {
            DisruptionResolution::Retire => "retire",
            DisruptionResolution::Edit => "edit",
            DisruptionResolution::Keep => "keep",
        }
    }

    pub fn to_string(&self) -> (r: String)
        ensures
            r@ == self.spec_name(),
    {
        owned(self.as_str())
    }

    pub fn parse(s: &str) -> (r: Result<DisruptionResolution, DomainError>)
        ensures
            match r {
                Ok(k) => DisruptionResolution::from_name(s@) == Some(k),
                Err(e) => DisruptionResolution::from_name(s@) is None && is_validation(e, "unknown disruption resolution: "@ + s@),
            },
    {
        if str_eq(s, "retire") {
            Ok(DisruptionResolution::Retire)
        } else if str_eq(s, "edit") {
            Ok(DisruptionResolution::Edit)
        } else if str_eq(s, "keep") {
            Ok(DisruptionResolution::Keep)
        } else {
            Err(validation(concat2("unknown disruption resolution: ", s)))
        }
    }
}

impl core::str::FromStr for DisruptionResolution {
    type Err = DomainError;

    fn from_str(s: &str) -> (r: Result<DisruptionResolution, DomainError>)
        ensures
            match r {
                Ok(k) => DisruptionResolution::from_name(s@) == Some(k),
                Err(e) => DisruptionResolution::from_name(s@) is None && is_validation(e, "unknown disruption resolution: "@ + s@),
            },
    {
        DisruptionResolution::parse(s)
    }
}

/// Every `DisruptionResolution` parses back from its own wire name, and a name that
/// parses to a value is exactly that value's wire name.
pub proof fn lemma_disruption_resolution_names(k: DisruptionResolution, s: Seq<char>)
    ensures
        DisruptionResolution::from_name(k.spec_name()) == Some(k),
        DisruptionResolution::from_name(s) == Some(k) ==> s == k.spec_name(),
{
    reveal_strlit("retire");
    reveal_strlit("edit");
    reveal_strlit("keep");
    assert("retire"@.len() == 6);
    assert("edit"@.len() == 4);
    assert("keep"@.len() == 4);
    assert("edit"@[0] != "keep"@[0]);
}

/// A review of the scenarios a new scenario, requirement or decision impacts.
#[derive(Debug, Clone)]
pub struct DisruptionReview {
    pub id: Id,
    pub plan_id: Id,
    pub source_kind: DisruptionSource,
    pub source_id: Id,
    pub impacted_scenario_ids: Vec<Id>,
    pub status: DisruptionReviewStatus,
    pub resolution: Option<DisruptionResolution>,
    pub note: Option<String>,
    pub created_at: Timestamp,
    pub resolved_at: Option<Timestamp>,
}

impl DisruptionReview {
    /// A review lists at least one impacted scenario.
    pub fn validate_create(&self) -> (r: Result<(), DomainError>)
        ensures
            self.impacted_scenario_ids@.len() > 0 ==> r is Ok,
            self.impacted_scenario_ids@.len() == 0 ==> (r matches Err(e) && is_validation(
                e,
                "disruption review requires at least one impacted scenario"@,
            )),
    {
        if self.impacted_scenario_ids.len() == 0 {
            return Err(validation(owned("disruption review requires at least one impacted scenario")));
        }
        Ok(())
    }
}


} // verus!
