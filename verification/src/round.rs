//! Rounds: planning → active → completed, with their regression, in-flight
//! and disruption policies.
use vstd::prelude::*;
use crate::error::{DomainError, is_validation, validation};
use crate::text::{str_eq, owned, concat2, concat3};

use crate::ids::{Id, Timestamp};
use crate::error::is_invalid_transition;

verus! {

/// Round lifecycle status.
#[derive(Debug, Clone, Copy, PartialEq, Eq, Structural)]
pub enum RoundStatus {
    Planning,
    Active,
    Completed,
}

impl RoundStatus {
    /// Canonical wire name.
    pub open spec fn spec_name(self) -> Seq<char> {
        match self {
            RoundStatus::Planning => "planning"@,
            RoundStatus::Active => "active"@,
            RoundStatus::Completed => "completed"@,
        }
    }

    /// The value whose wire name is `s`, if any.
    pub open spec fn from_name(s: Seq<char>) -> Option<RoundStatus> {
        if s == "planning"@ {
            Some(RoundStatus::Planning)
        } else if s == "active"@ {
            Some(RoundStatus::Active)
        } else if s == "completed"@ {
            Some(RoundStatus::Completed)
        } else {
            None
        }
    }

    pub fn as_str(self) -> (r: &'static str)
        ensures
            r@ == self.spec_name(),
    {
        match self {
            RoundStatus::Planning => "planning",
            RoundStatus::Active => "active",
            RoundStatus::Completed => "completed",
        }
    }

    pub fn to_string(&self) -> (r: String)
        ensures
            r@ == self.spec_name(),
    {
        owned(self.as_str())
    }

    pub fn parse(s: &str) -> (r: Result<RoundStatus, DomainError>)
        ensures
            match r {
                Ok(k) => RoundStatus::from_name(s@) == Some(k),
                Err(e) => RoundStatus::from_name(s@) is None && is_validation(e, "unknown round status: "@ + s@),
            },
    {
        if str_eq(s, "planning") {
            Ok(RoundStatus::Planning)
        } else if str_eq(s, "active") {
            Ok(RoundStatus::Active)
        } else if str_eq(s, "completed") {
            Ok(RoundStatus::Completed)
        } else {
            Err(validation(concat2("unknown round status: ", s)))
        }
    }
}

impl core::str::FromStr for RoundStatus {
    type Err = DomainError;

    fn from_str(s: &str) -> (r: Result<RoundStatus, DomainError>)
        ensures
            match r {
                Ok(k) => RoundStatus::from_name(s@) == Some(k),
                Err(e) => RoundStatus::from_name(s@) is None && is_validation(e, "unknown round status: "@ + s@),
            },
    {
        RoundStatus::parse(s)
    }
}

/// Every `RoundStatus` parses back from its own wire name, and a name that
/// parses to a value is exactly that value's wire name.
pub proof fn lemma_round_status_names(k: RoundStatus, s: Seq<char>)
    ensures
        RoundStatus::from_name(k.spec_name()) == Some(k),
        RoundStatus::from_name(s) == Some(k) ==> s == k.spec_name(),
{
    reveal_strlit("planning");
    reveal_strlit("active");
    reveal_strlit("completed");
    assert("planning"@.len() == 8);
    assert("active"@.len() == 6);
    assert("completed"@.len() == 9);
}

/// Regression mode; strict regression replays every prior passing scenario.
#[derive(Debug, Clone, Copy, PartialEq, Eq, Structural)]
pub enum RoundMode {
    StrictRegression,
    ForwardOnly,
}

impl RoundMode {
    /// Canonical wire name.
    pub open spec fn spec_name(self) -> Seq<char> {
        match self {
            RoundMode::StrictRegression => "strict-regression"@,
            RoundMode::ForwardOnly => "forward-only"@,
        }
    }

    /// The value whose wire name is `s`, if any.
    pub open spec fn from_name(s: Seq<char>) -> Option<RoundMode> {
        if s == "strict-regression"@ {
            Some(RoundMode::StrictRegression)
        } else if s == "forward-only"@ {
            Some(RoundMode::ForwardOnly)
        } else {
            None
        }
    }

    pub fn as_str(self) -> (r: &'static str)
        ensures
            r@ == self.spec_name(),
    {
        match self {
            RoundMode::StrictRegression => "strict-regression",
            RoundMode::ForwardOnly => "forward-only",
        }
    }

    pub fn to_string(&self) -> (r: String)
        ensures
            r@ == self.spec_name(),
    {
        owned(self.as_str())
    }

    pub fn parse(s: &str) -> (r: Result<RoundMode, DomainError>)
        ensures
            match r {
                Ok(k) => RoundMode::from_name(s@) == Some(k),
                Err(e) => RoundMode::from_name(s@) is None && (e matches DomainError::InvalidRoundMode(m) && m@ == s@),
            },
    {
        if str_eq(s, "strict-regression") {
            Ok(RoundMode::StrictRegression)
        } else if str_eq(s, "forward-only") {
            Ok(RoundMode::ForwardOnly)
        } else {
            Err(DomainError::InvalidRoundMode(owned(s)))
        }
    }
}

impl core::str::FromStr for RoundMode {
    type Err = DomainError;

    fn from_str(s: &str) -> (r: Result<RoundMode, DomainError>)
        ensures
            match r {
                Ok(k) => RoundMode::from_name(s@) == Some(k),
                Err(e) => RoundMode::from_name(s@) is None && (e matches DomainError::InvalidRoundMode(m) && m@ == s@),
            },
    {
        RoundMode::parse(s)
    }
}

impl core::default::Default for RoundMode {
    fn default() -> (r: RoundMode)
        ensures
            r == RoundMode::StrictRegression,
    {
        RoundMode::StrictRegression
    }
}

/// Every `RoundMode` parses back from its own wire name, and a name that
/// parses to a value is exactly that value's wire name.
pub proof fn lemma_round_mode_names(k: RoundMode, s: Seq<char>)
    ensures
        RoundMode::from_name(k.spec_name()) == Some(k),
        RoundMode::from_name(s) == Some(k) ==> s == k.spec_name(),
{
    reveal_strlit("strict-regression");
    reveal_strlit("forward-only");
    assert("strict-regression"@.len() == 17);
    assert("forward-only"@.len() == 12);
}

/// What happens to in-flight tasks when a round starts.
#[derive(Debug, Clone, Copy, PartialEq, Eq, Structural)]
pub enum InFlightPolicy {
    Pause,
    Abort,
    ContinueOnNoimpact,
}

impl InFlightPolicy {
    /// Canonical wire name.
    pub open spec fn spec_name(self) -> Seq<char> {
        match self {
            InFlightPolicy::Pause => "pause"@,
            InFlightPolicy::Abort => "abort"@,
            InFlightPolicy::ContinueOnNoimpact => "continue-on-noimpact"@,
        }
    }

    /// The value whose wire name is `s`, if any.
    pub open spec fn from_name(s: Seq<char>) -> Option<InFlightPolicy> {
        if s == "pause"@ {
            Some(InFlightPolicy::Pause)
        } else if s == "abort"@ {
            Some(InFlightPolicy::Abort)
        } else if s == "continue-on-noimpact"@ {
            Some(InFlightPolicy::ContinueOnNoimpact)
        } else {
            None
        }
    }

    pub fn as_str(self) -> (r: &'static str)
        ensures
            r@ == self.spec_name(),
    {
        match self {
            InFlightPolicy::Pause => "pause",
            InFlightPolicy::Abort => "abort",
            InFlightPolicy::ContinueOnNoimpact => "continue-on-noimpact",
        }
    }

    pub fn to_string(&self) -> (r: String)
        ensures
            r@ == self.spec_name(),
    {
        owned(self.as_str())
    }

    pub fn parse(s: &str) -> (r: Result<InFlightPolicy, DomainError>)
        ensures
            match r {
                Ok(k) => InFlightPolicy::from_name(s@) == Some(k),
                Err(e) => InFlightPolicy::from_name(s@) is None && is_validation(e, "unknown in-flight policy: "@ + s@),
            },
    {
        if str_eq(s, "pause") {
            Ok(InFlightPolicy::Pause)
        } else if str_eq(s, "abort") {
            Ok(InFlightPolicy::Abort)
        } else if str_eq(s, "continue-on-noimpact") {
            Ok(InFlightPolicy::ContinueOnNoimpact)
        } else {
            Err(validation(concat2("unknown in-flight policy: ", s)))
        }
    }
}

impl core::str::FromStr for InFlightPolicy {
    type Err = DomainError;

    fn from_str(s: &str) -> (r: Result<InFlightPolicy, DomainError>)
        ensures
            match r {
                Ok(k) => InFlightPolicy::from_name(s@) == Some(k),
                Err(e) => InFlightPolicy::from_name(s@) is None && is_validation(e, "unknown in-flight policy: "@ + s@),
            },
    {
        InFlightPolicy::parse(s)
    }
}

impl core::default::Default for InFlightPolicy {
    fn default() -> (r: InFlightPolicy)
        ensures
            r == InFlightPolicy::Pause,
    {
        InFlightPolicy::Pause
    }
}

/// Every `InFlightPolicy` parses back from its own wire name, and a name that
/// parses to a value is exactly that value's wire name.
pub proof fn lemma_in_flight_policy_names(k: InFlightPolicy, s: Seq<char>)
    ensures
        InFlightPolicy::from_name(k.spec_name()) == Some(k),
        InFlightPolicy::from_name(s) == Some(k) ==> s == k.spec_name(),
{
    reveal_strlit("pause");
    reveal_strlit("abort");
    reveal_strlit("continue-on-noimpact");
    assert("pause"@.len() == 5);
    assert("abort"@.len() == 5);
    assert("continue-on-noimpact"@.len() == 20);
    assert("pause"@[0] != "abort"@[0]);
}

/// Whether disruptions need a human review before promotion.
#[derive(Debug, Clone, Copy, PartialEq, Eq, Structural)]
pub enum DisruptionPolicy {
    NeedsReview,
    Auto,
}

impl DisruptionPolicy {
    /// Canonical wire name.
    pub open spec fn spec_name(self) -> Seq<char> {
        match self {
            DisruptionPolicy::NeedsReview => "needs-review"@,
            DisruptionPolicy::Auto => "auto"@,
        }
    }

    /// The value whose wire name is `s`, if any.
    pub open spec fn from_name(s: Seq<char>) -> Option<DisruptionPolicy> {
        if s == "needs-review"@ {
            Some(DisruptionPolicy::NeedsReview)
        } else if s == "auto"@ {
            Some(DisruptionPolicy::Auto)
        } else {
            None
        }
    }

    pub fn as_str(self) -> (r: &'static str)
        ensures
            r@ == self.spec_name(),
    {
        match self {
            DisruptionPolicy::NeedsReview => "needs-review",
            DisruptionPolicy::Auto => "auto",
        }
    }

    pub fn to_string(&self) -> (r: String)
        ensures
            r@ == self.spec_name(),
    {
        owned(self.as_str())
    }

    pub fn parse(s: &str) -> (r: Result<DisruptionPolicy, DomainError>)
        ensures
            match r {
                Ok(k) => DisruptionPolicy::from_name(s@) == Some(k),
                Err(e) => DisruptionPolicy::from_name(s@) is None && is_validation(e, "unknown disruption policy: "@ + s@),
            },
    {
        if str_eq(s, "needs-review") {
            Ok(DisruptionPolicy::NeedsReview)
        } else if str_eq(s, "auto") {
            Ok(DisruptionPolicy::Auto)
        } else {
            Err(validation(concat2("unknown disruption policy: ", s)))
        }
    }
}

impl core::str::FromStr for DisruptionPolicy {
    type Err = DomainError;

    fn from_str(s: &str) -> (r: Result<DisruptionPolicy, DomainError>)
        ensures
            match r {
                Ok(k) => DisruptionPolicy::from_name(s@) == Some(k),
                Err(e) => DisruptionPolicy::from_name(s@) is None && is_validation(e, "unknown disruption policy: "@ + s@),
            },
    {
        DisruptionPolicy::parse(s)
    }
}

impl core::default::Default for DisruptionPolicy {
    fn default() -> (r: DisruptionPolicy)
        ensures
            r == DisruptionPolicy::NeedsReview,
    {
        DisruptionPolicy::NeedsReview
    }
}

/// Every `DisruptionPolicy` parses back from its own wire name, and a name that
/// parses to a value is exactly that value's wire name.
pub proof fn lemma_disruption_policy_names(k: DisruptionPolicy, s: Seq<char>)
    ensures
        DisruptionPolicy::from_name(k.spec_name()) == Some(k),
        DisruptionPolicy::from_name(s) == Some(k) ==> s == k.spec_name(),
{
    reveal_strlit("needs-review");
    reveal_strlit("auto");
    assert("needs-review"@.len() == 12);
    assert("auto"@.len() == 4);
}

/// A round of work on a plan.
#[derive(Debug, Clone)]
pub struct Round {
    pub id: Id,
    pub plan_id: Id,
    pub short_code: String,
    pub round_number: i64,
    pub mode: RoundMode,
    pub in_flight_policy: InFlightPolicy,
    pub disruption_policy: DisruptionPolicy,
    pub status: RoundStatus,
    pub produced_via_pattern_id: Option<String>,
    pub created_at: Timestamp,
    pub updated_at: Timestamp,
    pub activated_at: Option<Timestamp>,
    pub completed_at: Option<Timestamp>,
}

impl Round {
    /// Only a planning round activates.
    pub fn check_can_activate(&self) -> (r: Result<(), DomainError>)
        ensures
            self.status == RoundStatus::Planning ==> r is Ok,
            self.status != RoundStatus::Planning ==> (r matches Err(e) && is_invalid_transition(
                e,
                "round"@,
                self.status.spec_name(),
                "active"@,
            )),
    {
        if self.status != RoundStatus::Planning {
            return Err(
                DomainError::InvalidTransition {
                    entity: owned("round"),
                    from: self.status.to_string(),
                    to: owned("active"),
                },
            );
        }
        Ok(())
    }

    /// Only an active round completes.
    pub fn check_can_complete(&self) -> (r: Result<(), DomainError>)
        ensures
            self.status == RoundStatus::Active ==> r is Ok,
            self.status != RoundStatus::Active ==> (r matches Err(e) && is_invalid_transition(
                e,
                "round"@,
                self.status.spec_name(),
                "completed"@,
            )),
    {
        if self.status != RoundStatus::Active {
            return Err(
                DomainError::InvalidTransition {
                    entity: owned("round"),
                    from: self.status.to_string(),
                    to: owned("completed"),
                },
            );
        }
        Ok(())
    }
}



} // verus!
