//! User flows: one persona, one purpose, the complete journey.
use vstd::prelude::*;
use crate::error::{DomainError, is_validation, validation};
use crate::text::{str_eq, owned, concat2, concat3};

use crate::ids::{Id, Timestamp};
use crate::text::{spec_is_blank, is_blank};
use crate::json::{views, decoded_string_list, decode_string_list};

verus! {

/// Flow authoring status.
#[derive(Debug, Clone, Copy, PartialEq, Eq, Structural)]
pub enum FlowStatus {
    Draft,
    Confirmed,
}

impl FlowStatus {
    /// Canonical wire name.
    pub open spec fn spec_name(self) -> Seq<char> {
        match self {
            FlowStatus::Draft => "draft"@,
            FlowStatus::Confirmed => "confirmed"@,
        }
    }

    /// The value whose wire name is `s`, if any.
    pub open spec fn from_name(s: Seq<char>) -> Option<FlowStatus> {
        if s == "draft"@ {
            Some(FlowStatus::Draft)
        } else if s == "confirmed"@ {
            Some(FlowStatus::Confirmed)
        } else {
            None
        }
    }

    pub fn as_str(self) -> (r: &'static str)
        ensures
            r@ == self.spec_name(),
    {
        match self {
            FlowStatus::Draft => "draft",
            FlowStatus::Confirmed => "confirmed",
        }
    }

    pub fn to_string(&self) -> (r: String)
        ensures
            r@ == self.spec_name(),
    {
        owned(self.as_str())
    }

    pub fn parse(s: &str) -> (r: Result<FlowStatus, DomainError>)
        ensures
            match r {
                Ok(k) => FlowStatus::from_name(s@) == Some(k),
                Err(e) => FlowStatus::from_name(s@) is None && is_validation(e, "unknown flow status: "@ + s@),
            },
    {
        if str_eq(s, "draft") {
            Ok(FlowStatus::Draft)
        } else if str_eq(s, "confirmed") {
            Ok(FlowStatus::Confirmed)
        } else {
            Err(validation(concat2("unknown flow status: ", s)))
        }
    }
}

impl core::str::FromStr for FlowStatus {
    type Err = DomainError;

    fn from_str(s: &str) -> (r: Result<FlowStatus, DomainError>)
        ensures
            match r {
                Ok(k) => FlowStatus::from_name(s@) == Some(k),
                Err(e) => FlowStatus::from_name(s@) is None && is_validation(e, "unknown flow status: "@ + s@),
            },
    {
        FlowStatus::parse(s)
    }
}

/// Every `FlowStatus` parses back from its own wire name, and a name that
/// parses to a value is exactly that value's wire name.
pub proof fn lemma_flow_status_names(k: FlowStatus, s: Seq<char>)
    ensures
        FlowStatus::from_name(k.spec_name()) == Some(k),
        FlowStatus::from_name(s) == Some(k) ==> s == k.spec_name(),
{
    reveal_strlit("draft");
    reveal_strlit("confirmed");
    assert("draft"@.len() == 5);
    assert("confirmed"@.len() == 9);
}

/// One ordered step of a journey.
#[derive(Debug, Clone)]
pub struct FlowStep {
    pub idx: u32,
    pub description: String,
}

/// A persona's journey towards one purpose.
#[derive(Debug, Clone)]
pub struct UserFlow {
    pub id: Id,
    pub project_id: Id,
    pub short_code: String,
    pub persona_id: Id,
    pub purpose: String,
    pub steps_json: String,
    pub covers_capabilities_json: String,
    pub status: FlowStatus,
    pub produced_via_pattern_id: Option<String>,
    pub created_at: Timestamp,
    pub updated_at: Timestamp,
}

/// List-valued text columns default to an empty JSON array.
pub fn default_json_array() -> (r: String)
    ensures
        r@ == "[]"@,
{
    owned("[]")
}

impl UserFlow {
    /// The purpose must not be blank.
    pub fn validate_purpose(purpose: &str) -> (r: Result<(), DomainError>)
        ensures
            !spec_is_blank(purpose@) ==> r is Ok,
            spec_is_blank(purpose@) ==> (r matches Err(e) && is_validation(e, "user_flow purpose must be non-empty"@)),
    {
        if is_blank(purpose) {
            return Err(validation(owned("user_flow purpose must be non-empty")));
        }
        Ok(())
    }

    /// The steps of a flow. `parsed` is the decoding of `steps_json` as an
    /// array of steps, or the decoder's error text.
    pub fn parse_steps(parsed: Result<Vec<FlowStep>, String>) -> (r: Result<Vec<FlowStep>, DomainError>)
        ensures
            match parsed {
                Err(e) => r matches Err(x) && is_validation(x, "steps_json parse error: "@ + e@),
                Ok(v) => r matches Ok(w) && w@ == v@,
            },
    {
        match parsed {
            Err(e) => Err(validation(concat2("steps_json parse error: ", e.as_str()))),
            Ok(v) => Ok(v),
        }
    }

    /// The capabilities a flow covers: its stored JSON text must decode as an
    /// array of strings.
    pub fn parse_covers_capabilities(json: &str) -> (r: Result<Vec<String>, DomainError>)
        ensures
            match decoded_string_list(json@) {
                Err(e) => r matches Err(x) && is_validation(x, "covers_capabilities_json parse error: "@ + e),
                Ok(v) => r matches Ok(w) && views(w@) == v,
            },
    {
        match decode_string_list(json) {
            Err(e) => Err(validation(concat2("covers_capabilities_json parse error: ", e.as_str()))),
            Ok(v) => Ok(v),
        }
    }
}


} // verus!
