//! Usage accounting tiers.
use vstd::prelude::*;
use crate::error::{DomainError, is_validation, validation};
use crate::text::{str_eq, owned, concat2, concat3};

verus! {

/// Cost tier a run was charged at.
#[derive(Debug, Clone, Copy, PartialEq, Eq, Structural)]
pub enum UsageTier {
    Low,
    Med,
    High,
}

impl UsageTier {
    /// Canonical wire name.
    pub open spec fn spec_name(self) -> Seq<char> {
        match self {
            UsageTier::Low => "low"@,
            UsageTier::Med => "med"@,
            UsageTier::High => "high"@,
        }
    }

    /// The value whose wire name is `s`, if any.
    pub open spec fn from_name(s: Seq<char>) -> Option<UsageTier> {
        if s == "low"@ {
            Some(UsageTier::Low)
        } else if s == "med"@ {
            Some(UsageTier::Med)
        } else if s == "high"@ {
            Some(UsageTier::High)
        } else {
            None
        }
    }

    pub fn as_str(self) -> (r: &'static str)
        ensures
            r@ == self.spec_name(),
    {
        match self {
            UsageTier::Low => "low",
            UsageTier::Med => "med",
            UsageTier::High => "high",
        }
    }

    pub fn to_string(&self) -> (r: String)
        ensures
            r@ == self.spec_name(),
    {
        owned(self.as_str())
    }

    pub fn parse(s: &str) -> (r: Result<UsageTier, DomainError>)
        ensures
            match r {
                Ok(k) => UsageTier::from_name(s@) == Some(k),
                Err(e) => UsageTier::from_name(s@) is None && is_validation(e, "unknown usage tier: "@ + s@),
            },
    {
        if str_eq(s, "low") {
            Ok(UsageTier::Low)
        } else if str_eq(s, "med") {
            Ok(UsageTier::Med)
        } else if str_eq(s, "high") {
            Ok(UsageTier::High)
        } else {
            Err(validation(concat2("unknown usage tier: ", s)))
        }
    }
}

impl core::str::FromStr for UsageTier {
    type Err = DomainError;

    fn from_str(s: &str) -> (r: Result<UsageTier, DomainError>)
        ensures
            match r {
                Ok(k) => UsageTier::from_name(s@) == Some(k),
                Err(e) => UsageTier::from_name(s@) is None && is_validation(e, "unknown usage tier: "@ + s@),
            },
    {
        UsageTier::parse(s)
    }
}

impl core::default::Default for UsageTier {
    fn default() -> (r: UsageTier)
        ensures
            r == UsageTier::Med,
    {
        UsageTier::Med
    }
}

/// Every `UsageTier` parses back from its own wire name, and a name that
/// parses to a value is exactly that value's wire name.
pub proof fn lemma_usage_tier_names(k: UsageTier, s: Seq<char>)
    ensures
        UsageTier::from_name(k.spec_name()) == Some(k),
        UsageTier::from_name(s) == Some(k) ==> s == k.spec_name(),
{
    reveal_strlit("low");
    reveal_strlit("med");
    reveal_strlit("high");
    assert("low"@.len() == 3);
    assert("med"@.len() == 3);
    assert("high"@.len() == 4);
    assert("low"@[0] != "med"@[0]);
}


} // verus!
