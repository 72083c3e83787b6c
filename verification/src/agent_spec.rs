//! Registered specialist agents.
use vstd::prelude::*;
use crate::error::{DomainError, is_validation, validation};
use crate::text::{str_eq, owned, concat2, concat3};

use crate::ids::{Id, Timestamp};
use crate::pattern::Stance;
use crate::text::{int_decimal, push_int_decimal};

verus! {

/// Lifecycle status of an agent registration.
#[derive(Debug, Clone, Copy, PartialEq, Eq, Structural)]
pub enum AgentSpecStatus {
    Active,
    Expired,
}

impl AgentSpecStatus {
    /// Canonical wire name.
    pub open spec fn spec_name(self) -> Seq<char> {
        match self {
            AgentSpecStatus::Active => "active"@,
            AgentSpecStatus::Expired => "expired"@,
        }
    }

    /// The value whose wire name is `s`, if any.
    pub open spec fn from_name(s: Seq<char>) -> Option<AgentSpecStatus> {
        if s == "active"@ {
            Some(AgentSpecStatus::Active)
        } else if s == "expired"@ {
            Some(AgentSpecStatus::Expired)
        } else {
            None
        }
    }

    pub fn as_str(self) -> (r: &'static str)
        ensures
            r@ == self.spec_name(),
    {
        match self {
            AgentSpecStatus::Active => "active",
            AgentSpecStatus::Expired => "expired",
        }
    }

    pub fn to_string(&self) -> (r: String)
        ensures
            r@ == self.spec_name(),
    {
        owned(self.as_str())
    }

    pub fn parse(s: &str) -> (r: Result<AgentSpecStatus, DomainError>)
        ensures
            match r {
                Ok(k) => AgentSpecStatus::from_name(s@) == Some(k),
                Err(e) => AgentSpecStatus::from_name(s@) is None && is_validation(e, "unknown agent_spec status: "@ + s@),
            },
    {
        if str_eq(s, "active") {
            Ok(AgentSpecStatus::Active)
        } else if str_eq(s, "expired") {
            Ok(AgentSpecStatus::Expired)
        } else {
            Err(validation(concat2("unknown agent_spec status: ", s)))
        }
    }
}

impl core::str::FromStr for AgentSpecStatus {
    type Err = DomainError;

    fn from_str(s: &str) -> (r: Result<AgentSpecStatus, DomainError>)
        ensures
            match r {
                Ok(k) => AgentSpecStatus::from_name(s@) == Some(k),
                Err(e) => AgentSpecStatus::from_name(s@) is None && is_validation(e, "unknown agent_spec status: "@ + s@),
            },
    {
        AgentSpecStatus::parse(s)
    }
}

/// Every `AgentSpecStatus` parses back from its own wire name, and a name that
/// parses to a value is exactly that value's wire name.
pub proof fn lemma_agent_spec_status_names(k: AgentSpecStatus, s: Seq<char>)
    ensures
        AgentSpecStatus::from_name(k.spec_name()) == Some(k),
        AgentSpecStatus::from_name(s) == Some(k) ==> s == k.spec_name(),
{
    reveal_strlit("active");
    reveal_strlit("expired");
    assert("active"@.len() == 6);
    assert("expired"@.len() == 7);
}

/// The stock specialist names.
pub open spec fn spec_stock_agents() -> Seq<Seq<char>> {
    seq![
        "gwt-converter"@,
        "scenario-decomposer"@,
        "impl-coder"@,
        "test-runner"@,
        "regression-runner"@,
        "disruption-analyst"@,
        "decision-resolver"@,
        "schema-architect"@,
    ]
}

/// The meta-specialist names, each with its default stance.
pub open spec fn spec_stock_meta_agents() -> Seq<(Seq<char>, Stance)> {
    seq![
        ("pattern-orchestrator"@, Stance::Proposer),
        ("pattern-critic"@, Stance::DevilAdvocate),
        ("reversal-runner"@, Stance::Neutral),
    ]
}

/// The stock specialist names.
pub fn stock_agents() -> (r: Vec<&'static str>)
    ensures
        r@.map_values(|s: &'static str| s@) == spec_stock_agents(),
{
    let r = vec![
        "gwt-converter",
        "scenario-decomposer",
        "impl-coder",
        "test-runner",
        "regression-runner",
        "disruption-analyst",
        "decision-resolver",
        "schema-architect",
    ];
    assert(r@.map_values(|s: &'static str| s@) =~= spec_stock_agents());
    r
}

/// The meta-specialists with their default stances.
pub fn stock_meta_agents() -> (r: Vec<(&'static str, Stance)>)
    ensures
        r@.map_values(|p: (&'static str, Stance)| (p.0@, p.1)) == spec_stock_meta_agents(),
{
    let r = vec![
        ("pattern-orchestrator", Stance::Proposer),
        ("pattern-critic", Stance::DevilAdvocate),
        ("reversal-runner", Stance::Neutral),
    ];
    assert(r@.map_values(|p: (&'static str, Stance)| (p.0@, p.1)) =~= spec_stock_meta_agents());
    r
}

/// A registered specialist.
#[derive(Debug, Clone)]
pub struct AgentSpec {
    pub id: Id,
    pub name: String,
    pub stance: Stance,
    pub role: String,
    pub system_prompt: String,
    pub instance_count: i64,
    pub created_by: Option<String>,
    pub origin_plan_id: Option<Id>,
    pub tool_allowlist_json: Option<String>,
    pub decision_kinds_json: Option<String>,
    pub blast_radius_rules_json: Option<String>,
    pub status: AgentSpecStatus,
    pub expires_at: Option<Timestamp>,
    pub created_at: Timestamp,
    pub updated_at: Timestamp,
}

/// Stance of rows that do not record one.
pub fn default_stance() -> (r: Stance)
    ensures
        r == Stance::Neutral,
{
    Stance::Neutral
}

/// Status of rows that do not record one.
pub fn default_status() -> (r: AgentSpecStatus)
    ensures
        r == AgentSpecStatus::Active,
{
    AgentSpecStatus::Active
}

/// `name` is a stock or a meta specialist.
pub open spec fn spec_is_known_agent(name: Seq<char>) -> bool {
    spec_stock_agents().contains(name) || exists|i: int|
        0 <= i < spec_stock_meta_agents().len() && (#[trigger] spec_stock_meta_agents()[i]).0 == name
}

impl AgentSpec {
    /// Only the stock and meta specialists may be registered.
    pub fn validate_name(name: &str) -> (r: Result<(), DomainError>)
        ensures
            spec_is_known_agent(name@) ==> r is Ok,
            !spec_is_known_agent(name@) ==> (r matches Err(e) && is_validation(
                e,
                "unknown agent name: "@ + name@ + " (must be a stock or meta specialist)"@,
            )),
    {
        let stock = stock_agents();
        let mut i: usize = 0;
        while i < stock.len()
            invariant
                stock@.map_values(|s: &'static str| s@) == spec_stock_agents(),
                i <= stock@.len(),
                forall|k: int| 0 <= k < i ==> stock@[k]@ != name@,
            decreases stock@.len() - i,
        {
            if str_eq(stock[i], name) {
                proof {
                    assert(spec_stock_agents()[i as int] == name@);
                }
                return Ok(());
            }
            i += 1;
        }
        let meta = stock_meta_agents();
        let mut j: usize = 0;
        while j < meta.len()
            invariant
                meta@.map_values(|p: (&'static str, Stance)| (p.0@, p.1)) == spec_stock_meta_agents(),
                j <= meta@.len(),
                forall|k: int| 0 <= k < j ==> meta@[k].0@ != name@,
            decreases meta@.len() - j,
        {
            if str_eq(meta[j].0, name) {
                proof {
                    assert(spec_stock_meta_agents()[j as int].0 == name@);
                }
                return Ok(());
            }
            j += 1;
        }
        proof {
            assert forall|k: int| 0 <= k < spec_stock_agents().len() implies spec_stock_agents()[k] != name@ by {
                assert(stock@.map_values(|s: &'static str| s@)[k] == stock@[k]@);
            }
            assert forall|k: int| 0 <= k < spec_stock_meta_agents().len() implies (#[trigger] spec_stock_meta_agents()[k]).0 != name@ by {
                assert(meta@.map_values(|p: (&'static str, Stance)| (p.0@, p.1))[k] == (meta@[k].0@, meta@[k].1));
            }
        }
        Err(validation(concat3("unknown agent name: ", name, " (must be a stock or meta specialist)")))
    }

    /// At most sixteen live instances of one specialist.
    pub fn validate_instance_count(count: i64) -> (r: Result<(), DomainError>)
        ensures
            0 <= count <= 16 ==> r is Ok,
            !(0 <= count <= 16) ==> (r matches Err(e) && is_validation(
                e,
                "instance_count "@ + int_decimal(count as int) + " out of range 0..=16"@,
            )),
    {
        if !(0 <= count && count <= 16) {
            let mut m = owned("instance_count ");
            push_int_decimal(&mut m, count);
            m.append(" out of range 0..=16");
            return Err(validation(m));
        }
        Ok(())
    }
}


/// The specialists that may be registered, written out: the eight stock
/// specialists and the three meta-specialists, and no other name.
pub proof fn law_known_agents(name: Seq<char>)
    ensures
        spec_is_known_agent(name) <==> (name == "gwt-converter"@
            || name == "scenario-decomposer"@
            || name == "impl-coder"@
            || name == "test-runner"@
            || name == "regression-runner"@
            || name == "disruption-analyst"@
            || name == "decision-resolver"@
            || name == "schema-architect"@
            || name == "pattern-orchestrator"@
            || name == "pattern-critic"@
            || name == "reversal-runner"@),
{
    assert(spec_stock_agents()[0] == "gwt-converter"@);
    assert(spec_stock_agents()[1] == "scenario-decomposer"@);
    assert(spec_stock_agents()[2] == "impl-coder"@);
    assert(spec_stock_agents()[3] == "test-runner"@);
    assert(spec_stock_agents()[4] == "regression-runner"@);
    assert(spec_stock_agents()[5] == "disruption-analyst"@);
    assert(spec_stock_agents()[6] == "decision-resolver"@);
    assert(spec_stock_agents()[7] == "schema-architect"@);
    assert(spec_stock_meta_agents()[0].0 == "pattern-orchestrator"@);
    assert(spec_stock_meta_agents()[1].0 == "pattern-critic"@);
    assert(spec_stock_meta_agents()[2].0 == "reversal-runner"@);
    if spec_stock_agents().contains(name) {
        let k = choose|k: int| 0 <= k < spec_stock_agents().len() && spec_stock_agents()[k] == name;
        assert(0 <= k < 8);
    }
    if exists|i: int| 0 <= i < spec_stock_meta_agents().len() && (#[trigger] spec_stock_meta_agents()[i]).0 == name {
        let k = choose|i: int| 0 <= i < spec_stock_meta_agents().len() && (#[trigger] spec_stock_meta_agents()[i]).0 == name;
        assert(0 <= k < 3);
    }
}

} // verus!
