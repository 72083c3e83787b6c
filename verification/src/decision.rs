//! Append-only decision log and the proposal → critique → consensus |
//! dissensus negotiation order.
use vstd::prelude::*;
use crate::error::{DomainError, is_validation, validation};
use crate::text::{str_eq, owned, concat2, concat3};

use crate::ids::{Id, Timestamp};

verus! {

/// Status of a decision row.
#[derive(Debug, Clone, Copy, PartialEq, Eq, Structural)]
pub enum DecisionStatus {
    Proposed,
    Accepted,
    Superseded,
}

impl DecisionStatus {
    /// Canonical wire name.
    pub open spec fn spec_name(self) -> Seq<char> {
        match self {
            DecisionStatus::Proposed => "proposed"@,
            DecisionStatus::Accepted => "accepted"@,
            DecisionStatus::Superseded => "superseded"@,
        }
    }

    /// The value whose wire name is `s`, if any.
    pub open spec fn from_name(s: Seq<char>) -> Option<DecisionStatus> {
        if s == "proposed"@ {
            Some(DecisionStatus::Proposed)
        } else if s == "accepted"@ {
            Some(DecisionStatus::Accepted)
        } else if s == "superseded"@ {
            Some(DecisionStatus::Superseded)
        } else {
            None
        }
    }

    pub fn as_str(self) -> (r: &'static str)
        ensures
            r@ == self.spec_name(),
    {
        match self {
            DecisionStatus::Proposed => "proposed",
            DecisionStatus::Accepted => "accepted",
            DecisionStatus::Superseded => "superseded",
        }
    }

    pub fn to_string(&self) -> (r: String)
        ensures
            r@ == self.spec_name(),
    {
        owned(self.as_str())
    }

    pub fn parse(s: &str) -> (r: Result<DecisionStatus, DomainError>)
        ensures
            match r {
                Ok(k) => DecisionStatus::from_name(s@) == Some(k),
                Err(e) => DecisionStatus::from_name(s@) is None && is_validation(e, "unknown decision status: "@ + s@),
            },
    {
        if str_eq(s, "proposed") {
            Ok(DecisionStatus::Proposed)
        } else if str_eq(s, "accepted") {
            Ok(DecisionStatus::Accepted)
        } else if str_eq(s, "superseded") {
            Ok(DecisionStatus::Superseded)
        } else {
            Err(validation(concat2("unknown decision status: ", s)))
        }
    }
}

impl core::str::FromStr for DecisionStatus {
    type Err = DomainError;

    fn from_str(s: &str) -> (r: Result<DecisionStatus, DomainError>)
        ensures
            match r {
                Ok(k) => DecisionStatus::from_name(s@) == Some(k),
                Err(e) => DecisionStatus::from_name(s@) is None && is_validation(e, "unknown decision status: "@ + s@),
            },
    {
        DecisionStatus::parse(s)
    }
}

/// Every `DecisionStatus` parses back from its own wire name, and a name that
/// parses to a value is exactly that value's wire name.
pub proof fn lemma_decision_status_names(k: DecisionStatus, s: Seq<char>)
    ensures
        DecisionStatus::from_name(k.spec_name()) == Some(k),
        DecisionStatus::from_name(s) == Some(k) ==> s == k.spec_name(),
{
    reveal_strlit("proposed");
    reveal_strlit("accepted");
    reveal_strlit("superseded");
    assert("proposed"@.len() == 8);
    assert("accepted"@.len() == 8);
    assert("superseded"@.len() == 10);
    assert("proposed"@[0] != "accepted"@[0]);
}

/// Negotiation stage a decision row records.
#[derive(Debug, Clone, Copy, PartialEq, Eq, Structural)]
pub enum DecisionKind {
    Proposal,
    Critique,
    Consensus,
    Dissensus,
}

impl DecisionKind {
    /// Canonical wire name.
    pub open spec fn spec_name(self) -> Seq<char> {
        match self {
            DecisionKind::Proposal => "proposal"@,
            DecisionKind::Critique => "critique"@,
            DecisionKind::Consensus => "consensus"@,
            DecisionKind::Dissensus => "dissensus"@,
        }
    }

    /// The value whose wire name is `s`, if any.
    pub open spec fn from_name(s: Seq<char>) -> Option<DecisionKind> {
        if s == "proposal"@ {
            Some(DecisionKind::Proposal)
        } else if s == "critique"@ {
            Some(DecisionKind::Critique)
        } else if s == "consensus"@ {
            Some(DecisionKind::Consensus)
        } else if s == "dissensus"@ {
            Some(DecisionKind::Dissensus)
        } else {
            None
        }
    }

    pub fn as_str(self) -> (r: &'static str)
        ensures
            r@ == self.spec_name(),
    {
        match self {
            DecisionKind::Proposal => "proposal",
            DecisionKind::Critique => "critique",
            DecisionKind::Consensus => "consensus",
            DecisionKind::Dissensus => "dissensus",
        }
    }

    pub fn to_string(&self) -> (r: String)
        ensures
            r@ == self.spec_name(),
    {
        owned(self.as_str())
    }

    pub fn parse(s: &str) -> (r: Result<DecisionKind, DomainError>)
        ensures
            match r {
                Ok(k) => DecisionKind::from_name(s@) == Some(k),
                Err(e) => DecisionKind::from_name(s@) is None && is_validation(e, "unknown decision kind: "@ + s@),
            },
    {
        if str_eq(s, "proposal") {
            Ok(DecisionKind::Proposal)
        } else if str_eq(s, "critique") {
            Ok(DecisionKind::Critique)
        } else if str_eq(s, "consensus") {
            Ok(DecisionKind::Consensus)
        } else if str_eq(s, "dissensus") {
            Ok(DecisionKind::Dissensus)
        } else {
            Err(validation(concat2("unknown decision kind: ", s)))
        }
    }
}

impl core::str::FromStr for DecisionKind {
    type Err = DomainError;

    fn from_str(s: &str) -> (r: Result<DecisionKind, DomainError>)
        ensures
            match r {
                Ok(k) => DecisionKind::from_name(s@) == Some(k),
                Err(e) => DecisionKind::from_name(s@) is None && is_validation(e, "unknown decision kind: "@ + s@),
            },
    {
        DecisionKind::parse(s)
    }
}

/// Every `DecisionKind` parses back from its own wire name, and a name that
/// parses to a value is exactly that value's wire name.
pub proof fn lemma_decision_kind_names(k: DecisionKind, s: Seq<char>)
    ensures
        DecisionKind::from_name(k.spec_name()) == Some(k),
        DecisionKind::from_name(s) == Some(k) ==> s == k.spec_name(),
{
    reveal_strlit("proposal");
    reveal_strlit("critique");
    reveal_strlit("consensus");
    reveal_strlit("dissensus");
    assert("proposal"@.len() == 8);
    assert("critique"@.len() == 8);
    assert("consensus"@.len() == 9);
    assert("dissensus"@.len() == 9);
    assert("proposal"@[0] != "critique"@[0]);
    assert("consensus"@[0] != "dissensus"@[0]);
}

/// An append-only decision row.
#[derive(Debug, Clone)]
pub struct Decision {
    pub id: Id,
    pub plan_id: Id,
    pub short_code: String,
    pub title: String,
    pub body: String,
    pub status: DecisionStatus,
    pub supersedes_id: Option<Id>,
    pub kind: DecisionKind,
    pub proposal_id: Option<Id>,
    pub agent_name: Option<String>,
    pub escalated_at: Option<Timestamp>,
    pub created_at: Timestamp,
}

/// Outcome of the negotiation-order check for a new decision row of kind
/// `next`: `Ok`, a validation message, or the missing-critique error.
pub enum StageVerdict {
    Accept,
    Invalid(Seq<char>),
    MissingCritique,
}

pub open spec fn spec_stage_verdict(
    next: DecisionKind,
    existing: Seq<DecisionKind>,
    has_proposal_id: bool,
) -> StageVerdict {
    match next {
        DecisionKind::Proposal => if has_proposal_id {
            StageVerdict::Invalid("proposal decision must not carry proposal_id"@)
        } else {
            StageVerdict::Accept
        },
        _ => if !has_proposal_id {
            StageVerdict::Invalid(next.spec_name() + " decision requires proposal_id"@)
        } else if next == DecisionKind::Consensus && !existing.contains(DecisionKind::Critique) {
            StageVerdict::MissingCritique
        } else {
            StageVerdict::Accept
        },
    }
}

impl Decision {
    /// Negotiation order: a proposal carries no `proposal_id`; critique,
    /// consensus and dissensus rows need one; a consensus row needs a prior
    /// critique against the same proposal.
    pub fn validate_stage_transition(
        next: DecisionKind,
        existing_kinds: &[DecisionKind],
        proposal_id: Option<&Id>,
    ) -> (r: Result<(), DomainError>)
        ensures
            match spec_stage_verdict(next, existing_kinds@, proposal_id is Some) {
                StageVerdict::Accept => r is Ok,
                StageVerdict::Invalid(msg) => r matches Err(e) && is_validation(e, msg),
                StageVerdict::MissingCritique => r matches Err(
                    DomainError::ConsensusMissingCritique { proposal_id: p },
                ) && p@ == proposal_id->0@,
            },
    {
        match next {
            DecisionKind::Proposal => {
                if proposal_id.is_some() {
                    return Err(validation(owned("proposal decision must not carry proposal_id")));
                }
                Ok(())
            },
            _ => {
                let pid = match proposal_id {
                    None => {
                        return Err(validation(concat2(next.as_str(), " decision requires proposal_id")));
                    },
                    Some(p) => p,
                };
                if next == DecisionKind::Consensus {
                    let mut has_critique = false;
                    let mut i: usize = 0;
                    while i < existing_kinds.len()
                        invariant
                            i <= existing_kinds@.len(),
                            has_critique <==> exists|k: int| 0 <= k < i && existing_kinds@[k] == DecisionKind::Critique,
                        decreases existing_kinds@.len() - i,
                    {
                        if existing_kinds[i] == DecisionKind::Critique {
                            has_critique = true;
                        }
                        i += 1;
                    }
                    if !has_critique {
                        return Err(DomainError::ConsensusMissingCritique { proposal_id: pid.to_string() });
                    }
                }
                Ok(())
            },
        }
    }
}

/// The negotiation order: no consensus is accepted before a critique, every
/// non-proposal row is tied to a proposal, and a dissensus is accepted as soon
/// as it names its proposal.
pub proof fn law_negotiation_order(next: DecisionKind, existing: Seq<DecisionKind>, has_pid: bool)
    ensures
        next == DecisionKind::Consensus && spec_stage_verdict(next, existing, has_pid) is Accept
            ==> existing.contains(DecisionKind::Critique) && has_pid,
        next != DecisionKind::Proposal && spec_stage_verdict(next, existing, has_pid) is Accept
            ==> has_pid,
        next == DecisionKind::Proposal ==> (spec_stage_verdict(next, existing, has_pid) is Accept
            <==> !has_pid),
        next == DecisionKind::Dissensus && has_pid ==> spec_stage_verdict(next, existing, has_pid) is Accept,
{
}


/// The whole negotiation gate: a proposal is accepted exactly when it names
/// no proposal; a critique or a dissensus exactly when it names one, whatever
/// rows already exist; a consensus exactly when it names one and a critique
/// already exists. Only a consensus waits for a critique.
pub proof fn law_negotiation_gate(next: DecisionKind, existing: Seq<DecisionKind>, has_pid: bool)
    ensures
        next == DecisionKind::Proposal ==> (spec_stage_verdict(next, existing, has_pid) is Accept <==> !has_pid),
        next == DecisionKind::Critique ==> (spec_stage_verdict(next, existing, has_pid) is Accept <==> has_pid),
        next == DecisionKind::Dissensus ==> (spec_stage_verdict(next, existing, has_pid) is Accept <==> has_pid),
        next == DecisionKind::Consensus ==> (spec_stage_verdict(next, existing, has_pid) is Accept <==> (has_pid
            && existing.contains(DecisionKind::Critique))),
        spec_stage_verdict(next, existing, has_pid) is MissingCritique ==> next == DecisionKind::Consensus
            && has_pid && !existing.contains(DecisionKind::Critique),
{
}

} // verus!
