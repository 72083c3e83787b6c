//! Per-scope autonomy policy: where the human approval window sits on
//! consensus decisions (L3 ask, L4 act-with-review, L5 act-and-notify).
use vstd::prelude::*;
use crate::error::{DomainError, is_validation, validation};
use crate::text::{str_eq, owned, concat2, concat3};

use crate::ids::{Id, Timestamp};
use crate::error::{is_autonomy_gate_blocked};

verus! {

/// Where a policy applies.
#[derive(Debug, Clone, Copy, PartialEq, Eq, Structural)]
pub enum AutonomyScopeKind {
    Plan,
    DecisionKind,
    PatternKind,
    Global,
}

impl AutonomyScopeKind {
    /// Canonical wire name.
    pub open spec fn spec_name(self) -> Seq<char> {
        match self {
            AutonomyScopeKind::Plan => "plan"@,
            AutonomyScopeKind::DecisionKind => "decision_kind"@,
            AutonomyScopeKind::PatternKind => "pattern_kind"@,
            AutonomyScopeKind::Global => "global"@,
        }
    }

    /// The value whose wire name is `s`, if any.
    pub open spec fn from_name(s: Seq<char>) -> Option<AutonomyScopeKind> {
        if s == "plan"@ {
            Some(AutonomyScopeKind::Plan)
        } else if s == "decision_kind"@ {
            Some(AutonomyScopeKind::DecisionKind)
        } else if s == "pattern_kind"@ {
            Some(AutonomyScopeKind::PatternKind)
        } else if s == "global"@ {
            Some(AutonomyScopeKind::Global)
        } else {
            None
        }
    }

    pub fn as_str(self) -> (r: &'static str)
        ensures
            r@ == self.spec_name(),
    {
        match self {
            AutonomyScopeKind::Plan => "plan",
            AutonomyScopeKind::DecisionKind => "decision_kind",
            AutonomyScopeKind::PatternKind => "pattern_kind",
            AutonomyScopeKind::Global => "global",
        }
    }

    pub fn to_string(&self) -> (r: String)
        ensures
            r@ == self.spec_name(),
    {
        owned(self.as_str())
    }

    pub fn parse(s: &str) -> (r: Result<AutonomyScopeKind, DomainError>)
        ensures
            match r {
                Ok(k) => AutonomyScopeKind::from_name(s@) == Some(k),
                Err(e) => AutonomyScopeKind::from_name(s@) is None && is_validation(e, "unknown autonomy scope_kind: "@ + s@),
            },
    {
        if str_eq(s, "plan") {
            Ok(AutonomyScopeKind::Plan)
        } else if str_eq(s, "decision_kind") {
            Ok(AutonomyScopeKind::DecisionKind)
        } else if str_eq(s, "pattern_kind") {
            Ok(AutonomyScopeKind::PatternKind)
        } else if str_eq(s, "global") {
            Ok(AutonomyScopeKind::Global)
        } else {
            Err(validation(concat2("unknown autonomy scope_kind: ", s)))
        }
    }
}

impl core::str::FromStr for AutonomyScopeKind {
    type Err = DomainError;

    fn from_str(s: &str) -> (r: Result<AutonomyScopeKind, DomainError>)
        ensures
            match r {
                Ok(k) => AutonomyScopeKind::from_name(s@) == Some(k),
                Err(e) => AutonomyScopeKind::from_name(s@) is None && is_validation(e, "unknown autonomy scope_kind: "@ + s@),
            },
    {
        AutonomyScopeKind::parse(s)
    }
}

/// Every `AutonomyScopeKind` parses back from its own wire name, and a name that
/// parses to a value is exactly that value's wire name.
pub proof fn lemma_autonomy_scope_kind_names(k: AutonomyScopeKind, s: Seq<char>)
    ensures
        AutonomyScopeKind::from_name(k.spec_name()) == Some(k),
        AutonomyScopeKind::from_name(s) == Some(k) ==> s == k.spec_name(),
{
    reveal_strlit("plan");
    reveal_strlit("decision_kind");
    reveal_strlit("pattern_kind");
    reveal_strlit("global");
    assert("plan"@.len() == 4);
    assert("decision_kind"@.len() == 13);
    assert("pattern_kind"@.len() == 12);
    assert("global"@.len() == 6);
}

/// L3 = ask; L4 = act-with-review; L5 = act-and-notify.
#[derive(Debug, Clone, Copy, PartialEq, Eq, Structural)]
pub enum AutonomyMode {
    L3,
    L4,
    L5,
}

impl AutonomyMode {
    /// Canonical wire name.
    pub open spec fn spec_name(self) -> Seq<char> {
        match self {
            AutonomyMode::L3 => "L3"@,
            AutonomyMode::L4 => "L4"@,
            AutonomyMode::L5 => "L5"@,
        }
    }

    /// The value whose wire name is `s`, if any.
    pub open spec fn from_name(s: Seq<char>) -> Option<AutonomyMode> {
        if s == "L3"@ {
            Some(AutonomyMode::L3)
        } else if s == "L4"@ {
            Some(AutonomyMode::L4)
        } else if s == "L5"@ {
            Some(AutonomyMode::L5)
        } else {
            None
        }
    }

    pub fn as_str(self) -> (r: &'static str)
        ensures
            r@ == self.spec_name(),
    {
        match self {
            AutonomyMode::L3 => "L3",
            AutonomyMode::L4 => "L4",
            AutonomyMode::L5 => "L5",
        }
    }

    pub fn to_string(&self) -> (r: String)
        ensures
            r@ == self.spec_name(),
    {
        owned(self.as_str())
    }

    pub fn parse(s: &str) -> (r: Result<AutonomyMode, DomainError>)
        ensures
            match r {
                Ok(k) => AutonomyMode::from_name(s@) == Some(k),
                Err(e) => AutonomyMode::from_name(s@) is None && is_validation(e, "unknown autonomy mode: "@ + s@),
            },
    {
        if str_eq(s, "L3") {
            Ok(AutonomyMode::L3)
        } else if str_eq(s, "L4") {
            Ok(AutonomyMode::L4)
        } else if str_eq(s, "L5") {
            Ok(AutonomyMode::L5)
        } else {
            Err(validation(concat2("unknown autonomy mode: ", s)))
        }
    }
}

impl core::str::FromStr for AutonomyMode {
    type Err = DomainError;

    fn from_str(s: &str) -> (r: Result<AutonomyMode, DomainError>)
        ensures
            match r {
                Ok(k) => AutonomyMode::from_name(s@) == Some(k),
                Err(e) => AutonomyMode::from_name(s@) is None && is_validation(e, "unknown autonomy mode: "@ + s@),
            },
    {
        AutonomyMode::parse(s)
    }
}

/// Every `AutonomyMode` parses back from its own wire name, and a name that
/// parses to a value is exactly that value's wire name.
pub proof fn lemma_autonomy_mode_names(k: AutonomyMode, s: Seq<char>)
    ensures
        AutonomyMode::from_name(k.spec_name()) == Some(k),
        AutonomyMode::from_name(s) == Some(k) ==> s == k.spec_name(),
{
    reveal_strlit("L3");
    reveal_strlit("L4");
    reveal_strlit("L5");
    assert("L3"@.len() == 2);
    assert("L4"@.len() == 2);
    assert("L5"@.len() == 2);
    assert("L3"@[1] != "L4"@[1]);
    assert("L3"@[1] != "L5"@[1]);
    assert("L4"@[1] != "L5"@[1]);
}

/// Decision kinds that are always held at L4 or stricter.
pub open spec fn spec_is_forced_l4(kind: Seq<char>) -> bool {
    kind == "architecture"@ || kind == "schema"@ || kind == "naming-canonical"@
}

/// Strictness rank: L3 (always asks) is 0, L5 (loosest) is 2.
pub open spec fn spec_rank(m: AutonomyMode) -> int {
    match m {
        AutonomyMode::L3 => 0,
        AutonomyMode::L4 => 1,
        AutonomyMode::L5 => 2,
    }
}

/// Strictness floor of a decision kind.
pub open spec fn spec_floor_for_kind(kind: Seq<char>) -> AutonomyMode {
    if spec_is_forced_l4(kind) {
        AutonomyMode::L4
    } else {
        AutonomyMode::L3
    }
}

/// A decision-kind policy may run `kind` at `mode`: the kinds forced to L4
/// must meet their floor, every other kind runs at any mode.
pub open spec fn spec_kind_mode_allowed(kind: Seq<char>, mode: AutonomyMode) -> bool {
    spec_is_forced_l4(kind) ==> spec_satisfies(mode, spec_floor_for_kind(kind))
}

/// `mode` is at least as strict as `floor`.
pub open spec fn spec_satisfies(mode: AutonomyMode, floor: AutonomyMode) -> bool {
    spec_rank(mode) <= spec_rank(floor)
}

/// Default mode of each pattern kind; unknown kinds get the strictest mode.
pub open spec fn spec_default_pattern_kind_mode(kind: Seq<char>) -> AutonomyMode {
    if kind == "workflow"@ || kind == "graph"@ {
        AutonomyMode::L5
    } else if kind == "swarm"@ || kind == "agents-as-tools"@ {
        AutonomyMode::L4
    } else {
        AutonomyMode::L3
    }
}

/// The stricter of a plan-level and a pattern-level mode (the plan's on a tie).
pub open spec fn spec_effective_mode(plan_mode: AutonomyMode, pattern_mode: AutonomyMode) -> AutonomyMode {
    if spec_rank(plan_mode) <= spec_rank(pattern_mode) {
        plan_mode
    } else {
        pattern_mode
    }
}

fn rank(m: AutonomyMode) -> (r: u8)
    ensures
        r as int == spec_rank(m),
{
    match m {
        AutonomyMode::L3 => 0,
        AutonomyMode::L4 => 1,
        AutonomyMode::L5 => 2,
    }
}

impl AutonomyMode {
    /// Is `kind` one of the decision kinds forced to L4?
    pub fn is_forced_l4(kind: &str) -> (r: bool)
        ensures
            r == spec_is_forced_l4(kind@),
    {
        str_eq(kind, "architecture") || str_eq(kind, "schema") || str_eq(kind, "naming-canonical")
    }

    /// The strictness floor for a decision kind.
    pub fn floor_for_kind(kind: &str) -> (r: AutonomyMode)
        ensures
            r == spec_floor_for_kind(kind@),
    {
        if AutonomyMode::is_forced_l4(kind) {
            AutonomyMode::L4
        } else {
            AutonomyMode::L3
        }
    }

    /// True iff `self` is at least as strict as `floor`.
    pub fn satisfies(self, floor: AutonomyMode) -> (r: bool)
        ensures
            r == spec_satisfies(self, floor),
    {
        rank(self) <= rank(floor)
    }

    /// The mode every policy falls back to when the circuit breaker trips.
    pub fn demoted() -> (r: AutonomyMode)
        ensures
            r == AutonomyMode::L3,
    {
        AutonomyMode::L3
    }

    /// Default mode of a pattern kind.
    pub fn default_pattern_kind_mode(kind: &str) -> (r: AutonomyMode)
        ensures
            r == spec_default_pattern_kind_mode(kind@),
    {
        if str_eq(kind, "workflow") || str_eq(kind, "graph") {
            AutonomyMode::L5
        } else if str_eq(kind, "swarm") || str_eq(kind, "agents-as-tools") {
            AutonomyMode::L4
        } else {
            AutonomyMode::L3
        }
    }

    /// The stricter of the plan-level and pattern-level modes.
    pub fn effective_mode(plan_mode: AutonomyMode, pattern_mode: AutonomyMode) -> (r: AutonomyMode)
        ensures
            r == spec_effective_mode(plan_mode, pattern_mode),
    {
        if rank(plan_mode) <= rank(pattern_mode) {
            plan_mode
        } else {
            pattern_mode
        }
    }
}

/// The effective mode is the stricter of the two: it is one of them, it is
/// at least as strict as each, and the order of the two does not change it.
pub proof fn law_effective_mode_is_strictest(a: AutonomyMode, b: AutonomyMode)
    ensures
        spec_effective_mode(a, b) == a || spec_effective_mode(a, b) == b,
        spec_satisfies(spec_effective_mode(a, b), a),
        spec_satisfies(spec_effective_mode(a, b), b),
        spec_effective_mode(a, b) == spec_effective_mode(b, a),
        spec_effective_mode(a, a) == a,
{
}

/// After the circuit breaker demotes a policy, it passes every floor.
pub proof fn law_demoted_satisfies_every_floor(floor: AutonomyMode)
    ensures
        spec_satisfies(AutonomyMode::L3, floor),
{
}

/// "At least as strict as" is reflexive, transitive and total.
pub proof fn law_satisfies_is_total_preorder(a: AutonomyMode, b: AutonomyMode, c: AutonomyMode)
    ensures
        spec_satisfies(a, a),
        spec_satisfies(a, b) && spec_satisfies(b, c) ==> spec_satisfies(a, c),
        spec_satisfies(a, b) || spec_satisfies(b, a),
        spec_satisfies(a, b) && spec_satisfies(b, a) ==> a == b,
{
}

/// A decision-kind policy is refused exactly when its kind is one of the
/// three forced to L4 and its mode is L5; every other kind takes any mode.
pub proof fn law_forced_kinds_reject_l5(kind: Seq<char>, mode: AutonomyMode)
    ensures
        spec_is_forced_l4(kind) ==> (spec_kind_mode_allowed(kind, mode) <==> mode != AutonomyMode::L5),
        !spec_is_forced_l4(kind) ==> spec_kind_mode_allowed(kind, mode),
{
}

/// Default L5 threshold for the blast-radius gate.
pub fn default_l5_threshold() -> (r: i32)
    ensures
        r == 5,
{
    5
}

/// Default cap on the collaboration-pattern depth chain.
pub fn default_pattern_depth_cap() -> (r: i32)
    ensures
        r == 3,
{
    3
}

/// A per-scope autonomy policy row.
#[derive(Debug, Clone)]
pub struct AutonomyPolicy {
    pub id: Id,
    pub project_id: Id,
    pub plan_id: Option<Id>,
    pub scope_kind: AutonomyScopeKind,
    pub decision_kind: Option<String>,
    pub pattern_kind: Option<String>,
    pub mode: AutonomyMode,
    pub l5_threshold: i32,
    pub pattern_depth_cap: i32,
    pub plan_single_session_lock: bool,
    pub external_surface: bool,
    pub timeout_ms: Option<i64>,
    pub forced: bool,
    pub set_at: Timestamp,
    pub set_by: String,
    pub reason: Option<String>,
    pub created_at: Timestamp,
    pub updated_at: Timestamp,
}

/// Is `kind` one of the five pattern kinds?
pub open spec fn spec_is_pattern_kind_name(kind: Seq<char>) -> bool {
    kind == "workflow"@ || kind == "graph"@ || kind == "swarm"@ || kind == "agents-as-tools"@
        || kind == "direct"@
}

/// The message of the first scope rule the tuple breaks, if any.
pub open spec fn spec_scope_violation(
    scope_kind: AutonomyScopeKind,
    has_plan: bool,
    decision_kind: Option<Seq<char>>,
    pattern_kind: Option<Seq<char>>,
) -> Option<Seq<char>> {
    match scope_kind {
        AutonomyScopeKind::Plan => if !has_plan {
            Some("scope=plan requires plan_id"@)
        } else if decision_kind is Some {
            Some("scope=plan forbids decision_kind"@)
        } else if pattern_kind is Some {
            Some("scope=plan forbids pattern_kind"@)
        } else {
            None
        },
        AutonomyScopeKind::DecisionKind => if decision_kind is None {
            Some("scope=decision_kind requires decision_kind"@)
        } else if pattern_kind is Some {
            Some("scope=decision_kind forbids pattern_kind"@)
        } else {
            None
        },
        AutonomyScopeKind::PatternKind => match pattern_kind {
            None => Some("scope=pattern_kind requires pattern_kind"@),
            Some(pk) => if has_plan {
                Some("scope=pattern_kind forbids plan_id"@)
            } else if decision_kind is Some {
                Some("scope=pattern_kind forbids decision_kind"@)
            } else if !spec_is_pattern_kind_name(pk) {
                Some("unknown pattern_kind: "@ + pk)
            } else {
                None
            },
        },
        AutonomyScopeKind::Global => if has_plan || decision_kind is Some || pattern_kind is Some {
            Some("scope=global forbids plan_id / decision_kind / pattern_kind"@)
        } else {
            None
        },
    }
}

pub open spec fn opt_view(o: Option<&str>) -> Option<Seq<char>> {
    match o {
        Some(s) => Some(s@),
        None => None,
    }
}

impl AutonomyPolicy {
    /// Validate the (scope_kind, plan_id, decision_kind, pattern_kind) tuple.
    pub fn validate_scope(
        scope_kind: AutonomyScopeKind,
        plan_id: Option<&Id>,
        decision_kind: Option<&str>,
        pattern_kind: Option<&str>,
    ) -> (r: Result<(), DomainError>)
        ensures
            match spec_scope_violation(scope_kind, plan_id is Some, opt_view(decision_kind), opt_view(pattern_kind)) {
                None => r is Ok,
                Some(msg) => r matches Err(e) && is_validation(e, msg),
            },
    {
        match scope_kind {
            AutonomyScopeKind::Plan => {
                if plan_id.is_none() {
                    return Err(validation(owned("scope=plan requires plan_id")));
                }
                if decision_kind.is_some() {
                    return Err(validation(owned("scope=plan forbids decision_kind")));
                }
                if pattern_kind.is_some() {
                    return Err(validation(owned("scope=plan forbids pattern_kind")));
                }
            },
            AutonomyScopeKind::DecisionKind => {
                if decision_kind.is_none() {
                    return Err(validation(owned("scope=decision_kind requires decision_kind")));
                }
                if pattern_kind.is_some() {
                    return Err(validation(owned("scope=decision_kind forbids pattern_kind")));
                }
            },
            AutonomyScopeKind::PatternKind => {
                match pattern_kind {
                    None => {
                        return Err(validation(owned("scope=pattern_kind requires pattern_kind")));
                    },
                    Some(pk) => {
                        if plan_id.is_some() {
                            return Err(validation(owned("scope=pattern_kind forbids plan_id")));
                        }
                        if decision_kind.is_some() {
                            return Err(validation(owned("scope=pattern_kind forbids decision_kind")));
                        }
                        if !(str_eq(pk, "workflow") || str_eq(pk, "graph") || str_eq(pk, "swarm")
                            || str_eq(pk, "agents-as-tools") || str_eq(pk, "direct")) {
                            return Err(validation(concat2("unknown pattern_kind: ", pk)));
                        }
                    },
                }
            },
            AutonomyScopeKind::Global => {
                if plan_id.is_some() || decision_kind.is_some() || pattern_kind.is_some() {
                    return Err(
                        validation(
                            owned("scope=global forbids plan_id / decision_kind / pattern_kind"),
                        ),
                    );
                }
            },
        }
        Ok(())
    }

    /// A decision-kind policy for one of the kinds forced to L4 may not be
    /// looser than L4; other kinds, and other scopes, take any mode.
    pub fn validate_mode_against_kind(
        scope_kind: AutonomyScopeKind,
        decision_kind: Option<&str>,
        mode: AutonomyMode,
    ) -> (r: Result<(), DomainError>)
        ensures
            match decision_kind {
                Some(kind) => if scope_kind == AutonomyScopeKind::DecisionKind && !spec_kind_mode_allowed(
                    kind@,
                    mode,
                ) {
                    r matches Err(e) && is_autonomy_gate_blocked(
                        e,
                        kind@,
                        spec_floor_for_kind(kind@).spec_name(),
                        mode.spec_name(),
                    )
                } else {
                    r is Ok
                },
                None => r is Ok,
            },
    {
        if scope_kind == AutonomyScopeKind::DecisionKind {
            if let Some(kind) = decision_kind {
                if AutonomyMode::is_forced_l4(kind) {
                    let floor = AutonomyMode::floor_for_kind(kind);
                    if !mode.satisfies(floor) {
                        return Err(
                            DomainError::AutonomyGateBlocked {
                                kind: owned(kind),
                                required: floor.to_string(),
                                actual: mode.to_string(),
                            },
                        );
                    }
                }
            }
        }
        Ok(())
    }
}


/// The autonomy tables written out: the three forced kinds; the floor they
/// get; how strictness orders the modes (L3 asks most, L5 least); the
/// default mode of each pattern kind; and that the effective mode of a plan
/// and a pattern is L3 if either is L3, else L4 if either is L4, else L5.
pub proof fn law_autonomy_tables(kind: Seq<char>, m: AutonomyMode, f: AutonomyMode)
    ensures
        spec_is_forced_l4(kind) <==> (kind == "architecture"@ || kind == "schema"@ || kind == "naming-canonical"@),
        spec_floor_for_kind(kind) == (if kind == "architecture"@ || kind == "schema"@ || kind == "naming-canonical"@ {
            AutonomyMode::L4
        } else {
            AutonomyMode::L3
        }),
        spec_satisfies(m, f) <==> (m == AutonomyMode::L3 || (m == AutonomyMode::L4 && f != AutonomyMode::L3) || (m
            == AutonomyMode::L5 && f == AutonomyMode::L5)),
        (kind == "workflow"@ || kind == "graph"@) ==> spec_default_pattern_kind_mode(kind) == AutonomyMode::L5,
        (kind == "swarm"@ || kind == "agents-as-tools"@) ==> spec_default_pattern_kind_mode(kind) == AutonomyMode::L4,
        !(kind == "workflow"@ || kind == "graph"@ || kind == "swarm"@ || kind == "agents-as-tools"@)
            ==> spec_default_pattern_kind_mode(kind) == AutonomyMode::L3,
        spec_effective_mode(m, f) == (if m == AutonomyMode::L3 || f == AutonomyMode::L3 {
            AutonomyMode::L3
        } else if m == AutonomyMode::L4 || f == AutonomyMode::L4 {
            AutonomyMode::L4
        } else {
            AutonomyMode::L5
        }),
        spec_kind_mode_allowed(kind, m) <==> !((kind == "architecture"@ || kind == "schema"@ || kind
            == "naming-canonical"@) && m == AutonomyMode::L5),
{
    reveal_strlit("workflow");
    reveal_strlit("graph");
    reveal_strlit("swarm");
    reveal_strlit("agents-as-tools");
    assert("swarm"@.len() != "workflow"@.len() && "swarm"@.len() == "graph"@.len());
    assert("swarm"@[0] != "graph"@[0]);
    assert("agents-as-tools"@.len() != "workflow"@.len() && "agents-as-tools"@.len() != "graph"@.len());
}

/// Which scope tuples are valid: a plan scope names a plan and neither a
/// decision kind nor a pattern kind; a decision-kind scope names a decision
/// kind and no pattern kind; a pattern-kind scope names one of the five
/// pattern kinds and neither a plan nor a decision kind; the global scope
/// names none of the three.
pub proof fn law_scope_tuples(
    scope_kind: AutonomyScopeKind,
    has_plan: bool,
    decision_kind: Option<Seq<char>>,
    pattern_kind: Option<Seq<char>>,
)
    ensures
        scope_kind == AutonomyScopeKind::Plan ==> (spec_scope_violation(scope_kind, has_plan, decision_kind, pattern_kind)
            is None <==> (has_plan && decision_kind is None && pattern_kind is None)),
        scope_kind == AutonomyScopeKind::DecisionKind ==> (spec_scope_violation(
            scope_kind,
            has_plan,
            decision_kind,
            pattern_kind,
        ) is None <==> (decision_kind is Some && pattern_kind is None)),
        scope_kind == AutonomyScopeKind::PatternKind ==> (spec_scope_violation(
            scope_kind,
            has_plan,
            decision_kind,
            pattern_kind,
        ) is None <==> (!has_plan && decision_kind is None && (pattern_kind matches Some(p) && (p == "workflow"@
            || p == "graph"@ || p == "swarm"@ || p == "agents-as-tools"@ || p == "direct"@)))),
        scope_kind == AutonomyScopeKind::Global ==> (spec_scope_violation(scope_kind, has_plan, decision_kind, pattern_kind)
            is None <==> (!has_plan && decision_kind is None && pattern_kind is None)),
{
}

} // verus!
