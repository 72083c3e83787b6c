//! Scenarios: strict Given/When/Then, dependency edges and resource claims.
use vstd::prelude::*;
use crate::error::{DomainError, is_validation, validation};
use crate::text::{str_eq, owned, concat2, concat3};

use crate::ids::{Id, Timestamp};
use crate::pattern::ClaimStatus;
use crate::json::{views, decoded_string_list, decode_string_list};
use crate::text::{spec_is_blank, is_blank, spec_trim, trim_chars, chars_of};

verus! {

/// Scenario authoring status.
#[derive(Debug, Clone, Copy, PartialEq, Eq, Structural)]
pub enum ScenarioStatus {
    Draft,
    Confirmed,
}

impl ScenarioStatus {
    /// Canonical wire name.
    pub open spec fn spec_name(self) -> Seq<char> {
        match self {
            ScenarioStatus::Draft => "draft"@,
            ScenarioStatus::Confirmed => "confirmed"@,
        }
    }

    /// The value whose wire name is `s`, if any.
    pub open spec fn from_name(s: Seq<char>) -> Option<ScenarioStatus> {
        if s == "draft"@ {
            Some(ScenarioStatus::Draft)
        } else if s == "confirmed"@ {
            Some(ScenarioStatus::Confirmed)
        } else {
            None
        }
    }

    pub fn as_str(self) -> (r: &'static str)
        ensures
            r@ == self.spec_name(),
    {
        match self {
            ScenarioStatus::Draft => "draft",
            ScenarioStatus::Confirmed => "confirmed",
        }
    }

    pub fn to_string(&self) -> (r: String)
        ensures
            r@ == self.spec_name(),
    {
        owned(self.as_str())
    }

    pub fn parse(s: &str) -> (r: Result<ScenarioStatus, DomainError>)
        ensures
            match r {
                Ok(k) => ScenarioStatus::from_name(s@) == Some(k),
                Err(e) => ScenarioStatus::from_name(s@) is None && is_validation(e, "unknown scenario status: "@ + s@),
            },
    {
        if str_eq(s, "draft") {
            Ok(ScenarioStatus::Draft)
        } else if str_eq(s, "confirmed") {
            Ok(ScenarioStatus::Confirmed)
        } else {
            Err(validation(concat2("unknown scenario status: ", s)))
        }
    }
}

impl core::str::FromStr for ScenarioStatus {
    type Err = DomainError;

    fn from_str(s: &str) -> (r: Result<ScenarioStatus, DomainError>)
        ensures
            match r {
                Ok(k) => ScenarioStatus::from_name(s@) == Some(k),
                Err(e) => ScenarioStatus::from_name(s@) is None && is_validation(e, "unknown scenario status: "@ + s@),
            },
    {
        ScenarioStatus::parse(s)
    }
}

/// Every `ScenarioStatus` parses back from its own wire name, and a name that
/// parses to a value is exactly that value's wire name.
pub proof fn lemma_scenario_status_names(k: ScenarioStatus, s: Seq<char>)
    ensures
        ScenarioStatus::from_name(k.spec_name()) == Some(k),
        ScenarioStatus::from_name(s) == Some(k) ==> s == k.spec_name(),
{
    reveal_strlit("draft");
    reveal_strlit("confirmed");
    assert("draft"@.len() == 5);
    assert("confirmed"@.len() == 9);
}

/// Per-round outcome of one scenario.
#[derive(Debug, Clone, Copy, PartialEq, Eq, Structural)]
pub enum ScenarioResult {
    Passing,
    Failing,
    Impacted,
    Retired,
}

impl ScenarioResult {
    /// Canonical wire name.
    pub open spec fn spec_name(self) -> Seq<char> {
        match self {
            ScenarioResult::Passing => "passing"@,
            ScenarioResult::Failing => "failing"@,
            ScenarioResult::Impacted => "impacted"@,
            ScenarioResult::Retired => "retired"@,
        }
    }

    /// The value whose wire name is `s`, if any.
    pub open spec fn from_name(s: Seq<char>) -> Option<ScenarioResult> {
        if s == "passing"@ {
            Some(ScenarioResult::Passing)
        } else if s == "failing"@ {
            Some(ScenarioResult::Failing)
        } else if s == "impacted"@ {
            Some(ScenarioResult::Impacted)
        } else if s == "retired"@ {
            Some(ScenarioResult::Retired)
        } else {
            None
        }
    }

    pub fn as_str(self) -> (r: &'static str)
        ensures
            r@ == self.spec_name(),
    {
        match self {
            ScenarioResult::Passing => "passing",
            ScenarioResult::Failing => "failing",
            ScenarioResult::Impacted => "impacted",
            ScenarioResult::Retired => "retired",
        }
    }

    pub fn to_string(&self) -> (r: String)
        ensures
            r@ == self.spec_name(),
    {
        owned(self.as_str())
    }

    pub fn parse(s: &str) -> (r: Result<ScenarioResult, DomainError>)
        ensures
            match r {
                Ok(k) => ScenarioResult::from_name(s@) == Some(k),
                Err(e) => ScenarioResult::from_name(s@) is None && is_validation(e, "unknown scenario result: "@ + s@),
            },
    {
        if str_eq(s, "passing") {
            Ok(ScenarioResult::Passing)
        } else if str_eq(s, "failing") {
            Ok(ScenarioResult::Failing)
        } else if str_eq(s, "impacted") {
            Ok(ScenarioResult::Impacted)
        } else if str_eq(s, "retired") {
            Ok(ScenarioResult::Retired)
        } else {
            Err(validation(concat2("unknown scenario result: ", s)))
        }
    }
}

impl core::str::FromStr for ScenarioResult {
    type Err = DomainError;

    fn from_str(s: &str) -> (r: Result<ScenarioResult, DomainError>)
        ensures
            match r {
                Ok(k) => ScenarioResult::from_name(s@) == Some(k),
                Err(e) => ScenarioResult::from_name(s@) is None && is_validation(e, "unknown scenario result: "@ + s@),
            },
    {
        ScenarioResult::parse(s)
    }
}

/// Every `ScenarioResult` parses back from its own wire name, and a name that
/// parses to a value is exactly that value's wire name.
pub proof fn lemma_scenario_result_names(k: ScenarioResult, s: Seq<char>)
    ensures
        ScenarioResult::from_name(k.spec_name()) == Some(k),
        ScenarioResult::from_name(s) == Some(k) ==> s == k.spec_name(),
{
    reveal_strlit("passing");
    reveal_strlit("failing");
    reveal_strlit("impacted");
    reveal_strlit("retired");
    assert("passing"@.len() == 7);
    assert("failing"@.len() == 7);
    assert("impacted"@.len() == 8);
    assert("retired"@.len() == 7);
    assert("passing"@[0] != "failing"@[0]);
    assert("passing"@[0] != "retired"@[0]);
    assert("failing"@[0] != "retired"@[0]);
}

/// A Given/When/Then scenario.
#[derive(Debug, Clone)]
pub struct Scenario {
    pub id: Id,
    pub plan_id: Id,
    pub short_code: String,
    pub given: String,
    pub when_clause: String,
    pub then_clause: String,
    pub tags: Vec<String>,
    pub origin_round_id: Option<Id>,
    pub status: ScenarioStatus,
    pub depends_on: Vec<String>,
    pub produced_by: Option<String>,
    pub verified_by: Option<String>,
    pub claimed_resources_json: String,
    pub claim_status: ClaimStatus,
    pub produced_via_pattern_id: Option<String>,
    pub retired_at: Option<Timestamp>,
    pub belongs_to_flow_id: Option<String>,
    pub covers_flow_step: Option<String>,
    pub created_at: Timestamp,
    pub updated_at: Timestamp,
}

/// Claimed resources of a scenario that records none.
pub fn default_claimed_resources_json() -> (r: String)
    ensures
        r@ == "[]"@,
{
    owned("[]")
}

/// Claim status of a scenario that records none.
pub fn default_claim_status() -> (r: ClaimStatus)
    ensures
        r == ClaimStatus::NoClaim,
{
    ClaimStatus::NoClaim
}

/// The first blank Given/When/Then field, if any.
pub open spec fn spec_first_blank_gwt(given: Seq<char>, when_clause: Seq<char>, then_clause: Seq<char>) -> Option<Seq<char>> {
    if spec_is_blank(given) {
        Some("given"@)
    } else if spec_is_blank(when_clause) {
        Some("when"@)
    } else if spec_is_blank(then_clause) {
        Some("then"@)
    } else {
        None
    }
}

/// `list` holds an entry equal to `s`.
pub open spec fn seq_has_text(list: Seq<String>, s: Seq<char>) -> bool {
    exists|i: int| 0 <= i < list.len() && (#[trigger] list[i])@ == s
}

/// A glob with no literal character (only `*`, `?`, `/`, `.`).
pub open spec fn spec_is_wildcard_only(s: Seq<char>) -> bool {
    forall|i: int| 0 <= i < s.len() ==> (#[trigger] s[i] == '*' || s[i] == '?' || s[i] == '/' || s[i] == '.')
}

/// The message of the first claimed-resource rule broken, if any.
pub open spec fn spec_claim_violation(entries: Seq<Seq<char>>) -> Option<Seq<char>>
    decreases entries.len(),
{
    if entries.len() == 0 {
        None
    } else {
        let e = entries[0];
        if spec_trim(e).len() == 0 {
            Some("claimed_resources entry must be non-empty"@)
        } else if spec_is_wildcard_only(spec_trim(e)) {
            Some("claimed_resources entry has no literal path component: "@ + e)
        } else {
            spec_claim_violation(entries.drop_first())
        }
    }
}

impl Scenario {
    /// Given, when and then must each hold non-blank text.
    pub fn validate_gwt(given: &str, when_clause: &str, then_clause: &str) -> (r: Result<(), DomainError>)
        ensures
            match spec_first_blank_gwt(given@, when_clause@, then_clause@) {
                None => r is Ok,
                Some(f) => r matches Err(DomainError::GwtEmpty { field }) && field@ == f,
            },
    {
        if is_blank(given) {
            return Err(DomainError::GwtEmpty { field: "given" });
        }
        if is_blank(when_clause) {
            return Err(DomainError::GwtEmpty { field: "when" });
        }
        if is_blank(then_clause) {
            return Err(DomainError::GwtEmpty { field: "then" });
        }
        Ok(())
    }

    /// A scenario may not depend on itself.
    pub fn validate_depends_on(short_code: &str, depends_on: &[String]) -> (r: Result<(), DomainError>)
        ensures
            !seq_has_text(depends_on@, short_code@) ==> r is Ok,
            seq_has_text(depends_on@, short_code@) ==> (r matches Err(e) && is_validation(
                e,
                "scenario "@ + short_code@ + " depends_on cannot include itself"@,
            )),
    {
        let mut i: usize = 0;
        while i < depends_on.len()
            invariant
                i <= depends_on@.len(),
                forall|k: int| 0 <= k < i ==> (#[trigger] depends_on@[k])@ != short_code@,
            decreases depends_on@.len() - i,
        {
            if str_eq(depends_on[i].as_str(), short_code) {
                return Err(validation(concat3("scenario ", short_code, " depends_on cannot include itself")));
            }
            i += 1;
        }
        Ok(())
    }
}

fn is_wildcard_only(v: &Vec<char>) -> (r: bool)
    ensures
        r == spec_is_wildcard_only(v@),
{
    let mut i: usize = 0;
    while i < v.len()
        invariant
            i <= v@.len(),
            forall|k: int| 0 <= k < i ==> (#[trigger] v@[k] == '*' || v@[k] == '?' || v@[k] == '/' || v@[k] == '.'),
        decreases v@.len() - i,
    {
        let c = v[i];
        if !(c == '*' || c == '?' || c == '/' || c == '.') {
            return false;
        }
        i += 1;
    }
    true
}

/// The claimed path globs, once decoded: `parsed` holds the entries, or the
/// decoder's error message. Every entry must be non-blank and carry a literal
/// path character.
pub fn check_claimed_resources(parsed: Result<Vec<String>, String>) -> (r: Result<Vec<String>, DomainError>)
    ensures
        match parsed {
            Err(e) => r matches Err(x) && is_validation(x, "claimed_resources parse error: "@ + e@),
            Ok(entries) => match spec_claim_violation(views(entries@)) {
                None => r matches Ok(v) && v@ == entries@,
                Some(msg) => r matches Err(x) && is_validation(x, msg),
            },
        },
{
    let entries = match parsed {
        Err(e) => {
            return Err(validation(concat2("claimed_resources parse error: ", e.as_str())));
        },
        Ok(v) => v,
    };
    let ghost ev = views(entries@);
    assert(ev.subrange(0, ev.len() as int) =~= ev);
    let mut i: usize = 0;
    while i < entries.len()
        invariant
            parsed == Ok::<Vec<String>, String>(entries),
            ev == views(entries@),
            i <= entries@.len(),
            spec_claim_violation(ev) == spec_claim_violation(ev.subrange(i as int, ev.len() as int)),
        decreases entries@.len() - i,
    {
        let ghost rest = ev.subrange(i as int, ev.len() as int);
        assert(rest.drop_first() =~= ev.subrange(i + 1, ev.len() as int));
        assert(rest[0] == entries@[i as int]@);
        let chars = chars_of(entries[i].as_str());
        let trimmed = trim_chars(&chars);
        if trimmed.len() == 0 {
            return Err(validation(owned("claimed_resources entry must be non-empty")));
        }
        if is_wildcard_only(&trimmed) {
            return Err(
                validation(
                    concat2("claimed_resources entry has no literal path component: ", entries[i].as_str()),
                ),
            );
        }
        i += 1;
    }
    assert(ev.subrange(ev.len() as int, ev.len() as int).len() == 0);
    Ok(entries)
}

/// Validate the stored JSON text of a scenario's claimed path globs: it must
/// decode as an array of strings, each non-blank with a literal path
/// character. The entries are returned.
pub fn validate_claimed_resources(json: &str) -> (r: Result<Vec<String>, DomainError>)
    ensures
        match decoded_string_list(json@) {
            Err(e) => r matches Err(x) && is_validation(x, "claimed_resources parse error: "@ + e),
            Ok(entries) => match spec_claim_violation(entries) {
                None => r matches Ok(v) && views(v@) == entries,
                Some(msg) => r matches Err(x) && is_validation(x, msg),
            },
        },
{
    check_claimed_resources(decode_string_list(json))
}

/// The GWT gate: a scenario passes exactly when none of given, when and
/// then is blank, and the first blank one, in that order, is the one named.
pub proof fn law_gwt_gate(given: Seq<char>, when_clause: Seq<char>, then_clause: Seq<char>)
    ensures
        spec_first_blank_gwt(given, when_clause, then_clause) is None <==> (!spec_is_blank(given)
            && !spec_is_blank(when_clause) && !spec_is_blank(then_clause)),
        spec_is_blank(given) ==> spec_first_blank_gwt(given, when_clause, then_clause) == Some("given"@),
        !spec_is_blank(given) && spec_is_blank(when_clause) ==> spec_first_blank_gwt(given, when_clause, then_clause)
            == Some("when"@),
        !spec_is_blank(given) && !spec_is_blank(when_clause) && spec_is_blank(then_clause)
            ==> spec_first_blank_gwt(given, when_clause, then_clause) == Some("then"@),
{
}

/// The claimed resources are accepted exactly when every entry, trimmed, is
/// non-empty and holds some character other than `*`, `?`, `/` and `.`.
pub proof fn law_claims_accepted(entries: Seq<Seq<char>>)
    ensures
        spec_claim_violation(entries) is None <==> forall|i: int| 0 <= i < entries.len() ==> (spec_trim(
            #[trigger] entries[i],
        ).len() > 0 && exists|j: int| 0 <= j < spec_trim(entries[i]).len() && !(spec_trim(entries[i])[j] == '*'
            || spec_trim(entries[i])[j] == '?' || spec_trim(entries[i])[j] == '/' || spec_trim(entries[i])[j] == '.')),
    decreases entries.len(),
{
    if entries.len() > 0 {
        law_claims_accepted(entries.drop_first());
        let ok = |e: Seq<char>| spec_trim(e).len() > 0 && exists|j: int| 0 <= j < spec_trim(e).len() && !(spec_trim(e)[j]
            == '*' || spec_trim(e)[j] == '?' || spec_trim(e)[j] == '/' || spec_trim(e)[j] == '.');
        assert(ok(entries[0]) <==> (spec_trim(entries[0]).len() > 0 && !spec_is_wildcard_only(spec_trim(entries[0]))));
        assert forall|i: int| 0 < i < entries.len() implies #[trigger] entries[i] == entries.drop_first()[i - 1] by {}
        if spec_claim_violation(entries) is None {
            assert forall|i: int| 0 <= i < entries.len() implies ok(#[trigger] entries[i]) by {
                if i > 0 {
                    assert(entries.drop_first()[i - 1] == entries[i]);
                }
            }
        } else if forall|i: int| 0 <= i < entries.len() ==> ok(#[trigger] entries[i]) {
            assert(ok(entries[0]));
            assert forall|i: int| 0 <= i < entries.drop_first().len() implies ok(#[trigger] entries.drop_first()[i]) by {
                assert(entries[i + 1] == entries.drop_first()[i]);
            }
        }
    }
}

} // verus!
