//! Product-definition graph: nodes with four facet axes and open markers,
//! and the completeness rules over them.
use vstd::prelude::*;
use crate::error::{DomainError, is_validation, validation};
use crate::text::{str_eq, owned, concat2, concat3};

use crate::ids::{Id, Timestamp};
use crate::json::{Json, decode_json, decoded_json};
use crate::text::{spec_is_blank, is_blank, spec_split_once, split_once_chars, chars_of, string_of};

verus! {

/// Trust level of a node.
#[derive(Debug, Clone, Copy, PartialEq, Eq, Structural)]
pub enum Confidence {
    Unverified,
    Inferred,
    High,
}

impl Confidence {
    /// Canonical wire name.
    pub open spec fn spec_name(self) -> Seq<char> {
        match self {
            Confidence::Unverified => "unverified"@,
            Confidence::Inferred => "inferred"@,
            Confidence::High => "high"@,
        }
    }

    /// The value whose wire name is `s`, if any.
    pub open spec fn from_name(s: Seq<char>) -> Option<Confidence> {
        if s == "unverified"@ {
            Some(Confidence::Unverified)
        } else if s == "inferred"@ {
            Some(Confidence::Inferred)
        } else if s == "high"@ {
            Some(Confidence::High)
        } else {
            None
        }
    }

    pub fn as_str(self) -> (r: &'static str)
        ensures
            r@ == self.spec_name(),
    {
        match self {
            Confidence::Unverified => "unverified",
            Confidence::Inferred => "inferred",
            Confidence::High => "high",
        }
    }

    pub fn to_string(&self) -> (r: String)
        ensures
            r@ == self.spec_name(),
    {
        owned(self.as_str())
    }

    pub fn parse(s: &str) -> (r: Result<Confidence, DomainError>)
        ensures
            match r {
                Ok(k) => Confidence::from_name(s@) == Some(k),
                Err(e) => Confidence::from_name(s@) is None && is_validation(e, "unknown confidence: "@ + s@),
            },
    {
        if str_eq(s, "unverified") {
            Ok(Confidence::Unverified)
        } else if str_eq(s, "inferred") {
            Ok(Confidence::Inferred)
        } else if str_eq(s, "high") {
            Ok(Confidence::High)
        } else {
            Err(validation(concat2("unknown confidence: ", s)))
        }
    }
}

impl core::str::FromStr for Confidence {
    type Err = DomainError;

    fn from_str(s: &str) -> (r: Result<Confidence, DomainError>)
        ensures
            match r {
                Ok(k) => Confidence::from_name(s@) == Some(k),
                Err(e) => Confidence::from_name(s@) is None && is_validation(e, "unknown confidence: "@ + s@),
            },
    {
        Confidence::parse(s)
    }
}

impl core::default::Default for Confidence {
    fn default() -> (r: Confidence)
        ensures
            r == Confidence::Unverified,
    {
        Confidence::Unverified
    }
}

/// Every `Confidence` parses back from its own wire name, and a name that
/// parses to a value is exactly that value's wire name.
pub proof fn lemma_confidence_names(k: Confidence, s: Seq<char>)
    ensures
        Confidence::from_name(k.spec_name()) == Some(k),
        Confidence::from_name(s) == Some(k) ==> s == k.spec_name(),
{
    reveal_strlit("unverified");
    reveal_strlit("inferred");
    reveal_strlit("high");
    assert("unverified"@.len() == 10);
    assert("inferred"@.len() == 8);
    assert("high"@.len() == 4);
}

/// An unresolved blank in a node's facets, optionally linked to the question
/// that fills it.
#[derive(Debug, Clone)]
pub struct OpenMarker {
    pub id: String,
    pub field: String,
    pub description: String,
    pub question_id: Option<String>,
}

/// A node of the product-definition graph.
#[derive(Debug, Clone)]
pub struct SsotNode {
    pub id: Id,
    pub project_id: Id,
    pub short_code: String,
    pub kind: String,
    pub title: String,
    pub facets_json: String,
    pub open_markers_json: String,
    pub confidence: Confidence,
    pub produced_via_pattern_id: Option<String>,
    pub created_at: Timestamp,
    pub updated_at: Timestamp,
}

/// An edge; `to_ref` is a logical reference, so it may dangle.
#[derive(Debug, Clone)]
pub struct SsotEdge {
    pub id: Id,
    pub project_id: Id,
    pub from_node: Id,
    pub to_ref: String,
    pub rel: String,
    pub created_at: Timestamp,
}

/// Facets of a node that records none.
pub fn default_facets_json() -> (r: String)
    ensures
        r@ == "{}"@,
{
    owned("{}")
}

/// Open markers of a node that records none.
pub fn default_json_array() -> (r: String)
    ensures
        r@ == "[]"@,
{
    owned("[]")
}

/// A facet value carries content: a non-blank string, a non-empty array or
/// object, or any non-null scalar.
pub open spec fn spec_facet_value_filled(v: Json) -> bool {
    match v {
        Json::Null => false,
        Json::Str(s) => !spec_is_blank(s@),
        Json::Array(a) => a@.len() > 0,
        Json::Object(o) => o@.len() > 0,
        _ => true,
    }
}

pub fn facet_value_filled(v: &Json) -> (r: bool)
    ensures
        r == spec_facet_value_filled(*v),
{
    match v {
        Json::Null => false,
        Json::Str(s) => !is_blank(s.as_str()),
        Json::Array(a) => a.len() > 0,
        Json::Object(o) => o.len() > 0,
        _ => true,
    }
}

/// The value of the first member named `key`.
pub open spec fn spec_member(members: Seq<(String, Json)>, key: Seq<char>) -> Option<Json>
    decreases members.len(),
{
    if members.len() == 0 {
        None
    } else if members[0].0@ == key {
        Some(members[0].1)
    } else {
        spec_member(members.drop_first(), key)
    }
}

/// The index of the first member named `key`.
pub(crate) fn find_member(members: &Vec<(String, Json)>, key: &str) -> (r: Option<usize>)
    ensures
        match r {
            Some(i) => i < members@.len() && spec_member(members@, key@) == Some(members@[i as int].1),
            None => spec_member(members@, key@) is None,
        },
{
    assert(members@.subrange(0, members@.len() as int) =~= members@);
    let mut i: usize = 0;
    while i < members.len()
        invariant
            i <= members@.len(),
            spec_member(members@, key@) == spec_member(members@.subrange(i as int, members@.len() as int), key@),
        decreases members@.len() - i,
    {
        proof {
            let rest = members@.subrange(i as int, members@.len() as int);
            assert(rest.drop_first() =~= members@.subrange(i + 1, members@.len() as int));
        }
        if str_eq(members[i].0.as_str(), key) {
            return Some(i);
        }
        i += 1;
    }
    None
}

/// Kind-specific required facets, as `axis.field` paths.
pub open spec fn spec_required_facets(kind: Seq<char>) -> Seq<Seq<char>> {
    if kind == "Persona"@ || kind == "Capability"@ || kind == "Screen"@ || kind == "Endpoint"@
        || kind == "SystemComponent"@ || kind == "Integration"@ || kind == "Platform"@ {
        seq!["business.purpose"@]
    } else if kind == "Domain"@ || kind == "Concept"@ || kind == "Invariant"@ || kind
        == "Decision"@ {
        seq!["domain.definition"@]
    } else {
        Seq::empty()
    }
}

/// `axis.field` is present and filled in the decoded facets.
pub open spec fn spec_path_filled(facets: Option<Seq<(String, Json)>>, path: Seq<char>) -> bool {
    match spec_split_once(path, '.') {
        None => false,
        Some((axis, field)) => match facets {
            None => false,
            Some(m) => match spec_member(m, axis) {
                Some(Json::Object(inner)) => match spec_member(inner@, field) {
                    Some(v) => spec_facet_value_filled(v),
                    None => false,
                },
                _ => false,
            },
        },
    }
}

/// The required paths that are not filled, in order.
pub open spec fn spec_missing(facets: Option<Seq<(String, Json)>>, req: Seq<Seq<char>>) -> Seq<Seq<char>>
    decreases req.len(),
{
    if req.len() == 0 {
        Seq::empty()
    } else if spec_path_filled(facets, req.last()) {
        spec_missing(facets, req.drop_last())
    } else {
        spec_missing(facets, req.drop_last()).push(req.last())
    }
}

/// The members of the facets a text decodes to, when it decodes to an object.
pub open spec fn spec_facet_members(text: Seq<char>) -> Option<Seq<(String, Json)>> {
    match decoded_json(text) {
        Ok(Json::Object(m)) => Some(m@),
        _ => None,
    }
}

pub open spec fn opt_members(o: Option<Vec<(String, Json)>>) -> Option<Seq<(String, Json)>> {
    match o {
        Some(v) => Some(v@),
        None => None,
    }
}

pub open spec fn strings_view(v: Seq<String>) -> Seq<Seq<char>> {
    v.map_values(|s: String| s@)
}

impl SsotNode {
    /// `kind` and `title` must not be blank.
    pub fn validate_header(kind: &str, title: &str) -> (r: Result<(), DomainError>)
        ensures
            spec_is_blank(kind@) ==> (r matches Err(e) && is_validation(e, "ssot node kind must be non-empty"@)),
            !spec_is_blank(kind@) && spec_is_blank(title@) ==> (r matches Err(e) && is_validation(
                e,
                "ssot node title must be non-empty"@,
            )),
            !spec_is_blank(kind@) && !spec_is_blank(title@) ==> r is Ok,
    {
        if is_blank(kind) {
            return Err(validation(owned("ssot node kind must be non-empty")));
        }
        if is_blank(title) {
            return Err(validation(owned("ssot node title must be non-empty")));
        }
        Ok(())
    }

    /// The facets of a node must decode to a JSON object; returns its members.
    pub fn parse_facets(s: &str) -> (r: Result<Vec<(String, Json)>, DomainError>)
        ensures
            match decoded_json(s@) {
                Err(e) => r matches Err(x) && is_validation(x, "facets_json parse error: "@ + e),
                Ok(Json::Object(m)) => r matches Ok(v) && v@ == m@,
                Ok(_) => r matches Err(x) && is_validation(x, "facets_json must be an object"@),
            },
    {
        match decode_json(s) {
            Err(e) => Err(validation(concat2("facets_json parse error: ", e.as_str()))),
            Ok(Json::Object(m)) => Ok(m),
            Ok(_) => Err(validation(owned("facets_json must be an object"))),
        }
    }

    /// The open markers of a node. `parsed` is the decoding of
    /// `open_markers_json` as an array of markers, or the decoder's error text.
    pub fn parse_open_markers(parsed: Result<Vec<OpenMarker>, String>) -> (r: Result<Vec<OpenMarker>, DomainError>)
        ensures
            match parsed {
                Err(e) => r matches Err(x) && is_validation(x, "open_markers_json parse error: "@ + e@),
                Ok(v) => r matches Ok(w) && w@ == v@,
            },
    {
        match parsed {
            Err(e) => Err(validation(concat2("open_markers_json parse error: ", e.as_str()))),
            Ok(v) => Ok(v),
        }
    }

    /// Required facets of a node kind; unknown kinds require none.
    pub fn required_facets(kind: &str) -> (r: Vec<&'static str>)
        ensures
            r@.map_values(|s: &'static str| s@) == spec_required_facets(kind@),
    {
        if str_eq(kind, "Persona") || str_eq(kind, "Capability") || str_eq(kind, "Screen") || str_eq(
            kind,
            "Endpoint",
        ) || str_eq(kind, "SystemComponent") || str_eq(kind, "Integration") || str_eq(
            kind,
            "Platform",
        ) {
            let r = vec!["business.purpose"];
            assert(r@.map_values(|s: &'static str| s@) =~= spec_required_facets(kind@));
            r
        } else if str_eq(kind, "Domain") || str_eq(kind, "Concept") || str_eq(kind, "Invariant")
            || str_eq(kind, "Decision") {
            let r = vec!["domain.definition"];
            assert(r@.map_values(|s: &'static str| s@) =~= spec_required_facets(kind@));
            r
        } else {
            let r: Vec<&'static str> = Vec::new();
            assert(r@.map_values(|s: &'static str| s@) =~= spec_required_facets(kind@));
            r
        }
    }

    /// The required `axis.field` paths of this node's kind that its facets
    /// do not fill. Facets that do not decode to an object leave every
    /// requirement missing.
    pub fn missing_required_facets(&self) -> (r: Vec<String>)
        ensures
            strings_view(r@) == spec_missing(spec_facet_members(self.facets_json@), spec_required_facets(self.kind@)),
    {
        let facets = match SsotNode::parse_facets(self.facets_json.as_str()) {
            Ok(m) => Some(m),
            Err(_) => None,
        };
        self.missing_for(&facets)
    }

    fn missing_for(&self, facets: &Option<Vec<(String, Json)>>) -> (r: Vec<String>)
        ensures
            strings_view(r@) == spec_missing(opt_members(*facets), spec_required_facets(self.kind@)),
    {
        let req = SsotNode::required_facets(self.kind.as_str());
        let ghost reqv = req@.map_values(|s: &'static str| s@);
        let mut out: Vec<String> = Vec::new();
        let mut i: usize = 0;
        while i < req.len()
            invariant
                reqv == req@.map_values(|s: &'static str| s@),
                reqv == spec_required_facets(self.kind@),
                i <= req@.len(),
                strings_view(out@) == spec_missing(opt_members(*facets), reqv.take(i as int)),
            decreases req@.len() - i,
        {
            let path = req[i];
            let filled = path_filled(facets, path);
            proof {
                assert(reqv.take(i + 1).drop_last() =~= reqv.take(i as int));
                assert(reqv.take(i + 1).last() == path@);
            }
            if !filled {
                out.push(owned(path));
                assert(strings_view(out@) =~= spec_missing(opt_members(*facets), reqv.take(i as int)).push(path@));
            }
            i += 1;
        }
        assert(reqv.take(req@.len() as int) =~= reqv);
        out
    }

    /// Facet-complete: the open markers decode to an empty list and every
    /// required facet is filled. `markers` is the decoding of
    /// `open_markers_json` (`None` when it does not decode).
    pub fn is_facet_complete(&self, markers: &Option<Vec<OpenMarker>>) -> (r: bool)
        ensures
            r == ((*markers matches Some(m) && m@.len() == 0) && spec_missing(
                spec_facet_members(self.facets_json@),
                spec_required_facets(self.kind@),
            ).len() == 0),
    {
        let no_markers = match markers {
            Some(m) => m.len() == 0,
            None => false,
        };
        no_markers && self.missing_required_facets().len() == 0
    }

    /// Close the open marker `marker_id`: the decoded markers without it.
    /// Removing an absent id leaves the list unchanged. `parsed` is the
    /// decoding of `open_markers_json`, or the decoder's error text.
    pub fn remove_open_marker(parsed: Result<Vec<OpenMarker>, String>, marker_id: &str) -> (r: Result<Vec<OpenMarker>, DomainError>)
        ensures
            match parsed {
                Err(e) => r matches Err(x) && is_validation(x, "open_markers_json parse error: "@ + e@),
                Ok(v) => r matches Ok(w) && w@ == open_after_close(v@, marker_id@),
            },
    {
        let mut v = match parsed {
            Err(e) => {
                return Err(validation(concat2("open_markers_json parse error: ", e.as_str())));
            },
            Ok(v) => v,
        };
        let ghost orig = v@;
        let ghost pred = keeps(marker_id@);
        let n = v.len();
        let mut out: Vec<OpenMarker> = Vec::new();
        let mut k: usize = 0;
        while v.len() > 0
            invariant
                n == orig.len(),
                pred == keeps(marker_id@),
                k <= orig.len(),
                v@ == orig.subrange(k as int, orig.len() as int),
                out@ == orig.take(k as int).filter(pred),
            decreases v@.len(),
        {
            let m = v.remove(0);
            proof {
                assert(orig.take(k + 1) =~= orig.take(k as int).push(m));
                orig.take(k as int).lemma_filter_push(m, pred);
            }
            let keep = !str_eq(m.id.as_str(), marker_id);
            assert(keep == pred(m));
            if keep {
                out.push(m);
            }
            k += 1;
            assert(v@ =~= orig.subrange(k as int, orig.len() as int));
        }
        assert(orig.take(orig.len() as int) =~= orig);
        Ok(out)
    }
}

/// Is `path` (`axis.field`) filled in the decoded facets?
fn path_filled(facets: &Option<Vec<(String, Json)>>, path: &str) -> (r: bool)
    ensures
        r == spec_path_filled(opt_members(*facets), path@),
{
    let chars = chars_of(path);
    let (axis, field) = match split_once_chars(&chars, '.') {
        None => return false,
        Some(p) => p,
    };
    let m = match facets {
        None => return false,
        Some(m) => m,
    };
    let axis_s = string_of(&axis, 0, axis.len());
    let field_s = string_of(&field, 0, field.len());
    assert(axis_s@ =~= axis@);
    assert(field_s@ =~= field@);
    match find_member(m, axis_s.as_str()) {
        None => false,
        Some(i) => match &m[i].1 {
            Json::Object(inner) => match find_member(inner, field_s.as_str()) {
                None => false,
                Some(j) => facet_value_filled(&inner[j].1),
            },
            _ => false,
        },
    }
}



/// A marker other than `marker_id`.
pub open spec fn keeps(marker_id: Seq<char>) -> spec_fn(OpenMarker) -> bool {
    |m: OpenMarker| m.id@ != marker_id
}

/// The markers that stay open once `marker_id` is closed.
pub open spec fn open_after_close(markers: Seq<OpenMarker>, marker_id: Seq<char>) -> Seq<OpenMarker> {
    markers.filter(keeps(marker_id))
}

/// Closing a marker twice is closing it once, and closing a marker that is
/// not open changes nothing.
pub proof fn law_close_marker_idempotent(markers: Seq<OpenMarker>, marker_id: Seq<char>)
    ensures
        open_after_close(open_after_close(markers, marker_id), marker_id) == open_after_close(markers, marker_id),
        (forall|i: int| 0 <= i < markers.len() ==> (#[trigger] markers[i]).id@ != marker_id) ==> open_after_close(
            markers,
            marker_id,
        ) == markers,
    decreases markers.len(),
{
    let p = keeps(marker_id);
    if markers.len() > 0 {
        let d = markers.drop_last();
        let x = markers.last();
        law_close_marker_idempotent(d, marker_id);
        assert(d.push(x) =~= markers);
        d.lemma_filter_push(x, p);
        d.filter(p).lemma_filter_push(x, p);
        if forall|i: int| 0 <= i < markers.len() ==> (#[trigger] markers[i]).id@ != marker_id {
            assert forall|i: int| 0 <= i < d.len() implies (#[trigger] d[i]).id@ != marker_id by {
                assert(d[i] == markers[i]);
            }
            assert(markers[markers.len() - 1] == x);
        }
    } else {
        reveal(Seq::filter);
        assert(markers.filter(p) =~= markers);
    }
}

/// The facet floor by kind: Persona, Capability, Screen, Endpoint,
/// SystemComponent, Integration and Platform need `business.purpose`;
/// Domain, Concept, Invariant and Decision need `domain.definition`; any
/// other kind needs nothing. A facet value counts as filled unless it is
/// null, a blank string, an empty array or an empty object.
pub proof fn law_facet_floor(kind: Seq<char>, v: Json)
    ensures
        (kind == "Persona"@ || kind == "Capability"@ || kind == "Screen"@ || kind == "Endpoint"@ || kind
            == "SystemComponent"@ || kind == "Integration"@ || kind == "Platform"@) ==> spec_required_facets(kind)
            == seq!["business.purpose"@],
        (kind == "Domain"@ || kind == "Concept"@ || kind == "Invariant"@ || kind == "Decision"@)
            ==> spec_required_facets(kind) == seq!["domain.definition"@],
        !(kind == "Persona"@ || kind == "Capability"@ || kind == "Screen"@ || kind == "Endpoint"@ || kind
            == "SystemComponent"@ || kind == "Integration"@ || kind == "Platform"@ || kind == "Domain"@ || kind
            == "Concept"@ || kind == "Invariant"@ || kind == "Decision"@) ==> spec_required_facets(kind).len() == 0,
        !spec_facet_value_filled(v) <==> (v is Null || (v matches Json::Str(s) && spec_is_blank(s@)) || (
        v matches Json::Array(a) && a@.len() == 0) || (v matches Json::Object(o) && o@.len() == 0)),
{
    reveal_strlit("Persona");
    reveal_strlit("Capability");
    reveal_strlit("Screen");
    reveal_strlit("Endpoint");
    reveal_strlit("SystemComponent");
    reveal_strlit("Integration");
    reveal_strlit("Platform");
    reveal_strlit("Domain");
    reveal_strlit("Concept");
    reveal_strlit("Invariant");
    reveal_strlit("Decision");
    assert("Domain"@.len() != "Persona"@.len());
    assert("Domain"@.len() != "Capability"@.len());
    assert("Domain"@[0] != "Screen"@[0]);
    assert("Domain"@.len() != "Endpoint"@.len());
    assert("Domain"@.len() != "SystemComponent"@.len());
    assert("Domain"@.len() != "Integration"@.len());
    assert("Domain"@.len() != "Platform"@.len());
    assert("Concept"@[0] != "Persona"@[0]);
    assert("Concept"@.len() != "Capability"@.len());
    assert("Concept"@.len() != "Screen"@.len());
    assert("Concept"@.len() != "Endpoint"@.len());
    assert("Concept"@.len() != "SystemComponent"@.len());
    assert("Concept"@.len() != "Integration"@.len());
    assert("Concept"@.len() != "Platform"@.len());
    assert("Invariant"@.len() != "Persona"@.len());
    assert("Invariant"@.len() != "Capability"@.len());
    assert("Invariant"@.len() != "Screen"@.len());
    assert("Invariant"@.len() != "Endpoint"@.len());
    assert("Invariant"@.len() != "SystemComponent"@.len());
    assert("Invariant"@.len() != "Integration"@.len());
    assert("Invariant"@.len() != "Platform"@.len());
    assert("Decision"@.len() != "Persona"@.len());
    assert("Decision"@.len() != "Capability"@.len());
    assert("Decision"@.len() != "Screen"@.len());
    assert("Decision"@[0] != "Endpoint"@[0]);
    assert("Decision"@.len() != "SystemComponent"@.len());
    assert("Decision"@.len() != "Integration"@.len());
    assert("Decision"@[0] != "Platform"@[0]);
}

} // verus!
