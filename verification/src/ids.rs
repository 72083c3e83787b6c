//! Identifiers (`<PREFIX>-<ULID>`) and timestamps.
use vstd::prelude::*;
use crate::text::concat2;
use crate::text::concat3;
use crate::text::owned;

verus! {

/// An instant in UTC, to the nanosecond: whole seconds since the Unix epoch
/// and the nanoseconds past them.
#[derive(Debug, Clone, Copy, PartialEq, Eq, Structural)]
pub struct Timestamp {
    pub secs: i64,
    pub nanos: u32,
}

/// The current wall-clock time (`std::time::SystemTime::now`, measured with
/// `duration_since(UNIX_EPOCH)`: `as_secs` and `subsec_nanos`, the latter
/// below 10^9 as std documents); `None` when the clock reads before the
/// epoch or past what an `i64` of seconds holds. `chrono::Utc::now` panics
/// on a pre-epoch clock, so the clock is read here directly. Nothing else is
/// promised of the value: it is the clock.
#[verifier::external_body]
pub fn now() -> (t: Option<Timestamp>)
    ensures
        t matches Some(ts) ==> ts.nanos < 1_000_000_000,
{
    let d = std::time::SystemTime::now().duration_since(std::time::UNIX_EPOCH).ok()?;
    i64::try_from(d.as_secs()).ok().map(|secs| Timestamp { secs, nanos: d.subsec_nanos() })
}

/// A character of the Crockford base-32 alphabet that ULIDs are written in.
pub open spec fn is_crockford_char(c: char) -> bool {
    ('0' <= c && c <= '9') || ('A' <= c && c <= 'Z' && c != 'I' && c != 'L' && c != 'O' && c
        != 'U')
}

/// `ulid::Ulid::new().to_string()`: a fresh ULID in its canonical text form,
/// 26 characters of the Crockford base-32 alphabet (the crate's `ULID_LEN` and
/// `ALPHABET`). The value itself depends on the clock and a random source, so
/// nothing else is stated of it.
#[verifier::external_body]
fn fresh_ulid_text() -> (r: String)
    ensures
        r@.len() == 26,
        forall|i: int| 0 <= i < 26 ==> is_crockford_char(#[trigger] r@[i]),
{
    ulid::Ulid::new().to_string()
}

/// What `slug::slugify` makes of a text.
pub uninterp spec fn slugify_text(s: Seq<char>) -> Seq<char>;

/// A slug: only `a-z`, `0-9` and `-`, never two `-` in a row, never starting
/// or ending with `-` (the shape `slug::slugify` documents).
pub open spec fn is_slug_shaped(s: Seq<char>) -> bool {
    &&& forall|i: int|
        0 <= i < s.len() ==> (('a' <= #[trigger] s[i] && s[i] <= 'z') || ('0' <= s[i] && s[i]
            <= '9') || s[i] == '-')
    &&& forall|i: int| 0 <= i < s.len() - 1 ==> !(#[trigger] s[i] == '-' && s[i + 1] == '-')
    &&& s.len() > 0 ==> s[0] != '-' && s.last() != '-'
}

/// `slug::slugify(s)`. The result is a function of the text alone; its shape
/// is the one the crate documents.
#[verifier::external_body]
fn slugify(s: &str) -> (r: String)
    ensures
        r@ == slugify_text(s@),
        is_slug_shaped(r@),
{
    slug::slugify(s)
}

/// Kind of entity an identifier names; the kind fixes the prefix.
#[derive(Debug, Clone, Copy, PartialEq, Eq, Structural)]
pub enum IdKind {
    Project,
    Plan,
    Requirement,
    Decision,
    Scenario,
    Round,
    Task,
    Knowledge,
    Event,
    DisruptionReview,
    Comment,
    Question,
    Activity,
    Run,
    TaskRelation,
    UsageRecord,
}

impl IdKind {
    pub open spec fn spec_prefix(self) -> Seq<char> {
        match self {
            IdKind::Project => "PROJ"@,
            IdKind::Plan => "PLAN"@,
            IdKind::Requirement => "REQ"@,
            IdKind::Decision => "DEC"@,
            IdKind::Scenario => "SCN"@,
            IdKind::Round => "ROUND"@,
            IdKind::Task => "TASK"@,
            IdKind::Knowledge => "KN"@,
            IdKind::Event => "EVT"@,
            IdKind::DisruptionReview => "DRV"@,
            IdKind::Comment => "CMT"@,
            IdKind::Question => "QST"@,
            IdKind::Activity => "ACT"@,
            IdKind::Run => "RUN"@,
            IdKind::TaskRelation => "TREL"@,
            IdKind::UsageRecord => "USG"@,
        }
    }

    pub fn prefix(self) -> (r: &'static str)
        ensures
            r@ == self.spec_prefix(),
    {
        match self {
            IdKind::Project => "PROJ",
            IdKind::Plan => "PLAN",
            IdKind::Requirement => "REQ",
            IdKind::Decision => "DEC",
            IdKind::Scenario => "SCN",
            IdKind::Round => "ROUND",
            IdKind::Task => "TASK",
            IdKind::Knowledge => "KN",
            IdKind::Event => "EVT",
            IdKind::DisruptionReview => "DRV",
            IdKind::Comment => "CMT",
            IdKind::Question => "QST",
            IdKind::Activity => "ACT",
            IdKind::Run => "RUN",
            IdKind::TaskRelation => "TREL",
            IdKind::UsageRecord => "USG",
        }
    }
}

/// An entity identifier.
#[derive(Debug, Clone, PartialEq, Eq, Hash)]
pub struct Id(pub String);

impl Id {
    /// `<PREFIX>-` followed by 26 ULID characters.
    pub open spec fn is_fresh_id_of(self, kind: IdKind) -> bool {
        let p = kind.spec_prefix();
        &&& self.0@.len() == p.len() + 27
        &&& self.0@.subrange(0, p.len() + 1 as int) == p + "-"@
        &&& forall|i: int| p.len() + 1 <= i < self.0@.len() ==> is_crockford_char(#[trigger] self.0@[i])
    }

    /// A new, unique identifier of the given kind.
    pub fn new(kind: IdKind) -> (r: Id)
        ensures
            r.is_fresh_id_of(kind),
    {
        let u = fresh_ulid_text();
        let s = concat3(kind.prefix(), "-", u.as_str());
        let ghost p = kind.spec_prefix();
        proof {
            reveal_strlit("-");
        }
        assert(s@.subrange(0, p.len() + 1 as int) =~= p + "-"@);
        assert forall|i: int| p.len() + 1 <= i < s@.len() implies is_crockford_char(#[trigger] s@[i]) by {
            assert(s@[i] == u@[i - p.len() - 1]);
        }
        Id(s)
    }

    /// The project identifier for an already-slugged name: `PROJ-<slug>`.
    pub fn project_from_slugged(slugged: &str) -> (r: Id)
        ensures
            r.0@ == "PROJ-"@ + slugged@,
    {
        Id(concat2("PROJ-", slugged))
    }

    /// The project identifier derived from a display name: `PROJ-` and the
    /// slug of the name.
    pub fn project_from_slug(slug: &str) -> (r: Id)
        ensures
            r.0@ == "PROJ-"@ + slugify_text(slug@),
    {
        let s = slugify(slug);
        Id::project_from_slugged(s.as_str())
    }

    pub fn as_str(&self) -> (r: &str)
        ensures
            r@ == self.0@,
    {
        self.0.as_str()
    }

    /// The identifier text.
    pub fn to_string(&self) -> (r: String)
        ensures
            r@ == self.0@,
    {
        self.0.clone()
    }
}

impl View for Id {
    type V = Seq<char>;

    open spec fn view(&self) -> Seq<char> {
        self.0@
    }
}

impl std::convert::From<String> for Id {
    fn from(s: String) -> (r: Id) {
        Id(s)
    }
}

impl vstd::std_specs::convert::FromSpecImpl<String> for Id {
    open spec fn obeys_from_spec() -> bool {
        true
    }

    open spec fn from_spec(v: String) -> Id {
        Id(v)
    }
}

impl<'a> vstd::std_specs::convert::FromSpecImpl<&'a str> for Id {
    open spec fn obeys_from_spec() -> bool {
        false
    }

    open spec fn from_spec(v: &'a str) -> Id {
        arbitrary()
    }
}

impl<'a> std::convert::From<&'a str> for Id {
    /// The identifier whose text is `s`.
    fn from(s: &'a str) -> (r: Id)
        ensures
            r.0@ == s@,
    {
        Id(owned(s))
    }
}

/// A new identifier of the given kind (same as [`Id::new`]).
pub fn new_ulid_id(kind: IdKind) -> (r: Id)
    ensures
        r.is_fresh_id_of(kind),
{
    Id::new(kind)
}

/// Each kind of identifier has a prefix of its own, so identifiers of two
/// kinds never share a prefix.
pub proof fn law_prefixes_distinct(a: IdKind, b: IdKind)
    ensures
        a != b ==> a.spec_prefix() != b.spec_prefix(),
{
    reveal_strlit("PROJ");
    reveal_strlit("PLAN");
    reveal_strlit("REQ");
    reveal_strlit("DEC");
    reveal_strlit("SCN");
    reveal_strlit("ROUND");
    reveal_strlit("TASK");
    reveal_strlit("KN");
    reveal_strlit("EVT");
    reveal_strlit("DRV");
    reveal_strlit("CMT");
    reveal_strlit("QST");
    reveal_strlit("ACT");
    reveal_strlit("RUN");
    reveal_strlit("TREL");
    reveal_strlit("USG");
    if a != b && a.spec_prefix() == b.spec_prefix() {
        assert(a.spec_prefix().len() == b.spec_prefix().len());
        assert(a.spec_prefix()[0] == b.spec_prefix()[0]);
        assert(a.spec_prefix()[1] == b.spec_prefix()[1]);
        assert(a.spec_prefix()[2] == b.spec_prefix()[2]);
    }
}

} // verus!
