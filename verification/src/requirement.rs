//! Requirements: snapshot-only documents. History belongs in the decision
//! log, so a body that carries traces of earlier versions is refused.
use vstd::prelude::*;
use crate::error::DomainError;
use crate::ids::{Id, Timestamp};
use crate::text::{spec_contains, contains_chars, chars_of, owned, concat3};

verus! {

/// A requirement; its body is overwritten in place.
#[derive(Debug, Clone)]
pub struct Requirement {
    pub id: Id,
    pub plan_id: Id,
    pub short_code: String,
    pub title: String,
    pub body: String,
    pub source: String,
    pub created_at: Timestamp,
    pub updated_at: Timestamp,
}

/// What `str::to_lowercase` makes of a text (Unicode lowercase mapping).
pub uninterp spec fn unicode_lowercase(s: Seq<char>) -> Seq<char>;

/// `str::to_lowercase`: the Unicode lowercase of the text, a function of the
/// text alone.
#[verifier::external_body]
fn to_lowercase(s: &str) -> (r: String)
    ensures
        r@ == unicode_lowercase(s@),
{
    s.to_lowercase()
}

pub open spec fn views(v: Seq<&'static str>) -> Seq<Seq<char>> {
    v.map_values(|s: &'static str| s@)
}

/// Inline version markers, matched against the lowercased body.
pub open spec fn inline_version_markers() -> Seq<Seq<char>> {
    seq![
        "v1:"@,
        "v2:"@,
        "v3:"@,
        "v4:"@,
        "v5:"@,
        "version 1:"@,
        "version 2:"@,
        "version 3:"@,
        "(was:"@,
        "(was "@,
        "(originally:"@,
        "(originally "@,
        "(formerly:"@,
        "(formerly "@,
        "(원래:"@,
        "(원래 "@,
        "(기존:"@,
        "(기존 "@,
    ]
}

fn inline_version_markers_list() -> (r: Vec<&'static str>)
    ensures
        views(r@) == inline_version_markers(),
{
    let r = vec![
        "v1:",
        "v2:",
        "v3:",
        "v4:",
        "v5:",
        "version 1:",
        "version 2:",
        "version 3:",
        "(was:",
        "(was ",
        "(originally:",
        "(originally ",
        "(formerly:",
        "(formerly ",
        "(원래:",
        "(원래 ",
        "(기존:",
        "(기존 ",
    ];
    assert(views(r@) =~= inline_version_markers());
    r
}

/// English history phrases, matched against the lowercased body.
pub open spec fn english_history_phrases() -> Seq<Seq<char>> {
    seq![
        "previously"@,
        "originally"@,
        "used to be"@,
        "used to say"@,
        "we used to"@,
        "history:"@,
        "changelog:"@,
    ]
}

fn english_history_phrases_list() -> (r: Vec<&'static str>)
    ensures
        views(r@) == english_history_phrases(),
{
    let r = vec![
        "previously",
        "originally",
        "used to be",
        "used to say",
        "we used to",
        "history:",
        "changelog:",
    ];
    assert(views(r@) =~= english_history_phrases());
    r
}

/// Korean history phrases, matched against the body as written.
pub open spec fn korean_history_phrases() -> Seq<Seq<char>> {
    seq![
        "이전에는"@,
        "이전 안"@,
        "원래는"@,
        "원래 안"@,
        "기존 안"@,
        "기존에는"@,
        "변경 전"@,
        "변경 전에는"@,
        "였으나"@,
        "이었으나"@,
        "였는데"@,
        "이었는데"@,
        "변경 이력"@,
        "변경 사항:"@,
        "참고: 이전"@,
        "참고: 기존"@,
    ]
}

fn korean_history_phrases_list() -> (r: Vec<&'static str>)
    ensures
        views(r@) == korean_history_phrases(),
{
    let r = vec![
        "이전에는",
        "이전 안",
        "원래는",
        "원래 안",
        "기존 안",
        "기존에는",
        "변경 전",
        "변경 전에는",
        "였으나",
        "이었으나",
        "였는데",
        "이었는데",
        "변경 이력",
        "변경 사항:",
        "참고: 이전",
        "참고: 기존",
    ];
    assert(views(r@) =~= korean_history_phrases());
    r
}

/// Index of the first needle that occurs in `text`.
pub open spec fn spec_first_hit(text: Seq<char>, needles: Seq<Seq<char>>) -> Option<int>
    decreases needles.len(),
{
    if needles.len() == 0 {
        None
    } else if spec_contains(text, needles[0]) {
        Some(0)
    } else {
        match spec_first_hit(text, needles.drop_first()) {
            Some(i) => Some(i + 1),
            None => None,
        }
    }
}

/// Index of the first of `needles` that occurs in `text`.
fn first_hit(text: &Vec<char>, needles: &Vec<&'static str>) -> (r: Option<usize>)
    ensures
        match r {
            Some(i) => i < needles@.len() && spec_first_hit(text@, views(needles@)) == Some(i as int),
            None => spec_first_hit(text@, views(needles@)) is None,
        },
{
    let ghost all = views(needles@);
    assert(all.subrange(0, all.len() as int) =~= all);
    let mut i: usize = 0;
    while i < needles.len()
        invariant
            all == views(needles@),
            i <= needles@.len(),
            spec_first_hit(text@, all) == match spec_first_hit(text@, all.subrange(i as int, all.len() as int)) {
                Some(j) => Some(j + i),
                None => None,
            },
        decreases needles@.len() - i,
    {
        let ghost rest = all.subrange(i as int, all.len() as int);
        assert(rest.drop_first() =~= all.subrange(i + 1, all.len() as int));
        assert(rest[0] == needles@[i as int]@);
        let needle = chars_of(needles[i]);
        if contains_chars(text, &needle) {
            return Some(i);
        }
        i += 1;
    }
    None
}

/// The message of the snapshot rule a body breaks, given its lowercase.
pub open spec fn spec_snapshot_violation(body: Seq<char>, lower: Seq<char>) -> Option<Seq<char>> {
    if spec_contains(body, "~~"@) {
        Some("markdown strikethrough (`~~text~~`) found"@)
    } else {
        match spec_first_hit(lower, inline_version_markers()) {
            Some(i) => Some("inline version marker `"@ + inline_version_markers()[i] + "` found"@),
            None => match spec_first_hit(lower, english_history_phrases()) {
                Some(i) => Some("history phrase `"@ + english_history_phrases()[i] + "` found"@),
                None => match spec_first_hit(body, korean_history_phrases()) {
                    Some(i) => Some("history phrase `"@ + korean_history_phrases()[i] + "` found"@),
                    None => None,
                },
            },
        }
    }
}

/// Check a requirement body against the snapshot rules, given `lowered`, its
/// Unicode lowercase: no strikethrough, no inline version marker, no English
/// or Korean history phrase.
pub fn check_snapshot_body(body: &str, lowered: &str) -> (r: Result<(), DomainError>)
    ensures
        match spec_snapshot_violation(body@, lowered@) {
            None => r is Ok,
            Some(msg) => r matches Err(DomainError::SnapshotViolation(m)) && m@ == msg,
        },
{
    let b = chars_of(body);
    let l = chars_of(lowered);
    let tilde = chars_of("~~");
    if contains_chars(&b, &tilde) {
        return Err(DomainError::SnapshotViolation(owned("markdown strikethrough (`~~text~~`) found")));
    }
    let inline = inline_version_markers_list();
    if let Some(i) = first_hit(&l, &inline) {
        return Err(DomainError::SnapshotViolation(concat3("inline version marker `", inline[i], "` found")));
    }
    let en = english_history_phrases_list();
    if let Some(i) = first_hit(&l, &en) {
        return Err(DomainError::SnapshotViolation(concat3("history phrase `", en[i], "` found")));
    }
    let ko = korean_history_phrases_list();
    if let Some(i) = first_hit(&b, &ko) {
        return Err(DomainError::SnapshotViolation(concat3("history phrase `", ko[i], "` found")));
    }
    Ok(())
}

/// Reject any history trace in a requirement body (it belongs in a decision).
/// The markers and English phrases are matched against the Unicode lowercase
/// of the body, so they match in any letter case.
pub fn validate_snapshot_body(body: &str) -> (r: Result<(), DomainError>)
    ensures
        match spec_snapshot_violation(body@, unicode_lowercase(body@)) {
            None => r is Ok,
            Some(msg) => r matches Err(DomainError::SnapshotViolation(m)) && m@ == msg,
        },
{
    let lowered = to_lowercase(body);
    check_snapshot_body(body, lowered.as_str())
}

/// A body with a strikethrough is refused whatever else it holds; a body is
/// accepted only when no marker or phrase occurs in it.
pub proof fn law_snapshot_rules(body: Seq<char>, lower: Seq<char>)
    ensures
        spec_contains(body, "~~"@) ==> spec_snapshot_violation(body, lower) == Some(
            "markdown strikethrough (`~~text~~`) found"@,
        ),
        spec_snapshot_violation(body, lower) is None ==> !spec_contains(body, "~~"@) && spec_first_hit(
            lower,
            inline_version_markers(),
        ) is None && spec_first_hit(lower, english_history_phrases()) is None && spec_first_hit(
            body,
            korean_history_phrases(),
        ) is None,
{
}

proof fn lemma_contains_trans(a: Seq<char>, b: Seq<char>, c: Seq<char>)
    requires
        spec_contains(a, b),
        spec_contains(b, c),
    ensures
        spec_contains(a, c),
{
    let i = choose|i: int| 0 <= i && i + b.len() <= a.len() && #[trigger] a.subrange(i, i + b.len()) == b;
    let j = choose|j: int| 0 <= j && j + c.len() <= b.len() && #[trigger] b.subrange(j, j + c.len()) == c;
    assert(a.subrange(i + j, i + j + c.len()) =~= c) by {
        assert forall|k: int| 0 <= k < c.len() implies a.subrange(i + j, i + j + c.len())[k] == c[k] by {
            assert(b[j + k] == a.subrange(i, i + b.len())[j + k]);
            assert(c[k] == b.subrange(j, j + c.len())[k]);
        }
    }
}

proof fn lemma_first_hit_survives(t1: Seq<char>, t2: Seq<char>, needles: Seq<Seq<char>>)
    requires
        spec_contains(t2, t1),
        spec_first_hit(t1, needles) is Some,
    ensures
        spec_first_hit(t2, needles) is Some,
    decreases needles.len(),
{
    if spec_contains(t1, needles[0]) {
        lemma_contains_trans(t2, t1, needles[0]);
    } else {
        lemma_first_hit_survives(t1, t2, needles.drop_first());
        if spec_contains(t2, needles[0]) {
        }
    }
}

/// A refused body stays refused inside a longer text: where `body2` holds
/// `body1` and the lowercase `lower2` of `body2` holds the lowercase
/// `lower1` of `body1` (as Unicode lowercasing keeps a middle part of a
/// text, away from a final sigma), a rule that `body1` breaks is broken by
/// `body2` too, whatever text surrounds it.
pub proof fn law_refusal_survives_surrounding_text(
    body1: Seq<char>,
    lower1: Seq<char>,
    body2: Seq<char>,
    lower2: Seq<char>,
)
    requires
        spec_contains(body2, body1),
        spec_contains(lower2, lower1),
        spec_snapshot_violation(body1, lower1) is Some,
    ensures
        spec_snapshot_violation(body2, lower2) is Some,
{
    if spec_contains(body1, "~~"@) {
        lemma_contains_trans(body2, body1, "~~"@);
    } else if spec_first_hit(lower1, inline_version_markers()) is Some {
        lemma_first_hit_survives(lower1, lower2, inline_version_markers());
    } else if spec_first_hit(lower1, english_history_phrases()) is Some {
        lemma_first_hit_survives(lower1, lower2, english_history_phrases());
    } else {
        lemma_first_hit_survives(body1, body2, korean_history_phrases());
    }
}

/// `p + a + s` holds `a`.
pub proof fn lemma_surrounded_contains(p: Seq<char>, a: Seq<char>, s: Seq<char>)
    ensures
        spec_contains(p + a + s, a),
{
    assert((p + a + s).subrange(p.len() as int, (p.len() + a.len()) as int) =~= a);
}

/// The first hit exists exactly when some needle occurs.
proof fn lemma_first_hit_iff(text: Seq<char>, needles: Seq<Seq<char>>)
    ensures
        spec_first_hit(text, needles) is Some <==> exists|k: int| 0 <= k < needles.len() && spec_contains(text, #[trigger] needles[k]),
    decreases needles.len(),
{
    if needles.len() > 0 {
        lemma_first_hit_iff(text, needles.drop_first());
        if exists|k: int| 0 <= k < needles.len() && spec_contains(text, #[trigger] needles[k]) {
            let k = choose|k: int| 0 <= k < needles.len() && spec_contains(text, #[trigger] needles[k]);
            if k > 0 {
                assert(needles.drop_first()[k - 1] == needles[k]);
            }
        }
        if spec_first_hit(text, needles.drop_first()) is Some {
            let k = choose|k: int| 0 <= k < needles.drop_first().len() && spec_contains(text, #[trigger] needles.drop_first()[k]);
            assert(needles[k + 1] == needles.drop_first()[k]);
        }
    }
}

/// Which texts the snapshot rules refuse, with every marker and phrase
/// written out: a body is refused exactly when it holds `~~`, or its
/// lowercase holds an inline version marker (`v1:` … `v5:`, `version 1:` …
/// `version 3:`, `(was`, `(originally`, `(formerly`, `(원래`, `(기존`, each
/// followed by `:` or a space) or an English history phrase (`previously`,
/// `originally`, `used to be`, `used to say`, `we used to`, `history:`,
/// `changelog:`), or the body holds a Korean history phrase. So an English
/// phrase is refused in any letter case.
pub proof fn law_snapshot_refusals(body: Seq<char>, lower: Seq<char>)
    ensures
        spec_snapshot_violation(body, lower) is Some <==> (spec_contains(body, "~~"@)
            || spec_contains(lower, "v1:"@)
            || spec_contains(lower, "v2:"@)
            || spec_contains(lower, "v3:"@)
            || spec_contains(lower, "v4:"@)
            || spec_contains(lower, "v5:"@)
            || spec_contains(lower, "version 1:"@)
            || spec_contains(lower, "version 2:"@)
            || spec_contains(lower, "version 3:"@)
            || spec_contains(lower, "(was:"@)
            || spec_contains(lower, "(was "@)
            || spec_contains(lower, "(originally:"@)
            || spec_contains(lower, "(originally "@)
            || spec_contains(lower, "(formerly:"@)
            || spec_contains(lower, "(formerly "@)
            || spec_contains(lower, "(원래:"@)
            || spec_contains(lower, "(원래 "@)
            || spec_contains(lower, "(기존:"@)
            || spec_contains(lower, "(기존 "@)
            || spec_contains(lower, "previously"@)
            || spec_contains(lower, "originally"@)
            || spec_contains(lower, "used to be"@)
            || spec_contains(lower, "used to say"@)
            || spec_contains(lower, "we used to"@)
            || spec_contains(lower, "history:"@)
            || spec_contains(lower, "changelog:"@)
            || spec_contains(body, "이전에는"@)
            || spec_contains(body, "이전 안"@)
            || spec_contains(body, "원래는"@)
            || spec_contains(body, "원래 안"@)
            || spec_contains(body, "기존 안"@)
            || spec_contains(body, "기존에는"@)
            || spec_contains(body, "변경 전"@)
            || spec_contains(body, "변경 전에는"@)
            || spec_contains(body, "였으나"@)
            || spec_contains(body, "이었으나"@)
            || spec_contains(body, "였는데"@)
            || spec_contains(body, "이었는데"@)
            || spec_contains(body, "변경 이력"@)
            || spec_contains(body, "변경 사항:"@)
            || spec_contains(body, "참고: 이전"@)
            || spec_contains(body, "참고: 기존"@)),
{
    lemma_first_hit_iff(lower, inline_version_markers());
    lemma_first_hit_iff(lower, english_history_phrases());
    lemma_first_hit_iff(body, korean_history_phrases());
        assert(inline_version_markers()[0] == "v1:"@);
        assert(inline_version_markers()[1] == "v2:"@);
        assert(inline_version_markers()[2] == "v3:"@);
        assert(inline_version_markers()[3] == "v4:"@);
        assert(inline_version_markers()[4] == "v5:"@);
        assert(inline_version_markers()[5] == "version 1:"@);
        assert(inline_version_markers()[6] == "version 2:"@);
        assert(inline_version_markers()[7] == "version 3:"@);
        assert(inline_version_markers()[8] == "(was:"@);
        assert(inline_version_markers()[9] == "(was "@);
        assert(inline_version_markers()[10] == "(originally:"@);
        assert(inline_version_markers()[11] == "(originally "@);
        assert(inline_version_markers()[12] == "(formerly:"@);
        assert(inline_version_markers()[13] == "(formerly "@);
        assert(inline_version_markers()[14] == "(원래:"@);
        assert(inline_version_markers()[15] == "(원래 "@);
        assert(inline_version_markers()[16] == "(기존:"@);
        assert(inline_version_markers()[17] == "(기존 "@);
        assert(english_history_phrases()[0] == "previously"@);
        assert(english_history_phrases()[1] == "originally"@);
        assert(english_history_phrases()[2] == "used to be"@);
        assert(english_history_phrases()[3] == "used to say"@);
        assert(english_history_phrases()[4] == "we used to"@);
        assert(english_history_phrases()[5] == "history:"@);
        assert(english_history_phrases()[6] == "changelog:"@);
        assert(korean_history_phrases()[0] == "이전에는"@);
        assert(korean_history_phrases()[1] == "이전 안"@);
        assert(korean_history_phrases()[2] == "원래는"@);
        assert(korean_history_phrases()[3] == "원래 안"@);
        assert(korean_history_phrases()[4] == "기존 안"@);
        assert(korean_history_phrases()[5] == "기존에는"@);
        assert(korean_history_phrases()[6] == "변경 전"@);
        assert(korean_history_phrases()[7] == "변경 전에는"@);
        assert(korean_history_phrases()[8] == "였으나"@);
        assert(korean_history_phrases()[9] == "이었으나"@);
        assert(korean_history_phrases()[10] == "였는데"@);
        assert(korean_history_phrases()[11] == "이었는데"@);
        assert(korean_history_phrases()[12] == "변경 이력"@);
        assert(korean_history_phrases()[13] == "변경 사항:"@);
        assert(korean_history_phrases()[14] == "참고: 이전"@);
        assert(korean_history_phrases()[15] == "참고: 기존"@);
    if spec_first_hit(lower, inline_version_markers()) is Some {
        let k = choose|k: int| 0 <= k < inline_version_markers().len() && spec_contains(lower, #[trigger] inline_version_markers()[k]);
        assert(0 <= k < 18);
    }
    if spec_first_hit(lower, english_history_phrases()) is Some {
        let k = choose|k: int| 0 <= k < english_history_phrases().len() && spec_contains(lower, #[trigger] english_history_phrases()[k]);
        assert(0 <= k < 7);
    }
    if spec_first_hit(body, korean_history_phrases()) is Some {
        let k = choose|k: int| 0 <= k < korean_history_phrases().len() && spec_contains(body, #[trigger] korean_history_phrases()[k]);
        assert(0 <= k < 16);
    }
}

} // verus!
