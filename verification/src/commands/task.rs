//! `sdi task` argument forms: `SCN-ID=result@evidence_ref` evidence and
//! `SHORTCODE::description` subtasks.
use vstd::prelude::*;
use crate::cli::{CliError, cli_error, is_cli_error};
use crate::text::{chars_of, split_once_chars, spec_split_once, string_of, concat2, spec_trim, trim_chars, first_index_of, lemma_first_index_bounds, copy_range};

verus! {

/// One scenario verdict of `task complete`.
#[derive(Debug, Clone)]
pub struct EvidenceSpec {
    pub scenario_id: String,
    pub result: String,
    pub evidence_ref: String,
}

/// How `SCN-ID=result@evidence_ref` is read: at the first `@`, then at the
/// first `=` of what precedes it.
pub open spec fn spec_parse_evidence(spec: Seq<char>) -> Option<(Seq<char>, Seq<char>, Seq<char>)> {
    match spec_split_once(spec, '@') {
        None => None,
        Some((head, evidence_ref)) => match spec_split_once(head, '=') {
            None => None,
            Some((scn, result)) => Some((scn, result, evidence_ref)),
        },
    }
}

/// Parse one `--evidence` value.
pub fn parse_evidence(spec: &str) -> (r: Result<EvidenceSpec, CliError>)
    ensures
        match spec_parse_evidence(spec@) {
            Some((s, res, e)) => r matches Ok(v) && v.scenario_id@ == s && v.result@ == res && v.evidence_ref@ == e,
            None => r matches Err(x) && is_cli_error(x, "--evidence must be SCN-ID=result@evidence_ref, got: "@ + spec@),
        },
{
    let v = chars_of(spec);
    let (head, eref) = match split_once_chars(&v, '@') {
        None => return Err(cli_error(concat2("--evidence must be SCN-ID=result@evidence_ref, got: ", spec))),
        Some(p) => p,
    };
    let (scn, result) = match split_once_chars(&head, '=') {
        None => return Err(cli_error(concat2("--evidence must be SCN-ID=result@evidence_ref, got: ", spec))),
        Some(p) => p,
    };
    let a = string_of(&scn, 0, scn.len());
    let b = string_of(&result, 0, result.len());
    let c = string_of(&eref, 0, eref.len());
    assert(a@ =~= scn@);
    assert(b@ =~= result@);
    assert(c@ =~= eref@);
    Ok(EvidenceSpec { scenario_id: a, result: b, evidence_ref: c })
}

/// `sdi task complete` arguments.
#[derive(Debug, Clone)]
pub struct TaskCompleteArgs {
    pub id: String,
    pub evidence: Vec<String>,
    pub summary: Option<String>,
}

/// Index of the first evidence value that does not parse.
pub open spec fn first_bad_evidence(specs: Seq<String>) -> Option<int>
    decreases specs.len(),
{
    if specs.len() == 0 {
        None
    } else if spec_parse_evidence(specs[0]@) is None {
        Some(0)
    } else {
        match first_bad_evidence(specs.drop_first()) {
            Some(i) => Some(i + 1),
            None => None,
        }
    }
}

impl TaskCompleteArgs {
    /// Every `--evidence` value parsed, in order; the first malformed one is
    /// reported.
    pub fn scenario_evidence(&self) -> (r: Result<Vec<EvidenceSpec>, CliError>)
        ensures
            match first_bad_evidence(self.evidence@) {
                Some(i) => r matches Err(x) && is_cli_error(
                    x,
                    "--evidence must be SCN-ID=result@evidence_ref, got: "@ + self.evidence@[i]@,
                ),
                None => r matches Ok(v) && v@.len() == self.evidence@.len() && forall|k: int|
                    0 <= k < v@.len() ==> spec_parse_evidence(self.evidence@[k]@) == Some(
                        ((#[trigger] v@[k]).scenario_id@, v@[k].result@, v@[k].evidence_ref@),
                    ),
            },
    {
        let mut out: Vec<EvidenceSpec> = Vec::new();
        let ghost all = self.evidence@;
        assert(all.subrange(0, all.len() as int) =~= all);
        let mut i: usize = 0;
        while i < self.evidence.len()
            invariant
                all == self.evidence@,
                i <= all.len(),
                first_bad_evidence(all) == match first_bad_evidence(all.subrange(i as int, all.len() as int)) {
                    Some(j) => Some(j + i),
                    None => None,
                },
                out@.len() == i,
                forall|k: int| 0 <= k < i ==> spec_parse_evidence(all[k]@) == Some(
                    ((#[trigger] out@[k]).scenario_id@, out@[k].result@, out@[k].evidence_ref@),
                ),
            decreases all.len() - i,
        {
            let ghost rest = all.subrange(i as int, all.len() as int);
            assert(rest.drop_first() =~= all.subrange(i + 1, all.len() as int));
            assert(rest[0] == all[i as int]);
            let e = parse_evidence(self.evidence[i].as_str())?;
            out.push(e);
            i += 1;
        }
        Ok(out)
    }
}

/// One `--subtask SHORTCODE::description` of `task decompose`.
#[derive(Debug, Clone)]
pub struct SubtaskSpec {
    pub short_code: String,
    pub description: String,
}

/// Whether `::` starts at position `k` of `s`.
pub open spec fn double_colon_at(s: Seq<char>, k: int) -> bool {
    s[k] == ':' && s[k + 1] == ':'
}

/// Index of the first `::` in `s`.
pub open spec fn first_double_colon(s: Seq<char>) -> Option<int>
    decreases s.len(),
{
    if s.len() < 2 {
        None
    } else if s[0] == ':' && s[1] == ':' {
        Some(0)
    } else {
        match first_double_colon(s.drop_first()) {
            Some(i) => Some(i + 1),
            None => None,
        }
    }
}

/// How `SHORTCODE::description` is read: split at the first `::`, both
/// halves trimmed.
pub open spec fn spec_parse_subtask(spec: Seq<char>) -> Option<(Seq<char>, Seq<char>)> {
    match first_double_colon(spec) {
        None => None,
        Some(i) => Some((spec_trim(spec.subrange(0, i)), spec_trim(spec.subrange(i + 2, spec.len() as int)))),
    }
}

proof fn lemma_double_colon_at(s: Seq<char>, i: int)
    requires
        0 <= i && i + 1 < s.len(),
        s[i] == ':' && s[i + 1] == ':',
        forall|k: int| 0 <= k < i ==> !#[trigger] double_colon_at(s, k),
    ensures
        first_double_colon(s) == Some(i),
    decreases s.len(),
{
    if i > 0 {
        assert(!double_colon_at(s, 0));
        let d = s.drop_first();
        assert forall|k: int| 0 <= k < i - 1 implies !#[trigger] double_colon_at(d, k) by {
            assert(d[k] == s[k + 1] && d[k + 1] == s[k + 2]);
            assert(!double_colon_at(s, k + 1));
        }
        lemma_double_colon_at(d, i - 1);
    }
}

proof fn lemma_no_double_colon(s: Seq<char>)
    requires
        forall|k: int| 0 <= k && k + 1 < s.len() ==> !#[trigger] double_colon_at(s, k),
    ensures
        first_double_colon(s) is None,
    decreases s.len(),
{
    if s.len() >= 2 {
        assert(!double_colon_at(s, 0));
        let d = s.drop_first();
        assert forall|k: int| 0 <= k && k + 1 < d.len() implies !#[trigger] double_colon_at(d, k) by {
            assert(d[k] == s[k + 1] && d[k + 1] == s[k + 2]);
            assert(!double_colon_at(s, k + 1));
        }
        lemma_no_double_colon(d);
    }
}

/// Position of the first `::` of `v`.
fn find_double_colon(v: &Vec<char>) -> (r: Option<usize>)
    ensures
        match r {
            Some(i) => first_double_colon(v@) == Some(i as int) && i + 2 <= v@.len(),
            None => first_double_colon(v@) is None,
        },
{
    let n = v.len();
    if n < 2 {
        return None;
    }
    let mut i: usize = 0;
    while i + 1 < n
        invariant
            n == v@.len(),
            n >= 2,
            i + 1 <= n,
            forall|k: int| 0 <= k < i && k + 1 < n ==> !#[trigger] double_colon_at(v@, k),
        decreases n - i,
    {
        if v[i] == ':' && v[i + 1] == ':' {
            proof {
                lemma_double_colon_at(v@, i as int);
            }
            return Some(i);
        }
        i += 1;
    }
    proof {
        lemma_no_double_colon(v@);
    }
    None
}

/// Parse one `--subtask` value.
pub fn parse_subtask(spec: &str) -> (r: Result<SubtaskSpec, CliError>)
    ensures
        match spec_parse_subtask(spec@) {
            Some((s, d)) => r matches Ok(v) && v.short_code@ == s && v.description@ == d,
            None => r matches Err(x) && is_cli_error(x, "--subtask must be SHORTCODE::description, got: "@ + spec@),
        },
{
    let v = chars_of(spec);
    let n = v.len();
    let found = find_double_colon(&v);
    assert(v@ == spec@);
    match found {
        None => {
            Err(cli_error(concat2("--subtask must be SHORTCODE::description, got: ", spec)))
        },
        Some(at) => {
            let left = copy_range(&v, 0, at);
            let right = copy_range(&v, at + 2, n);
            let l = trim_chars(&left);
            let rt = trim_chars(&right);
            let a = string_of(&l, 0, l.len());
            let b = string_of(&rt, 0, rt.len());
            assert(a@ =~= l@);
            assert(b@ =~= rt@);
            Ok(SubtaskSpec { short_code: a, description: b })
        },
    }
}

/// `sdi task decompose` arguments.
#[derive(Debug, Clone)]
pub struct TaskDecomposeArgs {
    pub id: String,
    pub subtasks: Vec<String>,
    pub round_id: Option<String>,
}

/// Index of the first subtask value that does not parse.
pub open spec fn first_bad_subtask(specs: Seq<String>) -> Option<int>
    decreases specs.len(),
{
    if specs.len() == 0 {
        None
    } else if spec_parse_subtask(specs[0]@) is None {
        Some(0)
    } else {
        match first_bad_subtask(specs.drop_first()) {
            Some(i) => Some(i + 1),
            None => None,
        }
    }
}

impl TaskDecomposeArgs {
    /// Every `--subtask` value parsed, in order; the first malformed one is
    /// reported.
    pub fn parsed_subtasks(&self) -> (r: Result<Vec<SubtaskSpec>, CliError>)
        ensures
            match first_bad_subtask(self.subtasks@) {
                Some(i) => r matches Err(x) && is_cli_error(
                    x,
                    "--subtask must be SHORTCODE::description, got: "@ + self.subtasks@[i]@,
                ),
                None => r matches Ok(v) && v@.len() == self.subtasks@.len() && forall|k: int|
                    0 <= k < v@.len() ==> spec_parse_subtask(self.subtasks@[k]@) == Some(
                        ((#[trigger] v@[k]).short_code@, v@[k].description@),
                    ),
            },
    {
        let mut out: Vec<SubtaskSpec> = Vec::new();
        let ghost all = self.subtasks@;
        assert(all.subrange(0, all.len() as int) =~= all);
        let mut i: usize = 0;
        while i < self.subtasks.len()
            invariant
                all == self.subtasks@,
                i <= all.len(),
                first_bad_subtask(all) == match first_bad_subtask(all.subrange(i as int, all.len() as int)) {
                    Some(j) => Some(j + i),
                    None => None,
                },
                out@.len() == i,
                forall|k: int| 0 <= k < i ==> spec_parse_subtask(all[k]@) == Some(
                    ((#[trigger] out@[k]).short_code@, out@[k].description@),
                ),
            decreases all.len() - i,
        {
            let ghost rest = all.subrange(i as int, all.len() as int);
            assert(rest.drop_first() =~= all.subrange(i + 1, all.len() as int));
            assert(rest[0] == all[i as int]);
            let s = parse_subtask(self.subtasks[i].as_str())?;
            out.push(s);
            i += 1;
        }
        Ok(out)
    }
}

} // verus!
