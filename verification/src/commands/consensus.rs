//! `sdi consensus status`: a plan's decisions grouped by the proposal they
//! belong to, each group with the stage it has reached.
use vstd::prelude::*;
use crate::lexical::{seq_lt, str_lt, lemma_lt_irreflexive, lemma_lt_total, lemma_lt_transitive};
use crate::text::{str_eq, owned};

verus! {

/// What grouping reads of one decision row: its `kind`, `id` and
/// `proposal_id`, each absent where the row lacks it or it is no string.
#[derive(Debug, Clone)]
pub struct DecisionRow {
    pub kind: Option<String>,
    pub id: Option<String>,
    pub proposal_id: Option<String>,
}

/// The view of an optional string, with a default for the absent case.
pub open spec fn or_default(o: Option<String>, d: Seq<char>) -> Seq<char> {
    match o {
        Some(s) => s@,
        None => d,
    }
}

/// A row's kind; a row without one counts as a proposal.
pub open spec fn row_kind(r: DecisionRow) -> Seq<char> {
    or_default(r.kind, "proposal"@)
}

/// The proposal a row belongs to: a proposal's own id, any other row's
/// `proposal_id`. Rows where that is empty, or differs from the filter, are
/// left out (`None`).
pub open spec fn row_key(r: DecisionRow, filter: Option<Seq<char>>) -> Option<Seq<char>> {
    let k = if row_kind(r) == "proposal"@ {
        or_default(r.id, Seq::empty())
    } else {
        or_default(r.proposal_id, Seq::empty())
    };
    if k.len() == 0 {
        None
    } else {
        match filter {
            Some(f) => if k == f {
                Some(k)
            } else {
                None
            },
            None => Some(k),
        }
    }
}

/// Row `r` is of kind `kind` in the group of proposal `k`.
pub open spec fn in_group(r: DecisionRow, filter: Option<Seq<char>>, k: Seq<char>, kind: Seq<char>) -> bool {
    row_key(r, filter) == Some(k) && row_kind(r) == kind
}

/// Position of the last row of `rows` of kind `kind` in group `k`.
pub open spec fn last_in_group(
    rows: Seq<DecisionRow>,
    filter: Option<Seq<char>>,
    k: Seq<char>,
    kind: Seq<char>,
) -> Option<int>
    decreases rows.len(),
{
    if rows.len() == 0 {
        None
    } else if in_group(rows.last(), filter, k, kind) {
        Some(rows.len() - 1)
    } else {
        last_in_group(rows.drop_last(), filter, k, kind)
    }
}

/// Positions of all rows of kind `kind` in group `k`, in order.
pub open spec fn all_in_group(
    rows: Seq<DecisionRow>,
    filter: Option<Seq<char>>,
    k: Seq<char>,
    kind: Seq<char>,
) -> Seq<int>
    decreases rows.len(),
{
    if rows.len() == 0 {
        Seq::empty()
    } else if in_group(rows.last(), filter, k, kind) {
        all_in_group(rows.drop_last(), filter, k, kind).push(rows.len() - 1)
    } else {
        all_in_group(rows.drop_last(), filter, k, kind)
    }
}

/// Some row of `rows` belongs to group `k`.
pub open spec fn has_group(rows: Seq<DecisionRow>, filter: Option<Seq<char>>, k: Seq<char>) -> bool {
    exists|i: int| 0 <= i < rows.len() && #[trigger] row_key(rows[i], filter) == Some(k)
}

/// How far a proposal has come.
#[derive(Debug, Clone, Copy, PartialEq, Eq, Structural)]
pub enum ConsensusStage {
    Proposal,
    Critique,
    Consensus,
    Dissensus,
}

impl ConsensusStage {
    /// The name the report gives the stage.
    pub fn as_str(&self) -> (r: &'static str)
        ensures
            r@ == spec_stage_name(*self),
    {
        match self {
            ConsensusStage::Proposal => "proposal",
            ConsensusStage::Critique => "critique",
            ConsensusStage::Consensus => "consensus",
            ConsensusStage::Dissensus => "dissensus",
        }
    }
}

/// The name of a stage.
pub open spec fn spec_stage_name(s: ConsensusStage) -> Seq<char> {
    match s {
        ConsensusStage::Proposal => "proposal"@,
        ConsensusStage::Critique => "critique"@,
        ConsensusStage::Consensus => "consensus"@,
        ConsensusStage::Dissensus => "dissensus"@,
    }
}

/// A dissensus escalates whatever else happened; then a consensus; then any
/// critique; else the proposal stands alone.
pub open spec fn spec_stage(has_dissensus: bool, has_consensus: bool, critiques: nat) -> ConsensusStage {
    if has_dissensus {
        ConsensusStage::Dissensus
    } else if has_consensus {
        ConsensusStage::Consensus
    } else if critiques > 0 {
        ConsensusStage::Critique
    } else {
        ConsensusStage::Proposal
    }
}

/// One proposal's group. Rows are named by their position in the input.
#[derive(Debug, Clone)]
pub struct ProposalGroup {
    pub proposal_id: String,
    pub proposal: Option<usize>,
    pub critiques: Vec<usize>,
    pub consensus: Option<usize>,
    pub dissensus: Option<usize>,
    pub stage: ConsensusStage,
    pub critique_count: usize,
}

/// An optional position as an integer.
pub open spec fn opt_pos(o: Option<usize>) -> Option<int> {
    match o {
        Some(i) => Some(i as int),
        None => None,
    }
}

/// The rows of group `g` are those of `rows`: the last proposal, consensus
/// and dissensus, and every critique in order.
pub open spec fn group_rows_match(g: ProposalGroup, rows: Seq<DecisionRow>, filter: Option<Seq<char>>) -> bool {
    let k = g.proposal_id@;
    &&& opt_pos(g.proposal) == last_in_group(rows, filter, k, "proposal"@)
    &&& opt_pos(g.consensus) == last_in_group(rows, filter, k, "consensus"@)
    &&& opt_pos(g.dissensus) == last_in_group(rows, filter, k, "dissensus"@)
    &&& g.critiques@.map_values(|i: usize| i as int) == all_in_group(rows, filter, k, "critique"@)
}

/// Group `g` is complete: its rows, its critique count and its stage.
pub open spec fn group_correct(g: ProposalGroup, rows: Seq<DecisionRow>, filter: Option<Seq<char>>) -> bool {
    &&& group_rows_match(g, rows, filter)
    &&& g.critique_count == g.critiques@.len()
    &&& g.stage == spec_stage(g.dissensus is Some, g.consensus is Some, g.critique_count as nat)
}

/// Groups in strictly increasing order of their proposal ids.
pub open spec fn groups_sorted(gs: Seq<ProposalGroup>) -> bool {
    forall|i: int, j: int| 0 <= i < j < gs.len() ==> seq_lt(#[trigger] gs[i].proposal_id@, #[trigger] gs[j].proposal_id@)
}

/// The groups are exactly those of the proposals that some row belongs to.
pub open spec fn groups_cover(gs: Seq<ProposalGroup>, rows: Seq<DecisionRow>, filter: Option<Seq<char>>) -> bool {
    forall|k: Seq<char>| has_group(rows, filter, k) <==> exists|j: int| 0 <= j < gs.len() && #[trigger] gs[j].proposal_id@ == k
}

proof fn lemma_extend(rows: Seq<DecisionRow>, i: int, filter: Option<Seq<char>>, k: Seq<char>, kind: Seq<char>)
    requires
        0 <= i < rows.len(),
    ensures
        last_in_group(rows.take(i + 1), filter, k, kind) == if in_group(rows[i], filter, k, kind) {
            Some(i)
        } else {
            last_in_group(rows.take(i), filter, k, kind)
        },
        all_in_group(rows.take(i + 1), filter, k, kind) == if in_group(rows[i], filter, k, kind) {
            all_in_group(rows.take(i), filter, k, kind).push(i)
        } else {
            all_in_group(rows.take(i), filter, k, kind)
        },
{
    assert(rows.take(i + 1).drop_last() =~= rows.take(i));
    assert(rows.take(i + 1).last() == rows[i]);
}

/// The four kind names differ.
proof fn lemma_kind_names_distinct()
    ensures
        "proposal"@ != "critique"@,
        "proposal"@ != "consensus"@,
        "proposal"@ != "dissensus"@,
        "critique"@ != "consensus"@,
        "critique"@ != "dissensus"@,
        "consensus"@ != "dissensus"@,
{
    reveal_strlit("proposal");
    reveal_strlit("critique");
    reveal_strlit("consensus");
    reveal_strlit("dissensus");
    assert("proposal"@[0] != "critique"@[0]);
    assert("proposal"@.len() != "consensus"@.len());
    assert("proposal"@.len() != "dissensus"@.len());
    assert("critique"@.len() != "consensus"@.len());
    assert("critique"@.len() != "dissensus"@.len());
    assert("consensus"@[0] != "dissensus"@[0]);
}

/// Group `g2` is group `g` after row `i`, of kind `kind`, was added to it.
pub open spec fn group_step(g: ProposalGroup, g2: ProposalGroup, kind: Seq<char>, i: usize) -> bool {
    &&& g2.proposal_id@ == g.proposal_id@
    &&& g2.proposal == if kind == "proposal"@ { Some(i) } else { g.proposal }
    &&& g2.consensus == if kind == "consensus"@ { Some(i) } else { g.consensus }
    &&& g2.dissensus == if kind == "dissensus"@ { Some(i) } else { g.dissensus }
    &&& g2.critiques@ == if kind == "critique"@ { g.critiques@.push(i) } else { g.critiques@ }
}

proof fn lemma_absent(rows: Seq<DecisionRow>, filter: Option<Seq<char>>, k: Seq<char>, kind: Seq<char>)
    requires
        !has_group(rows, filter, k),
    ensures
        last_in_group(rows, filter, k, kind) is None,
        all_in_group(rows, filter, k, kind) == Seq::<int>::empty(),
    decreases rows.len(),
{
    if rows.len() > 0 {
        let d = rows.drop_last();
        assert(!has_group(d, filter, k)) by {
            if has_group(d, filter, k) {
                let w = choose|w: int| 0 <= w < d.len() && #[trigger] row_key(d[w], filter) == Some(k);
                assert(rows[w] == d[w]);
            }
        }
        assert(row_key(rows[rows.len() - 1], filter) != Some(k));
        lemma_absent(d, filter, k, kind);
    }
}

/// The group that row `i` joins, after the step, matches the rows so far.
proof fn lemma_joined_group(
    g: ProposalGroup,
    g2: ProposalGroup,
    rows: Seq<DecisionRow>,
    i: usize,
    filter: Option<Seq<char>>,
)
    requires
        0 <= i < rows.len(),
        row_key(rows[i as int], filter) == Some(g.proposal_id@),
        group_rows_match(g, rows.take(i as int), filter),
        group_step(g, g2, row_kind(rows[i as int]), i),
    ensures
        group_rows_match(g2, rows.take(i + 1), filter),
{
    let k = g.proposal_id@;
    lemma_kind_names_distinct();
    lemma_extend(rows, i as int, filter, k, "proposal"@);
    lemma_extend(rows, i as int, filter, k, "consensus"@);
    lemma_extend(rows, i as int, filter, k, "dissensus"@);
    lemma_extend(rows, i as int, filter, k, "critique"@);
    if row_kind(rows[i as int]) == "critique"@ {
        assert(g2.critiques@.map_values(|x: usize| x as int) =~= g.critiques@.map_values(|x: usize| x as int).push(
            i as int,
        ));
    }
}

/// Row `i` belongs to group `k`: the groups after it are those before, and `k`.
proof fn lemma_cover_step(rows: Seq<DecisionRow>, i: int, filter: Option<Seq<char>>, k: Seq<char>)
    requires
        0 <= i < rows.len(),
        row_key(rows[i], filter) == Some(k),
    ensures
        forall|k2: Seq<char>| #[trigger] has_group(rows.take(i + 1), filter, k2) <==> (has_group(rows.take(i), filter, k2) || k2 == k),
{
    let prev = rows.take(i);
    let next = rows.take(i + 1);
    assert forall|k2: Seq<char>| #[trigger] has_group(next, filter, k2) <==> (has_group(prev, filter, k2) || k2 == k) by {
        if has_group(next, filter, k2) && k2 != k {
            let w = choose|w: int| 0 <= w < next.len() && #[trigger] row_key(next[w], filter) == Some(k2);
            assert(w != i);
            assert(prev[w] == next[w]);
        }
        if has_group(prev, filter, k2) {
            let w = choose|w: int| 0 <= w < prev.len() && #[trigger] row_key(prev[w], filter) == Some(k2);
            assert(prev[w] == next[w]);
        }
        if k2 == k {
            assert(next[i] == rows[i]);
        }
    }
}

/// What the loop of [`group_decisions`] keeps after the first `i` rows.
pub open spec fn groups_after(gs: Seq<ProposalGroup>, rows: Seq<DecisionRow>, i: int, filter: Option<Seq<char>>) -> bool {
    &&& groups_sorted(gs)
    &&& groups_cover(gs, rows.take(i), filter)
    &&& forall|j: int| 0 <= j < gs.len() ==> group_rows_match(#[trigger] gs[j], rows.take(i), filter)
}

/// A row that belongs to no group changes nothing.
proof fn lemma_step_skip(gs: Seq<ProposalGroup>, rows: Seq<DecisionRow>, i: int, filter: Option<Seq<char>>)
    requires
        0 <= i < rows.len(),
        row_key(rows[i], filter) is None,
        groups_after(gs, rows, i, filter),
    ensures
        groups_after(gs, rows, i + 1, filter),
{
    let prev = rows.take(i);
    let next = rows.take(i + 1);
    assert forall|k: Seq<char>| has_group(next, filter, k) <==> has_group(prev, filter, k) by {
        if has_group(next, filter, k) {
            let w = choose|w: int| 0 <= w < next.len() && #[trigger] row_key(next[w], filter) == Some(k);
            assert(w != i);
            assert(prev[w] == next[w]);
        }
        if has_group(prev, filter, k) {
            let w = choose|w: int| 0 <= w < prev.len() && #[trigger] row_key(prev[w], filter) == Some(k);
            assert(prev[w] == next[w]);
        }
    }
    assert forall|j: int| 0 <= j < gs.len() implies group_rows_match(#[trigger] gs[j], next, filter) by {
        let kj = gs[j].proposal_id@;
        lemma_extend(rows, i, filter, kj, "proposal"@);
        lemma_extend(rows, i, filter, kj, "consensus"@);
        lemma_extend(rows, i, filter, kj, "dissensus"@);
        lemma_extend(rows, i, filter, kj, "critique"@);
    }
}

/// A row of a proposal that already has a group joins that group.
proof fn lemma_step_found(
    gs: Seq<ProposalGroup>,
    g2: ProposalGroup,
    rows: Seq<DecisionRow>,
    i: usize,
    filter: Option<Seq<char>>,
    p: int,
)
    requires
        0 <= i < rows.len(),
        groups_after(gs, rows, i as int, filter),
        0 <= p < gs.len(),
        row_key(rows[i as int], filter) == Some(gs[p].proposal_id@),
        group_step(gs[p], g2, row_kind(rows[i as int]), i),
    ensures
        groups_after(gs.update(p, g2), rows, i + 1, filter),
{
    let k = gs[p].proposal_id@;
    let ng = gs.update(p, g2);
    let prev = rows.take(i as int);
    let next = rows.take(i + 1);
    lemma_joined_group(gs[p], g2, rows, i, filter);
    lemma_lt_irreflexive(k);
    assert forall|j: int| 0 <= j < ng.len() implies group_rows_match(#[trigger] ng[j], next, filter) by {
        if j != p {
            let kj = gs[j].proposal_id@;
            if j < p {
                assert(seq_lt(gs[j].proposal_id@, gs[p].proposal_id@));
            } else {
                assert(seq_lt(gs[p].proposal_id@, gs[j].proposal_id@));
            }
            assert(kj != k);
            lemma_extend(rows, i as int, filter, kj, "proposal"@);
            lemma_extend(rows, i as int, filter, kj, "consensus"@);
            lemma_extend(rows, i as int, filter, kj, "dissensus"@);
            lemma_extend(rows, i as int, filter, kj, "critique"@);
        }
    }
    assert forall|a: int, b: int| 0 <= a < b < ng.len() implies seq_lt(
        #[trigger] ng[a].proposal_id@,
        #[trigger] ng[b].proposal_id@,
    ) by {
        assert(seq_lt(gs[a].proposal_id@, gs[b].proposal_id@));
    }
    lemma_cover_step(rows, i as int, filter, k);
    assert forall|k2: Seq<char>| has_group(next, filter, k2) <==> exists|j: int|
        0 <= j < ng.len() && #[trigger] ng[j].proposal_id@ == k2 by {
        if has_group(next, filter, k2) {
            if k2 == k {
                assert(ng[p].proposal_id@ == k2);
            } else {
                assert(has_group(prev, filter, k2));
                let j = choose|j: int| 0 <= j < gs.len() && #[trigger] gs[j].proposal_id@ == k2;
                assert(ng[j].proposal_id@ == k2);
            }
        }
        if exists|j: int| 0 <= j < ng.len() && #[trigger] ng[j].proposal_id@ == k2 {
            let j = choose|j: int| 0 <= j < ng.len() && #[trigger] ng[j].proposal_id@ == k2;
            assert(gs[j].proposal_id@ == k2);
        }
    }
}

/// A row of a proposal without a group yet opens one, in its sorted place.
proof fn lemma_step_new(
    gs: Seq<ProposalGroup>,
    g0: ProposalGroup,
    g2: ProposalGroup,
    rows: Seq<DecisionRow>,
    i: usize,
    filter: Option<Seq<char>>,
    p: int,
)
    requires
        0 <= i < rows.len(),
        groups_after(gs, rows, i as int, filter),
        0 <= p <= gs.len(),
        forall|q: int| 0 <= q < p ==> seq_lt(#[trigger] gs[q].proposal_id@, g0.proposal_id@),
        p < gs.len() ==> !seq_lt(gs[p].proposal_id@, g0.proposal_id@) && gs[p].proposal_id@ != g0.proposal_id@,
        row_key(rows[i as int], filter) == Some(g0.proposal_id@),
        g0.proposal is None,
        g0.consensus is None,
        g0.dissensus is None,
        g0.critiques@.len() == 0,
        group_step(g0, g2, row_kind(rows[i as int]), i),
    ensures
        groups_after(gs.insert(p, g2), rows, i + 1, filter),
{
    let k = g0.proposal_id@;
    let ng = gs.insert(p, g2);
    let prev = rows.take(i as int);
    let next = rows.take(i + 1);
    gs.insert_ensures(p, g2);
    lemma_lt_irreflexive(k);
    // `k` sorts before every id from position `p` on.
    if p < gs.len() {
        lemma_lt_total(gs[p].proposal_id@, k);
    }
    assert forall|q: int| p <= q < gs.len() implies seq_lt(k, #[trigger] gs[q].proposal_id@) by {
        if q > p {
            assert(seq_lt(gs[p].proposal_id@, gs[q].proposal_id@));
            lemma_lt_transitive(k, gs[p].proposal_id@, gs[q].proposal_id@);
        }
    }
    assert forall|q: int| 0 <= q < gs.len() implies (#[trigger] gs[q].proposal_id@) != k by {
        if q < p {
            assert(seq_lt(gs[q].proposal_id@, k));
        } else {
            assert(seq_lt(k, gs[q].proposal_id@));
        }
    }
    // So no earlier row belonged to `k`, and the new group matches.
    assert(!has_group(prev, filter, k));
    lemma_absent(prev, filter, k, "proposal"@);
    lemma_absent(prev, filter, k, "consensus"@);
    lemma_absent(prev, filter, k, "dissensus"@);
    lemma_absent(prev, filter, k, "critique"@);
    assert(g0.critiques@.map_values(|x: usize| x as int) =~= Seq::<int>::empty());
    lemma_joined_group(g0, g2, rows, i, filter);
    assert forall|j: int| 0 <= j < ng.len() implies group_rows_match(#[trigger] ng[j], next, filter) by {
        if j != p {
            let oj = if j < p { j } else { j - 1 };
            assert(ng[j] == gs[oj]);
            let kj = gs[oj].proposal_id@;
            assert(kj != k);
            lemma_extend(rows, i as int, filter, kj, "proposal"@);
            lemma_extend(rows, i as int, filter, kj, "consensus"@);
            lemma_extend(rows, i as int, filter, kj, "dissensus"@);
            lemma_extend(rows, i as int, filter, kj, "critique"@);
        }
    }
    assert forall|a: int, b: int| 0 <= a < b < ng.len() implies seq_lt(
        #[trigger] ng[a].proposal_id@,
        #[trigger] ng[b].proposal_id@,
    ) by {
        if b < p {
            assert(seq_lt(gs[a].proposal_id@, gs[b].proposal_id@));
        } else if b == p {
            assert(seq_lt(gs[a].proposal_id@, k));
        } else if a < p {
            assert(ng[b] == gs[b - 1]);
            assert(seq_lt(gs[a].proposal_id@, k));
            assert(seq_lt(k, gs[b - 1].proposal_id@));
            lemma_lt_transitive(gs[a].proposal_id@, k, gs[b - 1].proposal_id@);
        } else if a == p {
            assert(ng[b] == gs[b - 1]);
            assert(seq_lt(k, gs[b - 1].proposal_id@));
        } else {
            assert(ng[a] == gs[a - 1]);
            assert(ng[b] == gs[b - 1]);
            assert(seq_lt(gs[a - 1].proposal_id@, gs[b - 1].proposal_id@));
        }
    }
    lemma_cover_step(rows, i as int, filter, k);
    assert forall|k2: Seq<char>| has_group(next, filter, k2) <==> exists|j: int|
        0 <= j < ng.len() && #[trigger] ng[j].proposal_id@ == k2 by {
        if has_group(next, filter, k2) {
            if k2 == k {
                assert(ng[p].proposal_id@ == k2);
            } else {
                assert(has_group(prev, filter, k2));
                let j = choose|j: int| 0 <= j < gs.len() && #[trigger] gs[j].proposal_id@ == k2;
                if j < p {
                    assert(ng[j].proposal_id@ == k2);
                } else {
                    assert(ng[j + 1].proposal_id@ == k2);
                }
            }
        }
        if exists|j: int| 0 <= j < ng.len() && #[trigger] ng[j].proposal_id@ == k2 {
            let j = choose|j: int| 0 <= j < ng.len() && #[trigger] ng[j].proposal_id@ == k2;
            if j < p {
                assert(gs[j].proposal_id@ == k2);
            } else if j > p {
                assert(gs[j - 1].proposal_id@ == k2);
            }
        }
    }
}

/// The proposal a row belongs to, if it is kept; `is_proposal` tells whether
/// it is a proposal.
fn key_of<'a>(r: &'a DecisionRow, filter: &Option<String>) -> (res: (Option<&'a str>, bool))
    ensures
        res.1 == (row_kind(*r) == "proposal"@),
        match res.0 {
            Some(k) => row_key(*r, ov_ref(*filter)) == Some(k@),
            None => row_key(*r, ov_ref(*filter)) is None,
        },
{
    let is_proposal = match &r.kind {
        Some(k) => str_eq(k.as_str(), "proposal"),
        None => true,
    };
    let raw: Option<&str> = if is_proposal {
        match &r.id {
            Some(s) => Some(s.as_str()),
            None => None,
        }
    } else {
        match &r.proposal_id {
            Some(s) => Some(s.as_str()),
            None => None,
        }
    };
    match raw {
        None => (None, is_proposal),
        Some(k) => {
            if k.unicode_len() == 0 {
                (None, is_proposal)
            } else {
                match filter {
                    Some(f) => {
                        if str_eq(k, f.as_str()) {
                            (Some(k), is_proposal)
                        } else {
                            (None, is_proposal)
                        }
                    },
                    None => (Some(k), is_proposal),
                }
            }
        },
    }
}

/// The view of an optional string.
pub open spec fn ov_ref(o: Option<String>) -> Option<Seq<char>> {
    match o {
        Some(s) => Some(s@),
        None => None,
    }
}

/// Where proposal `k` stands or belongs among sorted groups: the first
/// position whose id does not sort before `k`.
fn find_slot(groups: &Vec<ProposalGroup>, k: &str) -> (p: usize)
    requires
        groups_sorted(groups@),
    ensures
        p <= groups@.len(),
        forall|q: int| 0 <= q < p ==> seq_lt(#[trigger] groups@[q].proposal_id@, k@),
        p < groups@.len() ==> !seq_lt(groups@[p as int].proposal_id@, k@),
{
    let mut p: usize = 0;
    while p < groups.len() && str_lt(groups[p].proposal_id.as_str(), k)
        invariant
            p <= groups@.len(),
            forall|q: int| 0 <= q < p ==> seq_lt(#[trigger] groups@[q].proposal_id@, k@),
        decreases groups@.len() - p,
    {
        p += 1;
    }
    p
}

/// Group the decision rows by proposal, in order of proposal id. A row is
/// kept when its proposal id is not empty and matches `filter` where one is
/// given. Each group names its last proposal, consensus and dissensus row and
/// all its critiques in order, counts the critiques and gives the stage.
/// The groups are held in a `Vec` kept sorted by proposal id, in the order
/// a map keyed by `String` (serde_json's `Map` without `preserve_order`)
/// walks its keys.
pub fn group_decisions(rows: &Vec<DecisionRow>, filter: &Option<String>) -> (r: Vec<ProposalGroup>)
    ensures
        groups_sorted(r@),
        groups_cover(r@, rows@, ov_ref(*filter)),
        forall|j: int| 0 <= j < r@.len() ==> group_correct(#[trigger] r@[j], rows@, ov_ref(*filter)),
{
    let ghost f = ov_ref(*filter);
    let mut groups: Vec<ProposalGroup> = Vec::new();
    let mut i: usize = 0;
    proof {
        assert forall|k: Seq<char>| has_group(rows@.take(0), f, k) <==> exists|j: int|
            0 <= j < groups@.len() && #[trigger] groups@[j].proposal_id@ == k by {}
    }
    while i < rows.len()
        invariant
            i <= rows@.len(),
            f == ov_ref(*filter),
            groups_after(groups@, rows@, i as int, f),
        decreases rows@.len() - i,
    {
        let ghost old_groups = groups@;
        let (key, is_proposal) = key_of(&rows[i], filter);
        match key {
            None => {
                proof {
                    lemma_step_skip(old_groups, rows@, i as int, f);
                }
            },
            Some(k) => {
                let p = find_slot(&groups, k);
                let found = p < groups.len() && str_eq(groups[p].proposal_id.as_str(), k);
                let mut g = if found {
                    groups.remove(p)
                } else {
                    ProposalGroup {
                        proposal_id: owned(k),
                        proposal: None,
                        critiques: Vec::new(),
                        consensus: None,
                        dissensus: None,
                        stage: ConsensusStage::Proposal,
                        critique_count: 0,
                    }
                };
                let ghost g0 = g;
                let kind: &str = match &rows[i].kind {
                    Some(s) => s.as_str(),
                    None => "proposal",
                };
                if is_proposal {
                    g.proposal = Some(i);
                } else if str_eq(kind, "critique") {
                    g.critiques.push(i);
                } else if str_eq(kind, "consensus") {
                    g.consensus = Some(i);
                } else if str_eq(kind, "dissensus") {
                    g.dissensus = Some(i);
                }
                proof {
                    lemma_kind_names_distinct();
                    assert(kind@ == row_kind(rows@[i as int]));
                    assert(group_step(g0, g, row_kind(rows@[i as int]), i));
                    if found {
                        assert(old_groups.remove(p as int).insert(p as int, g) =~= old_groups.update(p as int, g));
                        lemma_step_found(old_groups, g, rows@, i, f, p as int);
                    } else {
                        lemma_step_new(old_groups, g0, g, rows@, i, f, p as int);
                    }
                }
                groups.insert(p, g);
            },
        }
        i += 1;
    }
    assert(rows@.take(rows@.len() as int) =~= rows@);
    let mut out: Vec<ProposalGroup> = Vec::new();
    let mut j: usize = 0;
    while j < groups.len()
        invariant
            j <= groups@.len(),
            out@.len() == j,
            forall|q: int| 0 <= q < j ==> (#[trigger] out@[q]).proposal_id@ == groups@[q].proposal_id@
                && out@[q].proposal == groups@[q].proposal && out@[q].consensus == groups@[q].consensus
                && out@[q].dissensus == groups@[q].dissensus && out@[q].critiques@ == groups@[q].critiques@
                && out@[q].critique_count == out@[q].critiques@.len() && out@[q].stage == spec_stage(
                    out@[q].dissensus is Some,
                    out@[q].consensus is Some,
                    out@[q].critique_count as nat,
                ),
        decreases groups@.len() - j,
    {
        let g = &groups[j];
        let n = g.critiques.len();
        let stage = if g.dissensus.is_some() {
            ConsensusStage::Dissensus
        } else if g.consensus.is_some() {
            ConsensusStage::Consensus
        } else if n > 0 {
            ConsensusStage::Critique
        } else {
            ConsensusStage::Proposal
        };
        out.push(
            ProposalGroup {
                proposal_id: g.proposal_id.clone(),
                proposal: g.proposal,
                critiques: g.critiques.clone(),
                consensus: g.consensus,
                dissensus: g.dissensus,
                stage,
                critique_count: n,
            },
        );
        j += 1;
    }
    proof {
        assert forall|k: Seq<char>| has_group(rows@, f, k) <==> exists|q: int|
            0 <= q < out@.len() && #[trigger] out@[q].proposal_id@ == k by {
            if has_group(rows@, f, k) {
                let q = choose|q: int| 0 <= q < groups@.len() && #[trigger] groups@[q].proposal_id@ == k;
                assert(out@[q].proposal_id@ == k);
            }
            if exists|q: int| 0 <= q < out@.len() && #[trigger] out@[q].proposal_id@ == k {
                let q = choose|q: int| 0 <= q < out@.len() && #[trigger] out@[q].proposal_id@ == k;
                assert(groups@[q].proposal_id@ == k);
            }
        }
    }
    out
}


/// A proposal that met a dissensus is escalated whatever else its group
/// holds; without one, a consensus settles it.
pub proof fn law_dissensus_always_escalates(g: ProposalGroup, rows: Seq<DecisionRow>, filter: Option<Seq<char>>)
    requires
        group_correct(g, rows, filter),
    ensures
        last_in_group(rows, filter, g.proposal_id@, "dissensus"@) is Some ==> g.stage == ConsensusStage::Dissensus,
        last_in_group(rows, filter, g.proposal_id@, "dissensus"@) is None && last_in_group(
            rows,
            filter,
            g.proposal_id@,
            "consensus"@,
        ) is Some ==> g.stage == ConsensusStage::Consensus,
{
}

/// A proposal's stage: dissensus whenever a dissensus row exists; else
/// consensus whenever a consensus row exists; else critique exactly when at
/// least one critique exists, and proposal when none does. Critiques that
/// pile up never take a proposal back to the proposal stage.
pub proof fn law_stage_follows_the_rows(g: ProposalGroup, rows: Seq<DecisionRow>, filter: Option<Seq<char>>)
    requires
        group_correct(g, rows, filter),
    ensures
        g.critique_count == g.critiques@.len(),
        (g.stage == ConsensusStage::Dissensus) <==> g.dissensus is Some,
        (g.stage == ConsensusStage::Consensus) <==> (g.dissensus is None && g.consensus is Some),
        (g.stage == ConsensusStage::Critique) <==> (g.dissensus is None && g.consensus is None
            && g.critiques@.len() > 0),
        (g.stage == ConsensusStage::Proposal) <==> (g.dissensus is None && g.consensus is None
            && g.critiques@.len() == 0),
{
}

/// Which proposal a row counts under: a row without a kind counts as a
/// proposal; a proposal counts under its own id, every other row under its
/// `proposal_id`; a row whose proposal is missing or empty is left out, and
/// so is one whose proposal differs from the filter.
pub proof fn law_row_grouping(r: DecisionRow, filter: Option<Seq<char>>)
    ensures
        r.kind is None ==> row_kind(r) == "proposal"@,
        r.kind matches Some(k) ==> row_kind(r) == k@,
        row_key(r, filter) matches Some(k) ==> k.len() > 0 && (filter matches Some(f) ==> k == f),
        row_kind(r) == "proposal"@ ==> (row_key(r, filter) is Some <==> (r.id matches Some(i) && i@.len() > 0
            && (filter matches Some(f) ==> i@ == f))),
        row_kind(r) == "proposal"@ && row_key(r, filter) is Some ==> row_key(r, filter) == Some(r.id->0@),
        row_kind(r) != "proposal"@ ==> (row_key(r, filter) is Some <==> (r.proposal_id matches Some(p) && p@.len()
            > 0 && (filter matches Some(f) ==> p@ == f))),
        row_kind(r) != "proposal"@ && row_key(r, filter) is Some ==> row_key(r, filter) == Some(
            r.proposal_id->0@,
        ),
{
}

} // verus!
