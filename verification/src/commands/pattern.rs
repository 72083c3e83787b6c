//! `sdi pattern tree`, the indented parent-to-child rendering of a plan's
//! collaboration patterns, and the `--kind` filter of `sdi pattern list`.
use vstd::prelude::*;
use vstd::set_lib::{set_int_range, lemma_int_range, lemma_len_subset};
use crate::lexical::{seq_lt, str_lt, lemma_lt_irreflexive, lemma_lt_total, lemma_lt_transitive};
use crate::text::{str_eq, push_int_decimal, int_decimal, owned};

verus! {

/// What the tree reads of one pattern row; a field is absent where the row
/// lacks it or it has another type (`depth` is then 0).
#[derive(Debug, Clone)]
pub struct PatternRow {
    pub id: Option<String>,
    pub parent_pattern_id: Option<String>,
    pub created_at: Option<String>,
    pub short_code: Option<String>,
    pub kind: Option<String>,
    pub applies_to: Option<String>,
    pub lifecycle: Option<String>,
    pub depth: i64,
}

/// The view of an optional string, with a default for the absent case.
pub open spec fn view_or(o: Option<String>, d: Seq<char>) -> Seq<char> {
    match o {
        Some(s) => s@,
        None => d,
    }
}

/// The parent a row hangs under; the empty string for a root.
pub open spec fn parent_key(r: PatternRow) -> Seq<char> {
    view_or(r.parent_pattern_id, Seq::empty())
}

/// The key under which a row's children are looked up.
pub open spec fn child_key(r: PatternRow) -> Seq<char> {
    view_or(r.id, "?"@)
}

/// The creation time a row's siblings are ordered by.
pub open spec fn created_key(r: PatternRow) -> Seq<char> {
    view_or(r.created_at, Seq::empty())
}

/// The view of a row's id, if it has one.
pub open spec fn id_view(r: PatternRow) -> Option<Seq<char>> {
    match r.id {
        Some(s) => Some(s@),
        None => None,
    }
}

/// `k` is the non-empty id of some row.
pub open spec fn is_known_id(rows: Seq<PatternRow>, k: Seq<char>) -> bool {
    k.len() > 0 && exists|i: int| 0 <= i < rows.len() && #[trigger] id_view(rows[i]) == Some(k)
}

/// `s` with row `i` placed after every row that was not created later than
/// it (rows created at the same time keep their order).
pub open spec fn sorted_insert(rows: Seq<PatternRow>, s: Seq<int>, i: int) -> Seq<int>
    decreases s.len(),
{
    if s.len() == 0 {
        seq![i]
    } else if seq_lt(created_key(rows[i]), created_key(rows[s[0]])) {
        seq![i] + s
    } else {
        seq![s[0]] + sorted_insert(rows, s.drop_first(), i)
    }
}

/// The children of `key` among the first `n` rows, oldest first, rows
/// created at the same time in input order.
pub open spec fn children_upto(rows: Seq<PatternRow>, key: Seq<char>, n: nat) -> Seq<int>
    decreases n,
{
    if n == 0 {
        Seq::empty()
    } else {
        let c = children_upto(rows, key, (n - 1) as nat);
        if parent_key(rows[n - 1]) == key {
            sorted_insert(rows, c, n - 1)
        } else {
            c
        }
    }
}

/// The rows whose parent is `key`, oldest first.
pub open spec fn children(rows: Seq<PatternRow>, key: Seq<char>) -> Seq<int> {
    children_upto(rows, key, rows.len())
}

/// Two spaces per level.
pub open spec fn indent(depth: nat) -> Seq<char>
    decreases depth,
{
    if depth == 0 {
        Seq::empty()
    } else {
        indent((depth - 1) as nat) + "  "@
    }
}

/// The line of one row: `- SHORT ID [KIND/SCOPE] depth=N lifecycle=L`,
/// indented, with `(orphan) ` in place of `- ` for an orphan.
pub open spec fn row_line(r: PatternRow, depth: nat, orphan: bool) -> Seq<char> {
    indent(depth) + (if orphan {
        "(orphan) "@
    } else {
        "- "@
    }) + view_or(r.short_code, Seq::empty()) + " "@ + view_or(r.id, "?"@) + " ["@ + view_or(r.kind, "?"@) + "/"@
        + view_or(r.applies_to, "?"@) + "] depth="@ + int_decimal(r.depth as int) + " lifecycle="@ + view_or(
        r.lifecycle,
        "?"@,
    ) + "\n"@
}

/// Both texts, one after the other, where neither failed.
pub open spec fn join(a: Option<Seq<char>>, b: Option<Seq<char>>) -> Option<Seq<char>> {
    match (a, b) {
        (Some(x), Some(y)) => Some(x + y),
        _ => None,
    }
}

/// Row `i` and, below it, its descendants. Every level spends one unit of
/// `fuel`; the walk fails (`None`) where the fuel runs out.
pub open spec fn walk_text(rows: Seq<PatternRow>, i: int, depth: nat, orphan: bool, fuel: nat) -> Option<Seq<char>>
    decreases fuel, 0nat,
{
    if fuel == 0 {
        None
    } else {
        join(
            Some(row_line(rows[i], depth, orphan)),
            walk_list(rows, children(rows, child_key(rows[i])), depth + 1, false, (fuel - 1) as nat),
        )
    }
}

/// The walks of the rows `cs`, in order.
pub open spec fn walk_list(rows: Seq<PatternRow>, cs: Seq<int>, depth: nat, orphan: bool, fuel: nat) -> Option<
    Seq<char>,
>
    decreases fuel, cs.len() + 1,
{
    if cs.len() == 0 {
        Some(Seq::empty())
    } else {
        join(walk_list(rows, cs.drop_last(), depth, orphan, fuel), walk_text(rows, cs.last(), depth, orphan, fuel))
    }
}

/// `ks` with `k` added in sorted place, unless it is there already.
pub open spec fn key_insert(ks: Seq<Seq<char>>, k: Seq<char>) -> Seq<Seq<char>>
    decreases ks.len(),
{
    if ks.len() == 0 {
        seq![k]
    } else if ks[0] == k {
        ks
    } else if seq_lt(k, ks[0]) {
        seq![k] + ks
    } else {
        seq![ks[0]] + key_insert(ks.drop_first(), k)
    }
}

/// The parents named by the first `n` rows, each once, in sorted order.
pub open spec fn keys_upto(rows: Seq<PatternRow>, n: nat) -> Seq<Seq<char>>
    decreases n,
{
    if n == 0 {
        Seq::empty()
    } else {
        key_insert(keys_upto(rows, (n - 1) as nat), parent_key(rows[n - 1]))
    }
}

/// All parents named by the rows, each once, in sorted order.
pub open spec fn parent_keys(rows: Seq<PatternRow>) -> Seq<Seq<char>> {
    keys_upto(rows, rows.len())
}

/// A parent that is not a row of this plan.
pub open spec fn is_orphan_key(rows: Seq<PatternRow>, k: Seq<char>) -> bool {
    k.len() > 0 && !is_known_id(rows, k)
}

/// Some key of `ks` is an orphan parent.
pub open spec fn has_orphan(rows: Seq<PatternRow>, ks: Seq<Seq<char>>) -> bool {
    exists|j: int| 0 <= j < ks.len() && #[trigger] is_orphan_key(rows, ks[j])
}

/// The walks of the children of every orphan parent of `ks`, in order, each
/// child marked as an orphan.
pub open spec fn orphan_text(rows: Seq<PatternRow>, ks: Seq<Seq<char>>, fuel: nat) -> Option<Seq<char>>
    decreases ks.len(),
{
    if ks.len() == 0 {
        Some(Seq::empty())
    } else if is_orphan_key(rows, ks.last()) {
        join(orphan_text(rows, ks.drop_last(), fuel), walk_list(rows, children(rows, ks.last()), 0, true, fuel))
    } else {
        orphan_text(rows, ks.drop_last(), fuel)
    }
}

/// The line that opens the orphan section.
pub open spec fn orphan_header() -> Seq<char> {
    "(orphans \u{2014} parent not in this plan)\n"@
}

/// What is printed for a plan without patterns to show.
pub open spec fn empty_tree_text() -> Seq<char> {
    "(no patterns in this plan)\n"@
}

/// The whole tree: the roots (rows without a parent) and their descendants,
/// then, under one header, the rows whose parent is not in this plan.
pub open spec fn spec_render(rows: Seq<PatternRow>, fuel: nat) -> Option<Seq<char>> {
    let ks = parent_keys(rows);
    match (walk_list(rows, children(rows, Seq::empty()), 0, false, fuel), orphan_text(rows, ks, fuel)) {
        (Some(a), Some(b)) => {
            let t = a + (if has_orphan(rows, ks) {
                orphan_header()
            } else {
                Seq::empty()
            }) + b;
            Some(
                if t.len() == 0 {
                    empty_tree_text()
                } else {
                    t
                },
            )
        },
        _ => None,
    }
}

/// A sorted insertion at the first position whose row was created later.
proof fn lemma_sorted_insert_at(rows: Seq<PatternRow>, s: Seq<int>, i: int, p: int)
    requires
        0 <= p <= s.len(),
        forall|q: int| 0 <= q < p ==> !seq_lt(created_key(rows[i]), #[trigger] created_key(rows[s[q]])),
        p < s.len() ==> seq_lt(created_key(rows[i]), created_key(rows[s[p]])),
    ensures
        sorted_insert(rows, s, i) == s.insert(p, i),
    decreases s.len(),
{
    if s.len() == 0 {
        assert(s.insert(p, i) =~= seq![i]);
    } else if p == 0 {
        assert(s.insert(0, i) =~= seq![i] + s);
    } else {
        let d = s.drop_first();
        assert forall|q: int| 0 <= q < p - 1 implies !seq_lt(created_key(rows[i]), #[trigger] created_key(rows[d[q]])) by {
            assert(d[q] == s[q + 1]);
        }
        lemma_sorted_insert_at(rows, d, i, p - 1);
        assert(s.insert(p, i) =~= seq![s[0]] + d.insert(p - 1, i));
    }
}

/// A key insertion at the first position whose key does not sort first.
proof fn lemma_key_insert_at(ks: Seq<Seq<char>>, k: Seq<char>, p: int)
    requires
        0 <= p <= ks.len(),
        forall|q: int| 0 <= q < p ==> seq_lt(#[trigger] ks[q], k),
        p < ks.len() ==> !seq_lt(ks[p], k),
    ensures
        key_insert(ks, k) == if p < ks.len() && ks[p] == k {
            ks
        } else {
            ks.insert(p, k)
        },
    decreases ks.len(),
{
    lemma_lt_irreflexive(k);
    if ks.len() == 0 {
        assert(ks.insert(p, k) =~= seq![k]);
    } else if p == 0 {
        lemma_lt_total(ks[0], k);
        assert(ks.insert(0, k) =~= seq![k] + ks);
    } else {
        let d = ks.drop_first();
        assert(seq_lt(ks[0], k));
        lemma_lt_total(ks[0], k);
        assert forall|q: int| 0 <= q < p - 1 implies seq_lt(#[trigger] d[q], k) by {
            assert(d[q] == ks[q + 1]);
        }
        lemma_key_insert_at(d, k, p - 1);
        assert(ks.insert(p, k) =~= seq![ks[0]] + d.insert(p - 1, k));
        assert(ks =~= seq![ks[0]] + d);
    }
}

/// A failed walk of some rows fails the walk of any longer list.
proof fn lemma_list_fails_on(rows: Seq<PatternRow>, cs: Seq<int>, j: int, depth: nat, orphan: bool, fuel: nat)
    requires
        0 <= j <= cs.len(),
        walk_list(rows, cs.take(j), depth, orphan, fuel) is None,
    ensures
        walk_list(rows, cs, depth, orphan, fuel) is None,
    decreases cs.len() - j,
{
    if j < cs.len() {
        assert(cs.take(j + 1).drop_last() =~= cs.take(j));
        lemma_list_fails_on(rows, cs, j + 1, depth, orphan, fuel);
    } else {
        assert(cs.take(j) =~= cs);
    }
}

/// The string in `o`, or `d` where it is absent.
fn str_or<'a>(o: &'a Option<String>, d: &'a str) -> (r: &'a str)
    ensures
        r@ == view_or(*o, d@),
{
    match o {
        Some(s) => s.as_str(),
        None => d,
    }
}

/// The children of `key`, oldest first: a linear scan with sorted insertion
/// in place of a map from parent to children, giving the order a stable
/// sort of each sibling list by creation time gives.
fn children_of(rows: &Vec<PatternRow>, key: &str) -> (r: Vec<usize>)
    ensures
        r@.map_values(|x: usize| x as int) == children(rows@, key@),
        forall|q: int| 0 <= q < r@.len() ==> #[trigger] r@[q] < rows@.len(),
{
    let empty = String::new();
    let mut c: Vec<usize> = Vec::new();
    let mut i: usize = 0;
    while i < rows.len()
        invariant
            i <= rows@.len(),
            empty@ == Seq::<char>::empty(),
            c@.map_values(|x: usize| x as int) == children_upto(rows@, key@, i as nat),
            forall|q: int| 0 <= q < c@.len() ==> #[trigger] c@[q] < i,
        decreases rows@.len() - i,
    {
        let parent = str_or(&rows[i].parent_pattern_id, empty.as_str());
        if str_eq(parent, key) {
            let ci = str_or(&rows[i].created_at, empty.as_str());
            let ghost cs = c@.map_values(|x: usize| x as int);
            let mut p: usize = 0;
            while p < c.len() && !str_lt(ci, str_or(&rows[c[p]].created_at, empty.as_str()))
                invariant
                    p <= c@.len(),
                    i < rows@.len(),
                    empty@ == Seq::<char>::empty(),
                    ci@ == created_key(rows@[i as int]),
                    cs == c@.map_values(|x: usize| x as int),
                    forall|q: int| 0 <= q < c@.len() ==> #[trigger] c@[q] < i,
                    forall|q: int| 0 <= q < p ==> !seq_lt(ci@, #[trigger] created_key(rows@[cs[q]])),
                decreases c@.len() - p,
            {
                p += 1;
            }
            proof {
                lemma_sorted_insert_at(rows@, cs, i as int, p as int);
            }
            c.insert(p, i);
            proof {
                assert(c@.map_values(|x: usize| x as int) =~= cs.insert(p as int, i as int));
            }
        }
        i += 1;
    }
    c
}

/// Appends `depth` levels of indentation.
fn push_indent(out: &mut String, depth: usize)
    ensures
        final(out)@ == old(out)@ + indent(depth as nat),
{
    let mut k: usize = 0;
    while k < depth
        invariant
            k <= depth,
            out@ == old(out)@ + indent(k as nat),
        decreases depth - k,
    {
        out.append("  ");
        k += 1;
        assert(out@ =~= old(out)@ + indent(k as nat));
    }
}

/// Appends the line of row `r`.
fn push_line(out: &mut String, r: &PatternRow, depth: usize, orphan: bool)
    ensures
        final(out)@ == old(out)@ + row_line(*r, depth as nat, orphan),
{
    let empty = String::new();
    push_indent(out, depth);
    if orphan {
        out.append("(orphan) ");
    } else {
        out.append("- ");
    }
    out.append(str_or(&r.short_code, empty.as_str()));
    out.append(" ");
    out.append(str_or(&r.id, "?"));
    out.append(" [");
    out.append(str_or(&r.kind, "?"));
    out.append("/");
    out.append(str_or(&r.applies_to, "?"));
    out.append("] depth=");
    push_int_decimal(out, r.depth);
    out.append(" lifecycle=");
    out.append(str_or(&r.lifecycle, "?"));
    out.append("\n");
    assert(final(out)@ =~= old(out)@ + row_line(*r, depth as nat, orphan));
}

/// Appends the walk of row `i`; `false` where the fuel ran out.
fn walk(rows: &Vec<PatternRow>, i: usize, depth: usize, orphan: bool, fuel: usize, out: &mut String) -> (ok: bool)
    requires
        i < rows@.len(),
        depth + fuel <= rows.len(),
    ensures
        ok == walk_text(rows@, i as int, depth as nat, orphan, fuel as nat) is Some,
        ok ==> final(out)@ == old(out)@ + walk_text(rows@, i as int, depth as nat, orphan, fuel as nat).unwrap(),
    decreases fuel, 0nat,
{
    if fuel == 0 {
        return false;
    }
    push_line(out, &rows[i], depth, orphan);
    let cs = children_of(rows, str_or(&rows[i].id, "?"));
    let ghost mid = out@;
    let ok = walk_all(rows, &cs, depth + 1, false, fuel - 1, out);
    proof {
        assert(cs@.map_values(|x: usize| x as int) == children(rows@, child_key(rows@[i as int])));
        if ok {
            assert(final(out)@ =~= old(out)@ + walk_text(rows@, i as int, depth as nat, orphan, fuel as nat).unwrap());
        }
    }
    ok
}

/// Appends the walks of the rows `cs`, in order; `false` where one failed.
fn walk_all(
    rows: &Vec<PatternRow>,
    cs: &Vec<usize>,
    depth: usize,
    orphan: bool,
    fuel: usize,
    out: &mut String,
) -> (ok: bool)
    requires
        forall|q: int| 0 <= q < cs@.len() ==> #[trigger] cs@[q] < rows@.len(),
        depth + fuel <= rows.len(),
    ensures
        ok == walk_list(rows@, cs@.map_values(|x: usize| x as int), depth as nat, orphan, fuel as nat) is Some,
        ok ==> final(out)@ == old(out)@ + walk_list(
            rows@,
            cs@.map_values(|x: usize| x as int),
            depth as nat,
            orphan,
            fuel as nat,
        ).unwrap(),
    decreases fuel, cs@.len() + 1,
{
    let ghost all = cs@.map_values(|x: usize| x as int);
    let mut j: usize = 0;
    proof {
        assert(all.take(0) =~= Seq::<int>::empty());
        assert(out@ =~= old(out)@ + Seq::<char>::empty());
    }
    while j < cs.len()
        invariant
            j <= cs@.len(),
            all == cs@.map_values(|x: usize| x as int),
            forall|q: int| 0 <= q < cs@.len() ==> #[trigger] cs@[q] < rows@.len(),
            depth + fuel <= rows.len(),
            walk_list(rows@, all.take(j as int), depth as nat, orphan, fuel as nat) is Some,
            out@ == old(out)@ + walk_list(rows@, all.take(j as int), depth as nat, orphan, fuel as nat).unwrap(),
        decreases cs@.len() - j,
    {
        let ghost before = out@;
        let ok = walk(rows, cs[j], depth, orphan, fuel, out);
        proof {
            assert(all.take(j + 1).drop_last() =~= all.take(j as int));
            assert(all.take(j + 1).last() == cs@[j as int] as int);
        }
        if !ok {
            proof {
                lemma_list_fails_on(rows@, all, j + 1, depth as nat, orphan, fuel as nat);
            }
            return false;
        }
        j += 1;
        proof {
            assert(out@ =~= old(out)@ + walk_list(rows@, all.take(j as int), depth as nat, orphan, fuel as nat).unwrap());
        }
    }
    proof {
        assert(all.take(cs@.len() as int) =~= all);
    }
    true
}


/// A failed orphan section stays failed whatever keys follow.
proof fn lemma_orphans_fail_on(rows: Seq<PatternRow>, ks: Seq<Seq<char>>, j: int, fuel: nat)
    requires
        0 <= j <= ks.len(),
        orphan_text(rows, ks.take(j), fuel) is None,
    ensures
        orphan_text(rows, ks, fuel) is None,
    decreases ks.len() - j,
{
    if j < ks.len() {
        assert(ks.take(j + 1).drop_last() =~= ks.take(j));
        lemma_orphans_fail_on(rows, ks, j + 1, fuel);
    } else {
        assert(ks.take(j) =~= ks);
    }
}

/// Without an orphan parent the orphan section is empty.
proof fn lemma_no_orphans(rows: Seq<PatternRow>, ks: Seq<Seq<char>>, fuel: nat)
    requires
        !has_orphan(rows, ks),
    ensures
        orphan_text(rows, ks, fuel) == Some(Seq::<char>::empty()),
    decreases ks.len(),
{
    if ks.len() > 0 {
        let d = ks.drop_last();
        assert(!is_orphan_key(rows, ks[ks.len() - 1]));
        assert(!has_orphan(rows, d)) by {
            if has_orphan(rows, d) {
                let w = choose|w: int| 0 <= w < d.len() && #[trigger] is_orphan_key(rows, d[w]);
                assert(ks[w] == d[w]);
            }
        }
        lemma_no_orphans(rows, d, fuel);
    }
}

/// The parents named by the rows, each once, in sorted order.
fn parent_keys_of(rows: &Vec<PatternRow>) -> (r: Vec<String>)
    ensures
        r@.map_values(|s: String| s@) == parent_keys(rows@),
{
    let empty = String::new();
    let mut ks: Vec<String> = Vec::new();
    let mut i: usize = 0;
    proof {
        assert(ks@.map_values(|s: String| s@) =~= keys_upto(rows@, 0));
    }
    while i < rows.len()
        invariant
            i <= rows@.len(),
            empty@ == Seq::<char>::empty(),
            ks@.map_values(|s: String| s@) == keys_upto(rows@, i as nat),
        decreases rows@.len() - i,
    {
        let k = str_or(&rows[i].parent_pattern_id, empty.as_str());
        let ghost kv = ks@.map_values(|s: String| s@);
        let mut p: usize = 0;
        while p < ks.len() && str_lt(ks[p].as_str(), k)
            invariant
                p <= ks@.len(),
                kv == ks@.map_values(|s: String| s@),
                forall|q: int| 0 <= q < p ==> seq_lt(#[trigger] kv[q], k@),
            decreases ks@.len() - p,
        {
            p += 1;
        }
        proof {
            lemma_key_insert_at(kv, k@, p as int);
        }
        if p < ks.len() && str_eq(ks[p].as_str(), k) {
        } else {
            ks.insert(p, owned(k));
            proof {
                assert(ks@.map_values(|s: String| s@) =~= kv.insert(p as int, k@));
            }
        }
        i += 1;
    }
    ks
}

/// Whether `k` is the non-empty id of some row.
fn known_id(rows: &Vec<PatternRow>, k: &str) -> (r: bool)
    ensures
        r == is_known_id(rows@, k@),
{
    if k.unicode_len() == 0 {
        return false;
    }
    let mut i: usize = 0;
    while i < rows.len()
        invariant
            i <= rows@.len(),
            k@.len() > 0,
            forall|q: int| 0 <= q < i ==> #[trigger] id_view(rows@[q]) != Some(k@),
        decreases rows@.len() - i,
    {
        match &rows[i].id {
            Some(s) => {
                if str_eq(s.as_str(), k) {
                    assert(id_view(rows@[i as int]) == Some(k@));
                    return true;
                }
            },
            None => {},
        }
        i += 1;
    }
    false
}

/// The tree of a plan's patterns: every root (a row without a parent) and,
/// indented below it, its descendants, siblings oldest first; then, under one
/// header, the rows whose parent is not a row of the plan, grouped by parent
/// in sorted order. A plan with nothing to show prints one line saying so.
/// Each level of a walk spends one unit of a budget of as many units as there
/// are rows: `None` where that runs out, which cannot happen while every row
/// has an id of its own.
pub fn render_tree(rows: &Vec<PatternRow>) -> (r: Option<String>)
    ensures
        match r {
            Some(s) => spec_render(rows@, rows@.len()) == Some(s@),
            None => spec_render(rows@, rows@.len()) is None,
        },
{
    let empty = String::new();
    let fuel = rows.len();
    let roots = children_of(rows, empty.as_str());
    let mut out = String::new();
    if !walk_all(rows, &roots, 0, false, fuel, &mut out) {
        return None;
    }
    let ghost a = out@;
    let ks = parent_keys_of(rows);
    let ghost kv = ks@.map_values(|s: String| s@);
    let mut printed = false;
    let mut j: usize = 0;
    proof {
        assert(kv.take(0) =~= Seq::<Seq<char>>::empty());
        assert(out@ =~= a + Seq::<char>::empty() + Seq::<char>::empty());
    }
    while j < ks.len()
        invariant
            j <= ks@.len(),
            fuel == rows@.len(),
            kv == ks@.map_values(|s: String| s@),
            kv == parent_keys(rows@),
            walk_list(rows@, children(rows@, Seq::empty()), 0, false, fuel as nat) == Some(a),
            printed == has_orphan(rows@, kv.take(j as int)),
            orphan_text(rows@, kv.take(j as int), fuel as nat) is Some,
            out@ == a + (if printed {
                orphan_header()
            } else {
                Seq::empty()
            }) + orphan_text(rows@, kv.take(j as int), fuel as nat).unwrap(),
        decreases ks@.len() - j,
    {
        let ghost before = out@;
        let ghost was = printed;
        let k = ks[j].as_str();
        proof {
            assert(kv.take(j + 1).drop_last() =~= kv.take(j as int));
            assert(kv.take(j + 1).last() == k@);
            assert(has_orphan(rows@, kv.take(j + 1)) == (has_orphan(rows@, kv.take(j as int)) || is_orphan_key(
                rows@,
                k@,
            ))) by {
                if has_orphan(rows@, kv.take(j + 1)) {
                    let w = choose|w: int| 0 <= w < j + 1 && #[trigger] is_orphan_key(rows@, kv.take(j + 1)[w]);
                    if w < j {
                        assert(kv.take(j as int)[w] == kv.take(j + 1)[w]);
                    }
                }
                if has_orphan(rows@, kv.take(j as int)) {
                    let w = choose|w: int| 0 <= w < j && #[trigger] is_orphan_key(rows@, kv.take(j as int)[w]);
                    assert(kv.take(j as int)[w] == kv.take(j + 1)[w]);
                }
                if is_orphan_key(rows@, k@) {
                    assert(is_orphan_key(rows@, kv.take(j + 1)[j as int]));
                }
            }
        }
        if k.unicode_len() > 0 && !known_id(rows, k) {
            if !printed {
                proof {
                    lemma_no_orphans(rows@, kv.take(j as int), fuel as nat);
                }
                out.append("(orphans \u{2014} parent not in this plan)\n");
                printed = true;
            }
            let ghost mid = out@;
            let cs = children_of(rows, k);
            let ok = walk_all(rows, &cs, 0, true, fuel, &mut out);
            proof {
                let ghost ks1 = kv.take(j + 1);
                assert(is_orphan_key(rows@, ks1.last()));
                assert(orphan_text(rows@, ks1, fuel as nat) == join(
                    orphan_text(rows@, kv.take(j as int), fuel as nat),
                    walk_list(rows@, children(rows@, k@), 0, true, fuel as nat),
                ));
            }
            if !ok {
                proof {
                    lemma_orphans_fail_on(rows@, kv, j + 1, fuel as nat);
                    assert(kv == parent_keys(rows@));
                    assert(orphan_text(rows@, parent_keys(rows@), rows@.len()) is None);
                }
                return None;
            }
            proof {
                assert(mid == a + orphan_header() + orphan_text(rows@, kv.take(j as int), fuel as nat).unwrap());
                assert(out@ =~= a + orphan_header() + orphan_text(rows@, kv.take(j + 1), fuel as nat).unwrap());
            }
        }
        j += 1;
    }
    proof {
        assert(kv.take(ks@.len() as int) =~= kv);
    }
    if out.as_str().unicode_len() == 0 {
        Some(owned("(no patterns in this plan)\n"))
    } else {
        Some(out)
    }
}

/// The rows among the first `n` whose kind is `kind`, in order.
pub open spec fn rows_of_kind(rows: Seq<PatternRow>, kind: Seq<char>, n: nat) -> Seq<int>
    decreases n,
{
    if n == 0 {
        Seq::empty()
    } else {
        let p = rows_of_kind(rows, kind, (n - 1) as nat);
        if rows[n - 1].kind matches Some(k) && k@ == kind {
            p.push(n - 1)
        } else {
            p
        }
    }
}

/// The positions of the rows whose kind is `kind`, in order (`pattern list
/// --kind`).
pub fn filter_by_kind(rows: &Vec<PatternRow>, kind: &str) -> (r: Vec<usize>)
    ensures
        r@.map_values(|x: usize| x as int) == rows_of_kind(rows@, kind@, rows@.len()),
{
    let mut out: Vec<usize> = Vec::new();
    let mut i: usize = 0;
    while i < rows.len()
        invariant
            i <= rows@.len(),
            out@.map_values(|x: usize| x as int) == rows_of_kind(rows@, kind@, i as nat),
        decreases rows@.len() - i,
    {
        let keep = match &rows[i].kind {
            Some(k) => str_eq(k.as_str(), kind),
            None => false,
        };
        if keep {
            out.push(i);
            proof {
                assert(out@.map_values(|x: usize| x as int) =~= rows_of_kind(rows@, kind@, (i + 1) as nat));
            }
        }
        i += 1;
    }
    out
}


/// Row `x` comes before row `y` among siblings: it was created earlier, or
/// at the same time and stands earlier in the input.
pub open spec fn sibling_before(rows: Seq<PatternRow>, x: int, y: int) -> bool {
    seq_lt(created_key(rows[x]), created_key(rows[y])) || (created_key(rows[x]) == created_key(rows[y]) && x < y)
}

/// Every row of `s` comes before the rows after it.
pub open spec fn siblings_ordered(rows: Seq<PatternRow>, s: Seq<int>) -> bool {
    forall|a: int, b: int| 0 <= a < b < s.len() ==> sibling_before(rows, #[trigger] s[a], #[trigger] s[b])
}

proof fn lemma_sorted_insert_keeps_order(rows: Seq<PatternRow>, s: Seq<int>, i: int)
    requires
        siblings_ordered(rows, s),
        forall|q: int| 0 <= q < s.len() ==> #[trigger] s[q] < i,
    ensures
        siblings_ordered(rows, sorted_insert(rows, s, i)),
        forall|x: int| #[trigger] sorted_insert(rows, s, i).contains(x) <==> (s.contains(x) || x == i),
    decreases s.len(),
{
    let ci = created_key(rows[i]);
    let r = sorted_insert(rows, s, i);
    if s.len() == 0 {
        assert forall|x: int| #[trigger] r.contains(x) <==> (s.contains(x) || x == i) by {
            if r.contains(x) {
                assert(r[0] == i);
            }
            if x == i {
                assert(r[0] == x);
            }
        }
    } else if seq_lt(ci, created_key(rows[s[0]])) {
        assert(r =~= seq![i] + s);
        assert forall|a: int, b: int| 0 <= a < b < r.len() implies sibling_before(rows, #[trigger] r[a], #[trigger] r[b]) by {
            if a == 0 {
                assert(r[b] == s[b - 1]);
                if b - 1 > 0 {
                    assert(sibling_before(rows, s[0], s[b - 1]));
                    if seq_lt(created_key(rows[s[0]]), created_key(rows[s[b - 1]])) {
                        lemma_lt_transitive(ci, created_key(rows[s[0]]), created_key(rows[s[b - 1]]));
                    }
                }
            } else {
                assert(r[a] == s[a - 1] && r[b] == s[b - 1]);
            }
        }
        assert forall|x: int| #[trigger] r.contains(x) <==> (s.contains(x) || x == i) by {
            if r.contains(x) {
                let j = choose|j: int| 0 <= j < r.len() && r[j] == x;
                if j > 0 {
                    assert(s[j - 1] == x);
                }
            }
            if s.contains(x) {
                let j = choose|j: int| 0 <= j < s.len() && s[j] == x;
                assert(r[j + 1] == x);
            }
            if x == i {
                assert(r[0] == x);
            }
        }
    } else {
        let d = s.drop_first();
        assert forall|a: int, b: int| 0 <= a < b < d.len() implies sibling_before(rows, #[trigger] d[a], #[trigger] d[b]) by {
            assert(d[a] == s[a + 1] && d[b] == s[b + 1]);
        }
        assert forall|q: int| 0 <= q < d.len() implies #[trigger] d[q] < i by {
            assert(d[q] == s[q + 1]);
        }
        lemma_sorted_insert_keeps_order(rows, d, i);
        let t = sorted_insert(rows, d, i);
        assert(r =~= seq![s[0]] + t);
        lemma_lt_total(ci, created_key(rows[s[0]]));
        assert forall|x: int| t.contains(x) implies sibling_before(rows, s[0], x) by {
            if d.contains(x) {
                let j = choose|j: int| 0 <= j < d.len() && d[j] == x;
                assert(s[j + 1] == x);
            } else {
                assert(x == i);
                assert(s[0] < i);
            }
        }
        assert forall|a: int, b: int| 0 <= a < b < r.len() implies sibling_before(rows, #[trigger] r[a], #[trigger] r[b]) by {
            assert(r[b] == t[b - 1]);
            if a == 0 {
                assert(t.contains(t[b - 1]));
            } else {
                assert(r[a] == t[a - 1]);
            }
        }
        assert forall|x: int| #[trigger] r.contains(x) <==> (s.contains(x) || x == i) by {
            if r.contains(x) {
                let j = choose|j: int| 0 <= j < r.len() && r[j] == x;
                if j > 0 {
                    assert(t[j - 1] == x);
                    assert(t.contains(x));
                    if d.contains(x) {
                        let k = choose|k: int| 0 <= k < d.len() && d[k] == x;
                        assert(s[k + 1] == x);
                    }
                } else {
                    assert(s[0] == x);
                }
            }
            if s.contains(x) {
                let j = choose|j: int| 0 <= j < s.len() && s[j] == x;
                if j == 0 {
                    assert(r[0] == x);
                } else {
                    assert(d[j - 1] == x);
                    assert(d.contains(x));
                    assert(t.contains(x));
                    let k = choose|k: int| 0 <= k < t.len() && t[k] == x;
                    assert(r[k + 1] == x);
                }
            }
            if x == i {
                assert(t.contains(x));
                let k = choose|k: int| 0 <= k < t.len() && t[k] == x;
                assert(r[k + 1] == x);
            }
        }
    }
}

proof fn lemma_children_upto(rows: Seq<PatternRow>, key: Seq<char>, n: nat)
    requires
        n <= rows.len(),
    ensures
        siblings_ordered(rows, children_upto(rows, key, n)),
        forall|x: int| #[trigger] children_upto(rows, key, n).contains(x) <==> (0 <= x < n && parent_key(rows[x]) == key),
    decreases n,
{
    if n > 0 {
        let m = (n - 1) as nat;
        lemma_children_upto(rows, key, m);
        let c = children_upto(rows, key, m);
        if parent_key(rows[m as int]) == key {
            assert forall|q: int| 0 <= q < c.len() implies #[trigger] c[q] < m by {
                assert(c.contains(c[q]));
            }
            lemma_sorted_insert_keeps_order(rows, c, m as int);
        }
    }
}

/// Siblings come oldest first, those created at the same time in input
/// order; the children of `key` are exactly the rows whose parent is `key`.
pub proof fn law_children_oldest_first(rows: Seq<PatternRow>, key: Seq<char>)
    ensures
        siblings_ordered(rows, children(rows, key)),
        forall|x: int| #[trigger] children(rows, key).contains(x) <==> (0 <= x < rows.len() && parent_key(rows[x]) == key),
{
    lemma_children_upto(rows, key, rows.len());
}


/// Every row has a non-empty id, and no two rows share one.
pub open spec fn ids_unique(rows: Seq<PatternRow>) -> bool {
    &&& forall|i: int| 0 <= i < rows.len() ==> ((#[trigger] rows[i]).id matches Some(s) && s@.len() > 0)
    &&& forall|i: int, j: int|
        0 <= i < rows.len() && 0 <= j < rows.len() && i != j ==> id_view(#[trigger] rows[i]) != id_view(
            #[trigger] rows[j],
        )
}

/// A row a walk starts from: a root, or a row whose parent is not in the plan.
pub open spec fn is_start(rows: Seq<PatternRow>, x: int) -> bool {
    parent_key(rows[x]).len() == 0 || !is_known_id(rows, parent_key(rows[x]))
}

/// `path` runs from a start down parent-to-child links.
pub open spec fn is_descent(rows: Seq<PatternRow>, path: Seq<int>) -> bool {
    &&& path.len() > 0
    &&& forall|j: int| 0 <= j < path.len() ==> 0 <= #[trigger] path[j] < rows.len()
    &&& is_start(rows, path[0])
    &&& forall|j: int| 0 < j < path.len() ==> parent_key(rows[#[trigger] path[j]]) == child_key(rows[path[j - 1]])
}

proof fn lemma_descent_distinct(rows: Seq<PatternRow>, path: Seq<int>, a: int, b: int)
    requires
        ids_unique(rows),
        is_descent(rows, path),
        0 <= a < b < path.len(),
    ensures
        path[a] != path[b],
    decreases a,
{
    if path[a] == path[b] {
        let pb = path[b - 1];
        assert(0 <= path[b] < rows.len());
        assert(0 <= pb < rows.len());
        assert(parent_key(rows[path[b]]) == child_key(rows[pb]));
        assert(rows[pb].id matches Some(s) && s@.len() > 0);
        if a == 0 {
            assert(id_view(rows[pb]) == Some(parent_key(rows[path[0]])));
            assert(is_known_id(rows, parent_key(rows[path[0]])));
        } else {
            let pa = path[a - 1];
            assert(0 <= pa < rows.len());
            assert(parent_key(rows[path[a]]) == child_key(rows[pa]));
            assert(rows[pa].id matches Some(s) && s@.len() > 0);
            assert(id_view(rows[pa]) == id_view(rows[pb]));
            lemma_descent_distinct(rows, path, a - 1, b - 1);
        }
    }
}

/// A descent never visits a row twice, so it is no longer than the rows.
proof fn lemma_descent_short(rows: Seq<PatternRow>, path: Seq<int>)
    requires
        ids_unique(rows),
        is_descent(rows, path),
    ensures
        path.len() <= rows.len(),
{
    assert forall|a: int, b: int| 0 <= a < path.len() && 0 <= b < path.len() && a != b implies path[a] != path[b] by {
        if a < b {
            lemma_descent_distinct(rows, path, a, b);
        } else {
            lemma_descent_distinct(rows, path, b, a);
        }
    }
    path.unique_seq_to_set();
    lemma_int_range(0, rows.len() as int);
    assert forall|x: int| path.to_set().contains(x) implies set_int_range(0, rows.len() as int).contains(x) by {
        let j = choose|j: int| 0 <= j < path.len() && path[j] == x;
        assert(0 <= path[j] < rows.len());
    }
    lemma_len_subset(path.to_set(), set_int_range(0, rows.len() as int));
}

proof fn lemma_walk_completes(rows: Seq<PatternRow>, path: Seq<int>, depth: nat, orphan: bool, fuel: nat)
    requires
        ids_unique(rows),
        is_descent(rows, path),
        path.len() + fuel == rows.len() + 1,
    ensures
        walk_text(rows, path.last(), depth, orphan, fuel) is Some,
    decreases fuel, 0nat,
{
    lemma_descent_short(rows, path);
    let x = path.last();
    let key = child_key(rows[x]);
    law_children_oldest_first(rows, key);
    let cs = children(rows, key);
    assert forall|q: int| 0 <= q < cs.len() implies 0 <= #[trigger] cs[q] < rows.len() && parent_key(rows[cs[q]])
        == key by {
        assert(cs.contains(cs[q]));
    }
    lemma_walks_complete(rows, path, cs, depth + 1, (fuel - 1) as nat);
}

proof fn lemma_walks_complete(rows: Seq<PatternRow>, path: Seq<int>, cs: Seq<int>, depth: nat, fuel: nat)
    requires
        ids_unique(rows),
        is_descent(rows, path),
        path.len() + fuel == rows.len(),
        forall|q: int| 0 <= q < cs.len() ==> 0 <= #[trigger] cs[q] < rows.len() && parent_key(rows[cs[q]]) == child_key(
            rows[path.last()],
        ),
    ensures
        walk_list(rows, cs, depth, false, fuel) is Some,
    decreases fuel, cs.len() + 1,
{
    if cs.len() > 0 {
        let d = cs.drop_last();
        assert forall|q: int| 0 <= q < d.len() implies 0 <= #[trigger] d[q] < rows.len() && parent_key(rows[d[q]])
            == child_key(rows[path.last()]) by {
            assert(d[q] == cs[q]);
        }
        lemma_walks_complete(rows, path, d, depth, fuel);
        let c = cs.last();
        let p2 = path.push(c);
        assert(cs[cs.len() - 1] == c);
        assert forall|j: int| 0 < j < p2.len() implies parent_key(rows[#[trigger] p2[j]]) == child_key(
            rows[p2[j - 1]],
        ) by {
            if j < path.len() {
                assert(p2[j] == path[j] && p2[j - 1] == path[j - 1]);
            }
        }
        assert forall|j: int| 0 <= j < p2.len() implies 0 <= #[trigger] p2[j] < rows.len() by {
            if j < path.len() {
                assert(p2[j] == path[j]);
            }
        }
        lemma_walk_completes(rows, p2, depth, false, fuel);
    }
}

proof fn lemma_start_walks_complete(rows: Seq<PatternRow>, cs: Seq<int>, depth: nat, orphan: bool)
    requires
        ids_unique(rows),
        forall|q: int| 0 <= q < cs.len() ==> 0 <= #[trigger] cs[q] < rows.len() && is_start(rows, cs[q]),
    ensures
        walk_list(rows, cs, depth, orphan, rows.len()) is Some,
    decreases cs.len(),
{
    if cs.len() > 0 {
        let d = cs.drop_last();
        assert forall|q: int| 0 <= q < d.len() implies 0 <= #[trigger] d[q] < rows.len() && is_start(rows, d[q]) by {
            assert(d[q] == cs[q]);
        }
        lemma_start_walks_complete(rows, d, depth, orphan);
        assert(cs[cs.len() - 1] == cs.last());
        lemma_walk_completes(rows, seq![cs.last()], depth, orphan, rows.len());
    }
}

proof fn lemma_orphans_complete(rows: Seq<PatternRow>, ks: Seq<Seq<char>>)
    requires
        ids_unique(rows),
    ensures
        orphan_text(rows, ks, rows.len()) is Some,
    decreases ks.len(),
{
    if ks.len() > 0 {
        lemma_orphans_complete(rows, ks.drop_last());
        let k = ks.last();
        if is_orphan_key(rows, k) {
            law_children_oldest_first(rows, k);
            let cs = children(rows, k);
            assert forall|q: int| 0 <= q < cs.len() implies 0 <= #[trigger] cs[q] < rows.len() && is_start(rows, cs[q]) by {
                assert(cs.contains(cs[q]));
            }
            lemma_start_walks_complete(rows, cs, 0, true);
        }
    }
}

/// Where every row has an id of its own, the whole tree is printed: no walk
/// runs out of its budget.
pub proof fn law_tree_complete_for_unique_ids(rows: Seq<PatternRow>)
    requires
        ids_unique(rows),
    ensures
        spec_render(rows, rows.len()) is Some,
{
    let roots = children(rows, Seq::empty());
    law_children_oldest_first(rows, Seq::empty());
    assert forall|q: int| 0 <= q < roots.len() implies 0 <= #[trigger] roots[q] < rows.len() && is_start(rows, roots[q]) by {
        assert(roots.contains(roots[q]));
    }
    lemma_start_walks_complete(rows, roots, 0, false);
    lemma_orphans_complete(rows, parent_keys(rows));
}

/// Rows that share a parent never share a creation time.
pub open spec fn sibling_times_distinct(rows: Seq<PatternRow>) -> bool {
    forall|i: int, j: int|
        0 <= i < rows.len() && 0 <= j < rows.len() && i != j && parent_key(rows[i]) == parent_key(rows[j])
            ==> #[trigger] created_key(rows[i]) != #[trigger] created_key(rows[j])
}

/// Every key sorts strictly before the keys after it.
pub open spec fn strictly_sorted(s: Seq<Seq<char>>) -> bool {
    forall|a: int, b: int| 0 <= a < b < s.len() ==> seq_lt(#[trigger] s[a], #[trigger] s[b])
}

/// The children of `key`, as rows.
pub open spec fn child_rows(rows: Seq<PatternRow>, key: Seq<char>) -> Seq<PatternRow> {
    children(rows, key).map_values(|x: int| rows[x])
}

/// The creation times of the children of `key`, in order.
pub open spec fn child_times(rows: Seq<PatternRow>, key: Seq<char>) -> Seq<Seq<char>> {
    children(rows, key).map_values(|x: int| created_key(rows[x]))
}

/// Two strictly sorted sequences of keys that hold the same keys are equal.
proof fn lemma_sorted_keys_unique(a: Seq<Seq<char>>, b: Seq<Seq<char>>)
    requires
        strictly_sorted(a),
        strictly_sorted(b),
        forall|k: Seq<char>| a.contains(k) <==> b.contains(k),
    ensures
        a == b,
    decreases a.len(),
{
    if a.len() == 0 {
        if b.len() > 0 {
            assert(b.contains(b[0]));
        }
        assert(a =~= b);
    } else {
        assert(a.contains(a[0]));
        if b.len() == 0 {
            assert(false);
        }
        assert(b.contains(b[0]));
        let j = choose|j: int| 0 <= j < b.len() && b[j] == a[0];
        let i = choose|i: int| 0 <= i < a.len() && a[i] == b[0];
        if i > 0 && j > 0 {
            assert(seq_lt(a[0], a[i]));
            assert(seq_lt(b[0], b[j]));
            lemma_lt_total(a[0], b[0]);
        } else if i > 0 {
            assert(a[0] == b[0]);
        }
        assert(a[0] == b[0]);
        let ta = a.drop_first();
        let tb = b.drop_first();
        assert forall|k: Seq<char>| ta.contains(k) <==> tb.contains(k) by {
            if ta.contains(k) {
                let t = choose|t: int| 0 <= t < ta.len() && ta[t] == k;
                assert(a[t + 1] == k);
                assert(seq_lt(a[0], a[t + 1]));
                lemma_lt_irreflexive(k);
                assert(a.contains(k));
                assert(b.contains(k));
                let u = choose|u: int| 0 <= u < b.len() && b[u] == k;
                assert(u != 0);
                assert(tb[u - 1] == k);
            }
            if tb.contains(k) {
                let t = choose|t: int| 0 <= t < tb.len() && tb[t] == k;
                assert(b[t + 1] == k);
                assert(seq_lt(b[0], b[t + 1]));
                lemma_lt_irreflexive(k);
                assert(b.contains(k));
                assert(a.contains(k));
                let u = choose|u: int| 0 <= u < a.len() && a[u] == k;
                assert(u != 0);
                assert(ta[u - 1] == k);
            }
        }
        assert forall|x: int, y: int| 0 <= x < y < ta.len() implies seq_lt(#[trigger] ta[x], #[trigger] ta[y]) by {
            assert(ta[x] == a[x + 1] && ta[y] == a[y + 1]);
        }
        assert forall|x: int, y: int| 0 <= x < y < tb.len() implies seq_lt(#[trigger] tb[x], #[trigger] tb[y]) by {
            assert(tb[x] == b[x + 1] && tb[y] == b[y + 1]);
        }
        lemma_sorted_keys_unique(ta, tb);
        assert(a =~= seq![a[0]] + ta);
        assert(b =~= seq![b[0]] + tb);
    }
}

/// With distinct sibling times, the children's times rise strictly, and
/// they are the times of exactly the rows under `key`.
proof fn lemma_child_times(rows: Seq<PatternRow>, key: Seq<char>)
    requires
        sibling_times_distinct(rows),
    ensures
        strictly_sorted(child_times(rows, key)),
        forall|k: Seq<char>| #[trigger] child_times(rows, key).contains(k) <==> exists|x: int|
            0 <= x < rows.len() && parent_key(rows[x]) == key && #[trigger] created_key(rows[x]) == k,
{
    law_children_oldest_first(rows, key);
    let cs = children(rows, key);
    let ct = child_times(rows, key);
    assert forall|a: int, b: int| 0 <= a < b < ct.len() implies seq_lt(#[trigger] ct[a], #[trigger] ct[b]) by {
        assert(sibling_before(rows, cs[a], cs[b]));
        assert(cs.contains(cs[a]) && cs.contains(cs[b]));
        if created_key(rows[cs[a]]) == created_key(rows[cs[b]]) {
            lemma_lt_irreflexive(created_key(rows[cs[a]]));
            assert(cs[a] < cs[b]);
            assert(created_key(rows[cs[a]]) != created_key(rows[cs[b]]));
        }
    }
    assert forall|k: Seq<char>| #[trigger] ct.contains(k) <==> exists|x: int|
        0 <= x < rows.len() && parent_key(rows[x]) == key && #[trigger] created_key(rows[x]) == k by {
        if ct.contains(k) {
            let a = choose|a: int| 0 <= a < ct.len() && ct[a] == k;
            assert(cs.contains(cs[a]));
            assert(created_key(rows[cs[a]]) == k);
        }
        if exists|x: int| 0 <= x < rows.len() && parent_key(rows[x]) == key && #[trigger] created_key(rows[x]) == k {
            let x = choose|x: int| 0 <= x < rows.len() && parent_key(rows[x]) == key && #[trigger] created_key(rows[x]) == k;
            assert(cs.contains(x));
            let a = choose|a: int| 0 <= a < cs.len() && cs[a] == x;
            assert(ct[a] == k);
        }
    }
}

proof fn lemma_perm_contains(rows: Seq<PatternRow>, rows2: Seq<PatternRow>, r: PatternRow)
    requires
        rows.to_multiset() == rows2.to_multiset(),
    ensures
        rows.contains(r) == rows2.contains(r),
{
    broadcast use vstd::seq_lib::group_to_multiset_ensures;

    assert(rows.to_multiset().count(r) == rows2.to_multiset().count(r));
    assert(rows.contains(r) <==> rows.to_multiset().count(r) > 0);
    assert(rows2.contains(r) <==> rows2.to_multiset().count(r) > 0);
}

/// Rows that hold the same rows (as multisets) have the same children, row
/// for row, where sibling times are distinct.
proof fn lemma_same_child_rows(rows: Seq<PatternRow>, rows2: Seq<PatternRow>, key: Seq<char>)
    requires
        rows.to_multiset() == rows2.to_multiset(),
        sibling_times_distinct(rows),
        sibling_times_distinct(rows2),
    ensures
        child_rows(rows, key) == child_rows(rows2, key),
{
    rows.to_multiset_ensures();
    rows2.to_multiset_ensures();
    lemma_child_times(rows, key);
    lemma_child_times(rows2, key);
    law_children_oldest_first(rows, key);
    law_children_oldest_first(rows2, key);
    let t1 = child_times(rows, key);
    let t2 = child_times(rows2, key);
    assert forall|k: Seq<char>| t1.contains(k) <==> t2.contains(k) by {
        if t1.contains(k) {
            let x = choose|x: int| 0 <= x < rows.len() && parent_key(rows[x]) == key && #[trigger] created_key(rows[x]) == k;
            assert(rows.contains(rows[x]));
            lemma_perm_contains(rows, rows2, rows[x]);
            let y = choose|y: int| 0 <= y < rows2.len() && rows2[y] == rows[x];
            assert(created_key(rows2[y]) == k);
            assert(t2.contains(k));
        }
        if t2.contains(k) {
            let x = choose|x: int| 0 <= x < rows2.len() && parent_key(rows2[x]) == key && #[trigger] created_key(rows2[x]) == k;
            assert(rows2.contains(rows2[x]));
            lemma_perm_contains(rows, rows2, rows2[x]);
            let y = choose|y: int| 0 <= y < rows.len() && rows[y] == rows2[x];
            assert(created_key(rows[y]) == k);
            assert(t1.contains(k));
        }
    }
    lemma_sorted_keys_unique(t1, t2);
    let c1 = children(rows, key);
    let c2 = children(rows2, key);
    assert(c1.len() == t1.len() && c2.len() == t2.len());
    assert forall|a: int| 0 <= a < c1.len() implies child_rows(rows, key)[a] == child_rows(rows2, key)[a] by {
        assert(c1.contains(c1[a]) && c2.contains(c2[a]));
        let r2 = rows2[c2[a]];
        assert(rows2.contains(r2));
        lemma_perm_contains(rows, rows2, r2);
        let x = choose|x: int| 0 <= x < rows.len() && rows[x] == r2;
        assert(t1[a] == t2[a]);
        assert(created_key(rows[x]) == created_key(rows[c1[a]]));
        if x != c1[a] {
            assert(created_key(rows[x]) != created_key(rows[c1[a]]));
        }
    }
    assert(child_rows(rows, key) =~= child_rows(rows2, key));
}

/// The children of every parent agree, row for row.
pub open spec fn same_children(rows: Seq<PatternRow>, rows2: Seq<PatternRow>) -> bool {
    forall|key: Seq<char>| #[trigger] child_rows(rows, key) == child_rows(rows2, key)
}

proof fn lemma_children_in_range(rows: Seq<PatternRow>, key: Seq<char>)
    ensures
        forall|q: int| 0 <= q < children(rows, key).len() ==> 0 <= #[trigger] children(rows, key)[q] < rows.len(),
{
    law_children_oldest_first(rows, key);
    assert forall|q: int| 0 <= q < children(rows, key).len() implies 0 <= #[trigger] children(rows, key)[q] < rows.len() by {
        assert(children(rows, key).contains(children(rows, key)[q]));
    }
}

proof fn lemma_walk_text_same(
    rows: Seq<PatternRow>,
    rows2: Seq<PatternRow>,
    i: int,
    j: int,
    depth: nat,
    orphan: bool,
    fuel: nat,
)
    requires
        same_children(rows, rows2),
        0 <= i < rows.len(),
        0 <= j < rows2.len(),
        rows[i] == rows2[j],
    ensures
        walk_text(rows, i, depth, orphan, fuel) == walk_text(rows2, j, depth, orphan, fuel),
    decreases fuel, 0nat,
{
    if fuel > 0 {
        let k = child_key(rows[i]);
        assert(child_rows(rows, k) == child_rows(rows2, k));
        lemma_children_in_range(rows, k);
        lemma_children_in_range(rows2, k);
        let c1 = children(rows, k);
        let c2 = children(rows2, k);
        assert(c1.len() == child_rows(rows, k).len());
        assert forall|a: int| 0 <= a < c1.len() implies rows[#[trigger] c1[a]] == rows2[c2[a]] by {
            assert(child_rows(rows, k)[a] == rows[c1[a]]);
            assert(child_rows(rows2, k)[a] == rows2[c2[a]]);
        }
        lemma_walk_list_same(rows, rows2, c1, c2, depth + 1, false, (fuel - 1) as nat);
    }
}

proof fn lemma_walk_list_same(
    rows: Seq<PatternRow>,
    rows2: Seq<PatternRow>,
    c1: Seq<int>,
    c2: Seq<int>,
    depth: nat,
    orphan: bool,
    fuel: nat,
)
    requires
        same_children(rows, rows2),
        c1.len() == c2.len(),
        forall|a: int| 0 <= a < c1.len() ==> 0 <= #[trigger] c1[a] < rows.len(),
        forall|a: int| 0 <= a < c2.len() ==> 0 <= #[trigger] c2[a] < rows2.len(),
        forall|a: int| 0 <= a < c1.len() ==> rows[#[trigger] c1[a]] == rows2[c2[a]],
    ensures
        walk_list(rows, c1, depth, orphan, fuel) == walk_list(rows2, c2, depth, orphan, fuel),
    decreases fuel, c1.len() + 1,
{
    if c1.len() > 0 {
        let d1 = c1.drop_last();
        let d2 = c2.drop_last();
        assert forall|a: int| 0 <= a < d1.len() implies rows[#[trigger] d1[a]] == rows2[d2[a]] by {
            assert(d1[a] == c1[a] && d2[a] == c2[a]);
        }
        assert forall|a: int| 0 <= a < d1.len() implies 0 <= #[trigger] d1[a] < rows.len() by {
            assert(d1[a] == c1[a]);
        }
        assert forall|a: int| 0 <= a < d2.len() implies 0 <= #[trigger] d2[a] < rows2.len() by {
            assert(d2[a] == c2[a]);
        }
        lemma_walk_list_same(rows, rows2, d1, d2, depth, orphan, fuel);
        assert(rows[c1[c1.len() - 1]] == rows2[c2[c1.len() - 1]]);
        lemma_walk_text_same(rows, rows2, c1.last(), c2.last(), depth, orphan, fuel);
    }
}

proof fn lemma_key_insert(ks: Seq<Seq<char>>, k: Seq<char>)
    requires
        strictly_sorted(ks),
    ensures
        strictly_sorted(key_insert(ks, k)),
        forall|x: Seq<char>| #[trigger] key_insert(ks, k).contains(x) <==> (ks.contains(x) || x == k),
    decreases ks.len(),
{
    let r = key_insert(ks, k);
    if ks.len() == 0 {
        assert forall|x: Seq<char>| #[trigger] r.contains(x) <==> (ks.contains(x) || x == k) by {
            if r.contains(x) {
                assert(r[0] == x);
            }
            if x == k {
                assert(r[0] == k);
            }
        }
    } else if ks[0] == k {
        assert(ks.contains(ks[0]));
    } else if seq_lt(k, ks[0]) {
        assert(r =~= seq![k] + ks);
        assert forall|a: int, b: int| 0 <= a < b < r.len() implies seq_lt(#[trigger] r[a], #[trigger] r[b]) by {
            if a == 0 {
                assert(r[b] == ks[b - 1]);
                if b - 1 > 0 {
                    lemma_lt_transitive(k, ks[0], ks[b - 1]);
                }
            } else {
                assert(r[a] == ks[a - 1] && r[b] == ks[b - 1]);
            }
        }
        assert forall|x: Seq<char>| #[trigger] r.contains(x) <==> (ks.contains(x) || x == k) by {
            if r.contains(x) {
                let j = choose|j: int| 0 <= j < r.len() && r[j] == x;
                if j > 0 {
                    assert(ks[j - 1] == x);
                }
            }
            if ks.contains(x) {
                let j = choose|j: int| 0 <= j < ks.len() && ks[j] == x;
                assert(r[j + 1] == x);
            }
            if x == k {
                assert(r[0] == x);
            }
        }
    } else {
        let d = ks.drop_first();
        assert forall|a: int, b: int| 0 <= a < b < d.len() implies seq_lt(#[trigger] d[a], #[trigger] d[b]) by {
            assert(d[a] == ks[a + 1] && d[b] == ks[b + 1]);
        }
        lemma_key_insert(d, k);
        let t = key_insert(d, k);
        assert(r =~= seq![ks[0]] + t);
        lemma_lt_total(k, ks[0]);
        assert forall|x: Seq<char>| t.contains(x) implies seq_lt(ks[0], x) by {
            if d.contains(x) {
                let j = choose|j: int| 0 <= j < d.len() && d[j] == x;
                assert(ks[j + 1] == x);
            }
        }
        assert forall|a: int, b: int| 0 <= a < b < r.len() implies seq_lt(#[trigger] r[a], #[trigger] r[b]) by {
            assert(r[b] == t[b - 1]);
            if a == 0 {
                assert(t.contains(t[b - 1]));
            } else {
                assert(r[a] == t[a - 1]);
            }
        }
        assert forall|x: Seq<char>| #[trigger] r.contains(x) <==> (ks.contains(x) || x == k) by {
            if r.contains(x) {
                let j = choose|j: int| 0 <= j < r.len() && r[j] == x;
                if j > 0 {
                    assert(t[j - 1] == x);
                    assert(t.contains(x));
                    if d.contains(x) {
                        let m = choose|m: int| 0 <= m < d.len() && d[m] == x;
                        assert(ks[m + 1] == x);
                    }
                } else {
                    assert(ks[0] == x);
                }
            }
            if ks.contains(x) {
                let j = choose|j: int| 0 <= j < ks.len() && ks[j] == x;
                if j == 0 {
                    assert(r[0] == x);
                } else {
                    assert(d[j - 1] == x);
                    assert(d.contains(x));
                    assert(t.contains(x));
                    let m = choose|m: int| 0 <= m < t.len() && t[m] == x;
                    assert(r[m + 1] == x);
                }
            }
            if x == k {
                assert(t.contains(x));
                let m = choose|m: int| 0 <= m < t.len() && t[m] == x;
                assert(r[m + 1] == x);
            }
        }
    }
}

proof fn lemma_keys_upto(rows: Seq<PatternRow>, n: nat)
    requires
        n <= rows.len(),
    ensures
        strictly_sorted(keys_upto(rows, n)),
        forall|k: Seq<char>| #[trigger] keys_upto(rows, n).contains(k) <==> exists|x: int|
            0 <= x < n && #[trigger] parent_key(rows[x]) == k,
    decreases n,
{
    if n > 0 {
        let m = (n - 1) as nat;
        lemma_keys_upto(rows, m);
        lemma_key_insert(keys_upto(rows, m), parent_key(rows[m as int]));
        assert forall|k: Seq<char>| #[trigger] keys_upto(rows, n).contains(k) <==> exists|x: int|
            0 <= x < n && #[trigger] parent_key(rows[x]) == k by {
            if keys_upto(rows, n).contains(k) && k != parent_key(rows[m as int]) {
                let x = choose|x: int| 0 <= x < m && #[trigger] parent_key(rows[x]) == k;
            }
            if exists|x: int| 0 <= x < n && #[trigger] parent_key(rows[x]) == k {
                let x = choose|x: int| 0 <= x < n && #[trigger] parent_key(rows[x]) == k;
                if x < m {
                    assert(keys_upto(rows, m).contains(k));
                }
            }
        }
    } else {
        assert(keys_upto(rows, 0) =~= Seq::<Seq<char>>::empty());
    }
}

/// Reordering the rows renders the same tree, where rows that share a
/// parent never share a creation time: siblings are then ordered by time
/// alone, and the parents of the orphan section by their text.
pub proof fn law_tree_ignores_row_order(rows: Seq<PatternRow>, rows2: Seq<PatternRow>)
    requires
        rows.to_multiset() == rows2.to_multiset(),
        sibling_times_distinct(rows),
        sibling_times_distinct(rows2),
    ensures
        spec_render(rows, rows.len()) == spec_render(rows2, rows2.len()),
{
    rows.to_multiset_ensures();
    rows2.to_multiset_ensures();
    assert(rows.len() == rows2.len());
    assert forall|key: Seq<char>| #[trigger] child_rows(rows, key) == child_rows(rows2, key) by {
        lemma_same_child_rows(rows, rows2, key);
    }
    // The parents named, in sorted order.
    lemma_keys_upto(rows, rows.len());
    lemma_keys_upto(rows2, rows2.len());
    let ks = parent_keys(rows);
    assert forall|k: Seq<char>| ks.contains(k) <==> parent_keys(rows2).contains(k) by {
        if ks.contains(k) {
            let x = choose|x: int| 0 <= x < rows.len() && #[trigger] parent_key(rows[x]) == k;
            assert(rows.contains(rows[x]));
            lemma_perm_contains(rows, rows2, rows[x]);
            let y = choose|y: int| 0 <= y < rows2.len() && rows2[y] == rows[x];
            assert(parent_key(rows2[y]) == k);
        }
        if parent_keys(rows2).contains(k) {
            let x = choose|x: int| 0 <= x < rows2.len() && #[trigger] parent_key(rows2[x]) == k;
            assert(rows2.contains(rows2[x]));
            lemma_perm_contains(rows, rows2, rows2[x]);
            let y = choose|y: int| 0 <= y < rows.len() && rows[y] == rows2[x];
            assert(parent_key(rows[y]) == k);
        }
    }
    lemma_sorted_keys_unique(ks, parent_keys(rows2));
    // Which ids are known.
    assert forall|k: Seq<char>| #[trigger] is_orphan_key(rows, k) == is_orphan_key(rows2, k) by {
        if is_known_id(rows, k) {
            let x = choose|x: int| 0 <= x < rows.len() && #[trigger] id_view(rows[x]) == Some(k);
            assert(rows.contains(rows[x]));
            lemma_perm_contains(rows, rows2, rows[x]);
            let y = choose|y: int| 0 <= y < rows2.len() && rows2[y] == rows[x];
            assert(id_view(rows2[y]) == Some(k));
        }
        if is_known_id(rows2, k) {
            let x = choose|x: int| 0 <= x < rows2.len() && #[trigger] id_view(rows2[x]) == Some(k);
            assert(rows2.contains(rows2[x]));
            lemma_perm_contains(rows, rows2, rows2[x]);
            let y = choose|y: int| 0 <= y < rows.len() && rows[y] == rows2[x];
            assert(id_view(rows[y]) == Some(k));
        }
    }
    let fuel = rows.len();
    lemma_orphan_text_same(rows, rows2, ks, fuel);
    // The roots.
    let e = Seq::<char>::empty();
    lemma_children_in_range(rows, e);
    lemma_children_in_range(rows2, e);
    let c1 = children(rows, e);
    let c2 = children(rows2, e);
    assert(child_rows(rows, e) == child_rows(rows2, e));
    assert(c1.len() == child_rows(rows, e).len());
    assert forall|a: int| 0 <= a < c1.len() implies rows[#[trigger] c1[a]] == rows2[c2[a]] by {
        assert(child_rows(rows, e)[a] == rows[c1[a]]);
        assert(child_rows(rows2, e)[a] == rows2[c2[a]]);
    }
    lemma_walk_list_same(rows, rows2, c1, c2, 0, false, fuel);
    assert(has_orphan(rows, ks) == has_orphan(rows2, ks)) by {
        if has_orphan(rows, ks) {
            let j = choose|j: int| 0 <= j < ks.len() && #[trigger] is_orphan_key(rows, ks[j]);
            assert(is_orphan_key(rows2, ks[j]));
        }
        if has_orphan(rows2, ks) {
            let j = choose|j: int| 0 <= j < ks.len() && #[trigger] is_orphan_key(rows2, ks[j]);
            assert(is_orphan_key(rows, ks[j]));
        }
    }
}

proof fn lemma_orphan_text_same(rows: Seq<PatternRow>, rows2: Seq<PatternRow>, ks: Seq<Seq<char>>, fuel: nat)
    requires
        same_children(rows, rows2),
        forall|k: Seq<char>| #[trigger] is_orphan_key(rows, k) == is_orphan_key(rows2, k),
    ensures
        orphan_text(rows, ks, fuel) == orphan_text(rows2, ks, fuel),
    decreases ks.len(),
{
    if ks.len() > 0 {
        lemma_orphan_text_same(rows, rows2, ks.drop_last(), fuel);
        let k = ks.last();
        assert(is_orphan_key(rows, k) == is_orphan_key(rows2, k));
        if is_orphan_key(rows, k) {
            lemma_children_in_range(rows, k);
            lemma_children_in_range(rows2, k);
            let c1 = children(rows, k);
            let c2 = children(rows2, k);
            assert(child_rows(rows, k) == child_rows(rows2, k));
            assert(c1.len() == child_rows(rows, k).len());
            assert forall|a: int| 0 <= a < c1.len() implies rows[#[trigger] c1[a]] == rows2[c2[a]] by {
                assert(child_rows(rows, k)[a] == rows[c1[a]]);
                assert(child_rows(rows2, k)[a] == rows2[c2[a]]);
            }
            lemma_walk_list_same(rows, rows2, c1, c2, 0, true, fuel);
        }
    }
}

} // verus!
