use sdi::cli::{
    file_reversal_plan, ConsensusStatusArgs, DecisionRollbackArgs, PatternListArgs, ProjectUpdateArgs, ReversalPlanSource,
    UsageListArgs,
};
use sdi::commands::aggregate::build_dashboard_path;
use sdi::ids::Timestamp;
use sdi::commands::bypass::{
    marker_state, marker_state_at, plain_marker_reason, plain_marker_status, BypassArmArgs, BypassState,
};

fn clock() -> Timestamp {
    sdi::ids::now().unwrap()
}

fn at(secs: i64, nanos: u32) -> Timestamp {
    Timestamp { secs, nanos }
}
use sdi::commands::comment::parse_anchor;
use sdi::commands::consensus::{group_decisions, ConsensusStage, DecisionRow};
use sdi::commands::ops::{
    event_data, event_kind, find_event_boundary, slug_to_key, take_event, CompletionShell, CompletionsArgs, InitArgs, LogArgs,
    WatchArgs,
};
use sdi::commands::pattern::{filter_by_kind, render_tree, PatternRow};
use sdi::commands::task::{parse_evidence, parse_subtask, TaskCompleteArgs, TaskDecomposeArgs};

fn row(kind: Option<&str>, id: &str, proposal: Option<&str>) -> DecisionRow {
    DecisionRow {
        kind: kind.map(|k| k.to_string()),
        id: Some(id.to_string()),
        proposal_id: proposal.map(|p| p.to_string()),
    }
}

fn pattern(id: &str, parent: Option<&str>, created: &str, short: &str) -> PatternRow {
    PatternRow {
        id: Some(id.to_string()),
        parent_pattern_id: parent.map(|p| p.to_string()),
        created_at: Some(created.to_string()),
        short_code: Some(short.to_string()),
        kind: Some("workflow".to_string()),
        applies_to: Some("plan".to_string()),
        lifecycle: Some("active".to_string()),
        depth: 0,
    }
}

#[test]
fn consensus_groups_by_proposal_in_id_order() {
    let rows = vec![
        row(Some("proposal"), "DEC-b", None),
        row(Some("critique"), "DEC-c1", Some("DEC-b")),
        row(Some("proposal"), "DEC-a", None),
        row(Some("critique"), "DEC-c2", Some("DEC-b")),
        row(Some("consensus"), "DEC-k", Some("DEC-b")),
        row(Some("dissensus"), "DEC-d", Some("DEC-a")),
        row(Some("critique"), "DEC-orphan", None),
    ];
    let groups = group_decisions(&rows, &None);
    assert_eq!(groups.len(), 2);
    assert_eq!(groups[0].proposal_id, "DEC-a");
    assert_eq!(groups[0].proposal, Some(2));
    assert_eq!(groups[0].dissensus, Some(5));
    assert_eq!(groups[0].stage, ConsensusStage::Dissensus);
    assert_eq!(groups[0].critique_count, 0);
    assert_eq!(groups[1].proposal_id, "DEC-b");
    assert_eq!(groups[1].proposal, Some(0));
    assert_eq!(groups[1].critiques, vec![1, 3]);
    assert_eq!(groups[1].consensus, Some(4));
    assert_eq!(groups[1].critique_count, 2);
    assert_eq!(groups[1].stage, ConsensusStage::Consensus);
    assert_eq!(groups[1].stage.as_str(), "consensus");
}

#[test]
fn consensus_dissensus_escalates_over_consensus() {
    let rows = vec![
        row(Some("proposal"), "P", None),
        row(Some("consensus"), "K", Some("P")),
        row(Some("dissensus"), "D", Some("P")),
    ];
    let groups = group_decisions(&rows, &None);
    assert_eq!(groups.len(), 1);
    assert_eq!(groups[0].stage, ConsensusStage::Dissensus);
    assert_eq!(groups[0].stage.as_str(), "dissensus");
}

#[test]
fn consensus_filter_and_default_kind() {
    let rows = vec![
        row(None, "P1", None),
        row(Some("critique"), "C", Some("P1")),
        row(None, "P2", None),
        row(Some("note"), "N", Some("P2")),
    ];
    let only = group_decisions(&rows, &Some("P1".to_string()));
    assert_eq!(only.len(), 1);
    assert_eq!(only[0].proposal, Some(0));
    assert_eq!(only[0].stage, ConsensusStage::Critique);
    let all = group_decisions(&rows, &None);
    assert_eq!(all.len(), 2);
    assert_eq!(all[1].proposal_id, "P2");
    assert_eq!(all[1].stage, ConsensusStage::Proposal);
    assert_eq!(all[1].proposal, Some(2));
    assert!(group_decisions(&Vec::new(), &None).is_empty());
}

#[test]
fn consensus_status_path_encodes_plan() {
    let a = ConsensusStatusArgs { plan_id: "PLAN 1".into(), proposal_id: None };
    assert_eq!(a.path(), "/decisions?plan_id=PLAN%201");
}

#[test]
fn pattern_tree_renders_children_oldest_first() {
    let rows = vec![
        pattern("P-root", None, "2024-01-01", "R"),
        pattern("P-late", Some("P-root"), "2024-03-01", "L"),
        pattern("P-early", Some("P-root"), "2024-02-01", "E"),
        pattern("P-grand", Some("P-early"), "2024-02-02", "G"),
    ];
    let out = render_tree(&rows).unwrap();
    assert_eq!(
        out,
        "- R P-root [workflow/plan] depth=0 lifecycle=active\n\
         \x20\x20- E P-early [workflow/plan] depth=0 lifecycle=active\n\
         \x20\x20\x20\x20- G P-grand [workflow/plan] depth=0 lifecycle=active\n\
         \x20\x20- L P-late [workflow/plan] depth=0 lifecycle=active\n"
    );
}

#[test]
fn pattern_tree_lists_orphans_under_one_header() {
    let mut lost = pattern("P-lost", Some("P-elsewhere"), "2024-01-01", "X");
    lost.depth = 2;
    lost.lifecycle = None;
    let rows = vec![lost, pattern("P-root", None, "2024-01-01", "R")];
    let out = render_tree(&rows).unwrap();
    assert_eq!(
        out,
        "- R P-root [workflow/plan] depth=0 lifecycle=active\n\
         (orphans \u{2014} parent not in this plan)\n\
         (orphan) X P-lost [workflow/plan] depth=2 lifecycle=?\n"
    );
}

#[test]
fn pattern_tree_empty_plan() {
    assert_eq!(render_tree(&Vec::new()).unwrap(), "(no patterns in this plan)\n");
}

#[test]
fn pattern_tree_refuses_a_row_that_is_its_own_ancestor() {
    let mut looped = pattern("P-a", Some("?"), "2024", "A");
    looped.id = None;
    assert_eq!(render_tree(&vec![looped]), None);
}

#[test]
fn pattern_filter_by_kind_keeps_order() {
    let mut a = pattern("A", None, "1", "a");
    a.kind = Some("graph".into());
    let b = pattern("B", None, "2", "b");
    let mut c = pattern("C", None, "3", "c");
    c.kind = Some("graph".into());
    assert_eq!(filter_by_kind(&vec![a, b, c], "graph"), vec![0, 2]);
}

#[test]
fn pattern_list_needs_plan_or_active() {
    let none = PatternListArgs { plan: None, active: false, kind: None };
    assert!(none.path().unwrap_err().message.contains("--plan"));
    let active = PatternListArgs { plan: None, active: true, kind: None };
    assert_eq!(active.path().unwrap(), "/patterns/active");
}

#[test]
fn bypass_arm_defaults_ttl_to_60s() {
    let args = BypassArmArgs::default();
    assert_eq!(args.ttl, 60);
    assert_eq!(args.reason, None);
}

#[test]
fn bypass_arm_rejects_nonpositive_ttl() {
    let args = BypassArmArgs { reason: None, ttl: 0 };
    let err = args.expires_at(clock()).unwrap_err();
    assert!(err.message.contains("ttl") || err.message.contains("positive"));
}

#[test]
fn bypass_arm_expires_ttl_seconds_later() {
    let args = BypassArmArgs { reason: Some("investigating self-deadlock".into()), ttl: 120 };
    assert_eq!(args.expires_at(at(1_000, 500)).unwrap(), at(1_120, 500));
}

#[test]
fn bypass_status_reports_armed_with_ttl_remainder() {
    let armed_at = clock();
    let exp = BypassArmArgs { reason: Some("checking status".into()), ttl: 300 }.expires_at(armed_at).unwrap();
    let (state, left) = marker_state_at(Some(exp), at(armed_at.secs + 1, armed_at.nanos));
    assert_eq!(state, BypassState::Armed);
    assert_eq!(state.as_str(), "armed");
    assert!((1..=300).contains(&left), "ttl_remaining outside expected window: {left}");
}

#[test]
fn bypass_status_reports_expired_for_past_expires_at() {
    let (state, left) = marker_state(Some("2000-01-01T00:01:00Z"), clock());
    assert_eq!(state, BypassState::Expired);
    assert_eq!(state.as_str(), "expired");
    assert_eq!(left, 0);
}

#[test]
fn bypass_status_handles_plain_text_marker_backward_compat() {
    assert_eq!(plain_marker_reason("legacy touch reason\n"), Some("legacy touch reason".to_string()));
    assert_eq!(plain_marker_reason("  \n"), None);
    let st = plain_marker_status("legacy touch reason\n");
    assert_eq!(st.state, BypassState::Armed);
    assert_eq!(st.ttl_remaining_seconds, -1);
    assert_eq!(st.reason, Some("legacy touch reason".to_string()));
    assert_eq!(st.format, "plain-text");
    assert_eq!(plain_marker_status("").reason, None);
    let (state, left) = marker_state(None, clock());
    assert_eq!(state, BypassState::Armed);
    assert_eq!(left, -1);
}

#[test]
fn bypass_marker_with_unreadable_expiry_is_armed_forever() {
    let (state, left) = marker_state(Some("tomorrow-ish"), clock());
    assert_eq!(state, BypassState::Armed);
    assert_eq!(left, -1);
    let (state, left) = marker_state(Some("2100-01-01T00:00:00Z"), at(4_102_444_800 - 62, 500_000_000));
    assert_eq!(state, BypassState::Armed);
    assert_eq!(left, 61);
}

#[test]
fn bypass_expiry_is_compared_to_the_nanosecond() {
    // Same millisecond, expiry a few nanoseconds later: still armed, 0 s left.
    let (state, left) = marker_state(Some("2030-01-01T00:00:00.000000500Z"), at(1_893_456_000, 100));
    assert_eq!(state, BypassState::Armed);
    assert_eq!(left, 0);
    let (state, left) = marker_state(Some("2030-01-01T00:00:00.000000500Z"), at(1_893_456_000, 500));
    assert_eq!(state, BypassState::Expired);
    assert_eq!(left, 0);
    let (state, _) = marker_state(Some("2030-01-01T02:00:00+02:00"), at(1_893_456_000, 0));
    assert_eq!(state, BypassState::Expired);
}

#[test]
fn task_complete_with_malformed_evidence_is_anyhow_error() {
    let err = parse_evidence("garbage").unwrap_err();
    assert!(err.message.contains("SCN-ID=result@evidence_ref"));
    assert_eq!(err.message, "--evidence must be SCN-ID=result@evidence_ref, got: garbage");
}

#[test]
fn evidence_splits_at_first_at_then_first_equals() {
    let e = parse_evidence("SCN-1=passing@src/a.rs:1@x").unwrap();
    assert_eq!(e.scenario_id, "SCN-1");
    assert_eq!(e.result, "passing");
    assert_eq!(e.evidence_ref, "src/a.rs:1@x");
    let e = parse_evidence("A=b=c@r").unwrap();
    assert_eq!((e.scenario_id.as_str(), e.result.as_str()), ("A", "b=c"));
    let args = TaskCompleteArgs {
        id: "TASK-1".into(),
        evidence: vec!["S=passing@r".into(), "bad".into()],
        summary: None,
    };
    assert!(args.scenario_evidence().unwrap_err().message.ends_with("got: bad"));
}

#[test]
fn subtask_splits_at_first_double_colon_and_trims() {
    let s = parse_subtask(" T-1 :: write the parser :: fast ").unwrap();
    assert_eq!(s.short_code, "T-1");
    assert_eq!(s.description, "write the parser :: fast");
    assert!(parse_subtask("T-1: nope").is_err());
    let args = TaskDecomposeArgs { id: "TASK".into(), subtasks: vec!["a::b".into(), "c::d".into()], round_id: None };
    let subs = args.parsed_subtasks().unwrap();
    assert_eq!(subs.len(), 2);
    assert_eq!(subs[1].short_code, "c");
}

#[test]
fn comment_anchor_kinds() {
    assert_eq!(parse_anchor("task=TASK-1").unwrap(), ("task".to_string(), "TASK-1".to_string()));
    assert_eq!(
        parse_anchor("epic=E").unwrap_err().message,
        "anchor kind must be plan|task|scenario|round, got: epic"
    );
    assert_eq!(parse_anchor("nothing").unwrap_err().message, "--on must be kind=ID, got: nothing");
}

#[test]
fn dashboard_path_forms() {
    assert_eq!(build_dashboard_path("/dashboard", None, None, "/home/me/x y"), "/dashboard?cwd=/home/me/x%20y");
    assert_eq!(build_dashboard_path("/dashboard", None, Some("PROJ-a"), "/ignored"), "/dashboard?project=PROJ-a");
    assert_eq!(
        build_dashboard_path("/dashboard", Some("/w"), Some("P"), "/ignored"),
        "/dashboard?cwd=/w&project=P"
    );
}

#[test]
fn init_key_from_directory_name() {
    assert_eq!(slug_to_key("my-cool_project"), "MYCOOLPR");
    assert_eq!(slug_to_key("ab"), "AB");
    assert_eq!(slug_to_key("---"), "PROJ");
    let args = InitArgs { key: None, name: None };
    assert_eq!(args.resolve("sdi"), ("sdi".to_string(), "SDI".to_string()));
}

#[test]
fn log_tail_start() {
    let a = LogArgs { follow: false, lines: 10 };
    assert_eq!(a.tail_start(25), 15);
    assert_eq!(a.tail_start(3), 0);
}

#[test]
fn completions_shells() {
    let pick = |s: &str| CompletionsArgs { shell: s.into() }.shell();
    assert_eq!(pick("pwsh").unwrap(), CompletionShell::PowerShell);
    assert_eq!(pick("zsh").unwrap(), CompletionShell::Zsh);
    assert_eq!(pick("tcsh").unwrap_err().message, "unsupported shell: tcsh");
}

#[test]
fn watch_framing_takes_one_event_at_a_time() {
    let mut buf = b"event: x\ndata: {\"kind\":\"task.done\"}\n\nnext".to_vec();
    assert_eq!(find_event_boundary(&buf), Some(35));
    let raw = take_event(&mut buf).unwrap();
    assert_eq!(raw, b"event: x\ndata: {\"kind\":\"task.done\"}".to_vec());
    assert_eq!(buf, b"next".to_vec());
    assert_eq!(take_event(&mut buf), None);
    assert_eq!(buf, b"next".to_vec());
}

#[test]
fn watch_event_data_is_last_data_line() {
    assert_eq!(event_data("id: 1\r\ndata: a\r\ndata: b\r\n"), Some("b".to_string()));
    assert_eq!(event_data("event: ping"), None);
    assert_eq!(event_data("data: x\r"), Some("x\r".to_string()));
    let w = WatchArgs { kind: Some("task.".into()), count: 2 };
    assert!(w.accepts("task.done"));
    assert!(!w.accepts("plan.approved"));
    assert!(!w.is_done(1));
    assert!(w.is_done(2));
}

#[test]
fn usage_list_narrowest_scope_wins() {
    let a = UsageListArgs { project_id: Some("P".into()), plan_id: Some("PL".into()), task_id: None };
    assert_eq!(a.path().unwrap(), "/usage?plan_id=PL");
    let none = UsageListArgs { project_id: None, plan_id: None, task_id: None };
    assert!(none.path().is_err());
}

#[test]
fn project_update_handles_description_and_wiki_paths_patch_style() {
    let set = ProjectUpdateArgs { id: "P".into(), name: None, description: Some("first body".into()), wiki_paths: vec![] }
        .patch()
        .unwrap();
    assert_eq!(set.description, Some(Some("first body".to_string())));
    let rename =
        ProjectUpdateArgs { id: "P".into(), name: Some("Renamed".into()), description: None, wiki_paths: vec![] }
            .patch()
            .unwrap();
    assert_eq!(rename.name, Some("Renamed".to_string()));
    assert_eq!(rename.description, None);
    let wiki = ProjectUpdateArgs {
        id: "P".into(),
        name: None,
        description: None,
        wiki_paths: vec!["docs".into(), "wiki".into()],
    }
    .patch()
    .unwrap();
    assert_eq!(wiki.wiki_paths.unwrap().len(), 2);
    let clear = ProjectUpdateArgs { id: "P".into(), name: None, description: Some(String::new()), wiki_paths: vec![] }
        .patch()
        .unwrap();
    assert_eq!(clear.description, Some(None));
    let err = ProjectUpdateArgs { id: "P".into(), name: None, description: None, wiki_paths: vec![] }
        .patch()
        .unwrap_err();
    assert!(err.message.contains("at least one"));
}

#[test]
fn rollback_takes_inline_plan_first_then_file() {
    let mut a = DecisionRollbackArgs {
        id: "DEC-1".into(),
        short_code: "R-1".into(),
        title: "undo".into(),
        body: String::new(),
        reversal_plan: Some("{\"type\":\"git_revert\",\"sha\":\"abc\"}".into()),
        reversal_plan_from_file: Some("plan.json".into()),
        blast_radius_score: None,
        produced_via_pattern_id: None,
        agent_name: "reversal-runner".into(),
    };
    assert!(matches!(a.reversal_plan_source().unwrap(), ReversalPlanSource::Inline(s) if s.contains("git_revert")));
    a.reversal_plan = None;
    assert!(matches!(a.reversal_plan_source().unwrap(), ReversalPlanSource::File(p) if p == "plan.json"));
    a.reversal_plan_from_file = None;
    assert!(a.reversal_plan_source().unwrap_err().message.contains("requires --reversal-plan"));
    assert_eq!(file_reversal_plan("  {\"a\":1}\n\n"), "{\"a\":1}");
}

#[test]
fn watch_event_kind_reads_the_decoded_kind() {
    assert_eq!(event_kind(r#"{"kind":"task.done","id":1}"#), Some("task.done".to_string()));
    assert_eq!(event_kind(r#"{"id":1}"#), Some(String::new()));
    assert_eq!(event_kind(r#"{"kind":7}"#), Some(String::new()));
    assert_eq!(event_kind("[1]"), Some(String::new()));
    assert_eq!(event_kind("not json"), None);
}

#[test]
fn pattern_tree_ignores_row_order() {
    let rows = vec![
        pattern("PAT-A", None, "2026-01-01T00:00:00Z", "P-A"),
        pattern("PAT-B", Some("PAT-A"), "2026-01-02T00:00:00Z", "P-B"),
        pattern("PAT-C", Some("PAT-A"), "2026-01-01T12:00:00Z", "P-C"),
        pattern("PAT-D", Some("PAT-GONE"), "2026-01-03T00:00:00Z", "P-D"),
        pattern("PAT-E", None, "2025-12-31T00:00:00Z", "P-E"),
    ];
    let expected = render_tree(&rows).unwrap();
    let mut reversed = rows.clone();
    reversed.reverse();
    assert_eq!(render_tree(&reversed).unwrap(), expected);
    let mut rotated = rows.clone();
    rotated.rotate_left(2);
    assert_eq!(render_tree(&rotated).unwrap(), expected);
}
