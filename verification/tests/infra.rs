use sdi::daemon::{
    kill_failed_message, parse_unsigned, pid_from_text, port_from_text, resolve_sdid, start_first_step,
    start_timeout_message, start_wait_step, stop_first_step, stop_not_running_message,
    stop_timeout_message, stop_wait_step, LifecycleAction, SdidSource, Status,
};
use sdi::doctor::{exit_code, CheckResult, DaemonReport, PathReport, Report};
use sdi::error::DomainError;
use sdi::http::{base_url, error_message, ErrorBody};
use sdi::ids::{Id, IdKind};
use sdi::lexical::str_lt;
use sdi::url::{urlencode, urlencode_path};

fn clean_report() -> Report {
    Report {
        paths: PathReport {
            data: "/h/.local/share/sdi".into(),
            cache: "/h/.cache/sdi".into(),
            config: "/h/.config/sdi".into(),
            state: "/h/.local/state/sdi".into(),
            db_file: "/h/.local/share/sdi/sdi.db".into(),
            lm8: CheckResult::ok(),
        },
        db: CheckResult::ok(),
        daemon: DaemonReport { running: false, pid: None, port: None },
    }
}

#[test]
fn env_override_wins_when_file_exists() {
    assert_eq!(resolve_sdid(true, true, true), SdidSource::Environment);
}

#[test]
fn env_override_ignored_when_file_missing() {
    assert_eq!(resolve_sdid(false, false, true), SdidSource::Distribution);
}

#[test]
fn sibling_layout_resolves() {
    assert_eq!(resolve_sdid(false, true, false), SdidSource::Sibling);
}

#[test]
fn dist_layout_resolves_daemon_bin() {
    assert_eq!(resolve_sdid(false, false, true), SdidSource::Distribution);
}

#[test]
fn falls_back_to_bare_name() {
    assert_eq!(resolve_sdid(false, false, false), SdidSource::SearchPath);
}

#[test]
fn port_and_pid_files_parse_like_str_parse() {
    assert_eq!(port_from_text("8080\n"), Some(8080));
    assert_eq!(port_from_text("  +443 "), Some(443));
    assert_eq!(port_from_text("65536"), None);
    assert_eq!(port_from_text("-1"), None);
    assert_eq!(port_from_text(""), None);
    assert_eq!(port_from_text("+"), None);
    assert_eq!(port_from_text("80a"), None);
    assert_eq!(pid_from_text("4294967295"), Some(u32::MAX));
    assert_eq!(pid_from_text("4294967296"), None);
    assert_eq!(parse_unsigned("007", 10), Some(7));
    assert_eq!(parse_unsigned("11", 10), None);
    for n in [0u16, 9, 10, 65535] {
        assert_eq!(port_from_text(&n.to_string()), Some(n));
    }
    let st = Status { running: true, pid: pid_from_text("42"), port: port_from_text("7777") };
    assert_eq!(st.pid, Some(42));
    assert_eq!(st.port, Some(7777));
}

#[test]
fn doctor_exit_code_is_zero_on_clean_home() {
    let r = clean_report();
    assert!(r.paths.lm8.ok);
    assert!(r.db.ok);
    assert_eq!(exit_code(&r), 0);
}

#[test]
fn doctor_exit_code_is_one_when_a_check_fails() {
    let mut r = clean_report();
    r.db = CheckResult::fail("ensure_dirs: denied".into());
    assert_eq!(exit_code(&r), 1);
    assert_eq!(r.db.detail.as_deref(), Some("ensure_dirs: denied"));
    let failed = Report::paths_failed("no home directory".into());
    assert_eq!(exit_code(&failed), 1);
    assert_eq!(failed.db.detail.as_deref(), Some("skipped \u{2014} paths failed"));
    assert_eq!(failed.paths.lm8.detail.as_deref(), Some("no home directory"));
    assert!(failed.paths.data.is_empty());
}

#[test]
fn http_base_url_and_errors() {
    assert_eq!(base_url(" 5123\n"), "http://127.0.0.1:5123");
    let structured = Some(ErrorBody { code: Some("NOT_FOUND".into()), message: Some("plan x".into()) });
    assert_eq!(error_message(404, &structured, "ignored"), "HTTP 404 NOT_FOUND: plan x");
    let bare = Some(ErrorBody { code: None, message: None });
    assert_eq!(error_message(500, &bare, ""), "HTTP 500 ERROR: ");
    assert_eq!(error_message(502, &None, "bad gateway"), "HTTP 502: bad gateway");
}

#[test]
fn urlencode_keeps_unreserved_and_escapes_the_rest() {
    assert_eq!(urlencode("a-Z_0.~ /é"), "a-Z_0.~%20%2F%C3%A9");
    assert_eq!(urlencode_path("/a b/c"), "/a%20b/c");
}

#[test]
fn lexical_order_is_strings_order() {
    let words = ["", "a", "ab", "b", "B", "é", "ba"];
    for x in words {
        for y in words {
            assert_eq!(str_lt(x, y), x < y, "{x:?} < {y:?}");
        }
    }
}

#[test]
fn ids_have_kind_prefix() {
    let id = Id::new(IdKind::Plan);
    assert!(id.as_str().starts_with("PLAN-"));
    assert_eq!(id.as_str().len(), "PLAN-".len() + 26);
    assert_ne!(Id::new(IdKind::Task), Id::new(IdKind::Task));
    assert_eq!(Id::project_from_slugged("my-proj").to_string(), "PROJ-my-proj");
    assert_eq!(Id::project_from_slug("My Cool Project!").to_string(), "PROJ-my-cool-project");
}

#[test]
fn error_codes_and_statuses() {
    let v = DomainError::Validation("x".into());
    assert_eq!(v.code(), "VALIDATION");
    assert_eq!(v.http_status(), 400);
    assert_eq!(v.message(), "validation error: x");
    assert_eq!(DomainError::EvidenceRequired.message(), "evidence required for done transition");
    assert_eq!(DomainError::NotFound("p".into()).http_status(), 404);
}

#[test]
fn daemon_start_reuses_an_answering_daemon_and_waits_for_a_new_one() {
    assert_eq!(start_first_step(true, Some(4100)), LifecycleAction::Ready(4100));
    assert_eq!(start_first_step(false, Some(4100)), LifecycleAction::Spawn);
    assert_eq!(start_first_step(true, None), LifecycleAction::Spawn);
    assert_eq!(start_wait_step(true, Some(4101)), LifecycleAction::Ready(4101));
    assert_eq!(start_wait_step(true, None), LifecycleAction::Sleep);
    assert_eq!(start_wait_step(false, Some(4101)), LifecycleAction::TimedOut);
    assert_eq!(
        start_timeout_message("/h/sdid.port", "/h/sdid.log"),
        "daemon did not write port file at /h/sdid.port within 5s \u{2014} check log at /h/sdid.log"
    );
}

#[test]
fn daemon_stop_signals_sweeps_or_reports() {
    assert_eq!(stop_first_step(None, true), LifecycleAction::NotRunning);
    assert_eq!(stop_first_step(Some(77), false), LifecycleAction::Sweep);
    assert_eq!(stop_first_step(Some(77), true), LifecycleAction::Signal(77));
    assert_eq!(stop_wait_step(true, false), LifecycleAction::Sweep);
    assert_eq!(stop_wait_step(true, true), LifecycleAction::Sleep);
    assert_eq!(stop_wait_step(false, false), LifecycleAction::TimedOut);
    assert_eq!(stop_not_running_message(), "daemon not running (no pid file)");
    assert_eq!(kill_failed_message(4242), "kill(4242, SIGTERM) failed");
    assert_eq!(stop_timeout_message(0), "daemon (pid 0) did not exit within 5s");
}

#[test]
fn clock_reads_after_the_epoch() {
    let t = sdi::ids::now().expect("clock after the epoch");
    assert!(t.secs > 1_600_000_000);
    assert!(t.nanos < 1_000_000_000);
}
