use sdi::error::DomainError;
use sdi::requirement::validate_snapshot_body;

fn assert_violation(body: &str) {
    let err = validate_snapshot_body(body).unwrap_err();
    assert!(
        matches!(err, DomainError::SnapshotViolation(_)),
        "expected SnapshotViolation for `{body}`, got {err:?}",
    );
}

#[test]
fn accepts_plain_snapshot_body() {
    validate_snapshot_body("The system shall expose /scenarios with GET and POST.").unwrap();
}

#[test]
fn accepts_arrow_in_technical_context() {
    validate_snapshot_body("Status transitions: planning -> active -> completed.").unwrap();
}

#[test]
fn rejects_strikethrough() {
    assert_violation("The body shall be ~~mutable~~ snapshot-only.");
}

#[test]
fn rejects_version_markers() {
    assert_violation("v1: cli only. v2: cli + daemon.");
    assert_violation("Endpoint shape (was: GET only) now POST + GET.");
}

#[test]
fn rejects_english_history_phrases() {
    assert_violation("Previously, the daemon was optional.");
    assert_violation("This used to be in the CLI; it now lives in the daemon.");
    assert_violation("Changelog: 2026-05-01 — added /rounds endpoint.");
}

#[test]
fn rejects_korean_history_phrases() {
    assert_violation("이전에는 CLI 만 있었지만 지금은 daemon 도 포함한다.");
    assert_violation("기존 안: 단일 바이너리. 현재 안: 두 바이너리.");
    assert_violation("원래는 stdout 으로 출력했으나 이제는 SSE 로 발행한다.");
    assert_violation("변경 이력: 2026-05-01 신규 작성.");
}

#[test]
fn case_insensitive_english() {
    assert_violation("PREVIOUSLY, this was undefined.");
    assert_violation("V1: alpha. V2: beta.");
}

#[test]
fn strikethrough_message_names_the_rule() {
    match validate_snapshot_body("a ~~b~~ c").unwrap_err() {
        DomainError::SnapshotViolation(m) => assert!(m.contains("strikethrough")),
        other => panic!("unexpected {other:?}"),
    }
}

#[test]
fn rejects_bare_history_words() {
    assert_violation("Auth was previously optional.");
    assert_violation("The daemon was originally a thread.");
}

#[test]
fn refused_body_stays_refused_inside_longer_text() {
    for bad in ["~~old~~", "(was: GET)", "Previously, x", "기존 안: y"] {
        assert!(validate_snapshot_body(bad).is_err());
        let longer = format!("Intro text. {bad} And more after.");
        assert!(matches!(validate_snapshot_body(&longer), Err(DomainError::SnapshotViolation(_))));
    }
}
