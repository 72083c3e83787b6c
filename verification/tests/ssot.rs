use sdi::ids::{now, Id};
use sdi::json::Json;
use sdi::ssot::{Confidence, OpenMarker, SsotNode};

fn field(v: &serde_json::Value, k: &str) -> Result<String, String> {
    v.get(k).and_then(|x| x.as_str()).map(|s| s.to_string()).ok_or_else(|| format!("missing field `{k}`"))
}

fn decode_markers(json: &str) -> Result<Vec<OpenMarker>, String> {
    let v: serde_json::Value = serde_json::from_str(json).map_err(|e| e.to_string())?;
    let arr = v.as_array().ok_or_else(|| "invalid type: expected a sequence".to_string())?;
    arr.iter()
        .map(|m| {
            Ok(OpenMarker {
                id: field(m, "id")?,
                field: field(m, "field")?,
                description: field(m, "description")?,
                question_id: m.get("question_id").and_then(|q| q.as_str()).map(|s| s.to_string()),
            })
        })
        .collect()
}

fn node(kind: &str, facets_json: &str, markers_json: &str) -> SsotNode {
    SsotNode {
        id: Id::from("SN-node"),
        project_id: Id::from("PROJ-x"),
        short_code: "SN-x".into(),
        kind: kind.into(),
        title: "t".into(),
        facets_json: facets_json.into(),
        open_markers_json: markers_json.into(),
        confidence: Confidence::Unverified,
        produced_via_pattern_id: None,
        created_at: now().unwrap(),
        updated_at: now().unwrap(),
    }
}

fn markers(n: &SsotNode) -> Option<Vec<OpenMarker>> {
    SsotNode::parse_open_markers(decode_markers(&n.open_markers_json)).ok()
}

fn missing(n: &SsotNode) -> Vec<String> {
    n.missing_required_facets()
}

fn complete(n: &SsotNode) -> bool {
    n.is_facet_complete(&markers(n))
}

#[test]
fn confidence_roundtrip() {
    for c in ["unverified", "inferred", "high"] {
        let parsed: Confidence = c.parse().unwrap();
        assert_eq!(parsed.to_string(), c);
    }
    assert!("bogus".parse::<Confidence>().is_err());
    assert_eq!(Confidence::default(), Confidence::Unverified);
}

#[test]
fn header_validation() {
    SsotNode::validate_header("Persona", "Power user").unwrap();
    assert!(SsotNode::validate_header("", "t").is_err());
    assert!(SsotNode::validate_header("Persona", "  ").is_err());
}

#[test]
fn facets_must_be_object() {
    SsotNode::parse_facets(r#"{"business":{"purpose":"x"}}"#).unwrap();
    assert!(SsotNode::parse_facets(r#"[1,2]"#).is_err());
}

#[test]
fn open_markers_drive_facet_completeness() {
    let ms = SsotNode::parse_open_markers(decode_markers(r#"[{"id":"m1","field":"purpose","description":"확정 필요"}]"#))
        .unwrap();
    assert_eq!(ms.len(), 1);
    assert!(SsotNode::parse_open_markers(decode_markers("[]")).unwrap().is_empty());
}

#[test]
fn remove_open_marker_closes_and_is_idempotent() {
    let src = r#"[{"id":"m1","field":"purpose","description":"a"},{"id":"m2","field":"def","description":"b"}]"#;
    let left = SsotNode::remove_open_marker(decode_markers(src), "m1").unwrap();
    assert_eq!(left.len(), 1);
    assert_eq!(left[0].id, "m2");
    let again = SsotNode::remove_open_marker(Ok(left), "ghost").unwrap();
    assert_eq!(again.len(), 1);
}

#[test]
fn required_facets_per_kind() {
    assert_eq!(SsotNode::required_facets("Persona"), ["business.purpose"]);
    assert_eq!(SsotNode::required_facets("Capability"), ["business.purpose"]);
    assert_eq!(SsotNode::required_facets("Domain"), ["domain.definition"]);
    assert_eq!(SsotNode::required_facets("Invariant"), ["domain.definition"]);
    assert!(SsotNode::required_facets("Gizmo").is_empty());
}

#[test]
fn facet_floor_drives_completeness() {
    let bare = node("Persona", "{}", "[]");
    assert_eq!(missing(&bare), vec!["business.purpose"]);
    assert!(!complete(&bare));

    let blank = node("Persona", r#"{"business":{"purpose":"  "}}"#, "[]");
    assert_eq!(missing(&blank), vec!["business.purpose"]);

    let filled = node("Persona", r#"{"business":{"purpose":"결제하려는 사용자"}}"#, "[]");
    assert!(missing(&filled).is_empty());
    assert!(complete(&filled));

    let marked = node(
        "Persona",
        r#"{"business":{"purpose":"x"}}"#,
        r#"[{"id":"m1","field":"purpose","description":"확인"}]"#,
    );
    assert!(!complete(&marked));

    assert!(complete(&node("Gizmo", "{}", "[]")));
}

#[test]
fn malformed_facets_miss_every_requirement() {
    let broken = node("Domain", "not json", "[]");
    assert_eq!(missing(&broken), vec!["domain.definition"]);
    assert!(!complete(&broken));
    let broken_markers = node("Gizmo", "{}", "oops");
    assert!(!complete(&broken_markers));
}

#[test]
fn closing_a_marker_twice_is_closing_it_once() {
    let src = r#"[{"id":"m1","field":"a","description":"x"},{"id":"m2","field":"b","description":"y"},{"id":"m1","field":"c","description":"z"}]"#;
    let once = SsotNode::remove_open_marker(decode_markers(src), "m1").unwrap();
    assert_eq!(once.len(), 1);
    let twice = SsotNode::remove_open_marker(Ok(once.clone()), "m1").unwrap();
    let ids = |v: &Vec<OpenMarker>| v.iter().map(|m| m.id.clone()).collect::<Vec<_>>();
    assert_eq!(ids(&twice), ids(&once));
    assert_eq!(ids(&once), vec!["m2".to_string()]);
    let err = SsotNode::remove_open_marker(decode_markers("{"), "m1").unwrap_err();
    assert!(err.message().starts_with("validation error: open_markers_json parse error: "));
}

#[test]
fn facets_decode_members_and_report_decoder_errors() {
    let m = SsotNode::parse_facets(r#"{"a":1,"b":"x","c":[null,true],"d":{"e":{}}}"#).unwrap();
    assert_eq!(
        m,
        vec![
            ("a".to_string(), Json::Number("1".into())),
            ("b".to_string(), Json::Str("x".into())),
            ("c".to_string(), Json::Array(vec![Json::Null, Json::Bool(true)])),
            ("d".to_string(), Json::Object(vec![("e".to_string(), Json::Object(vec![]))])),
        ]
    );
    let err = SsotNode::parse_facets("{").unwrap_err();
    assert!(err.message().starts_with("validation error: facets_json parse error: "), "{}", err.message());
    assert!(SsotNode::parse_facets("\"x\"").is_err());
}
