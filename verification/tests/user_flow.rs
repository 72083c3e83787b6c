use sdi::user_flow::{FlowStatus, FlowStep, UserFlow};

fn decode_steps(json: &str) -> Result<Vec<FlowStep>, String> {
    let v: serde_json::Value = serde_json::from_str(json).map_err(|e| e.to_string())?;
    let arr = v.as_array().ok_or_else(|| "invalid type: expected a sequence".to_string())?;
    arr.iter()
        .map(|s| {
            Ok(FlowStep {
                idx: s.get("idx").and_then(|i| i.as_u64()).ok_or("missing field `idx`")? as u32,
                description: s
                    .get("description")
                    .and_then(|d| d.as_str())
                    .ok_or("missing field `description`")?
                    .to_string(),
            })
        })
        .collect()
}

#[test]
fn user_flow_status_roundtrip() {
    for s in ["draft", "confirmed"] {
        let parsed: FlowStatus = s.parse().unwrap();
        assert_eq!(parsed.to_string(), s);
    }
    assert!("bogus".parse::<FlowStatus>().is_err());
}

#[test]
fn purpose_must_be_non_empty() {
    UserFlow::validate_purpose("결제를 완료한다").unwrap();
    assert!(UserFlow::validate_purpose("   ").is_err());
}

#[test]
fn steps_and_capabilities_parse() {
    let steps =
        UserFlow::parse_steps(decode_steps(r#"[{"idx":0,"description":"로그인"},{"idx":1,"description":"결제"}]"#))
            .unwrap();
    assert_eq!(steps.len(), 2);
    let caps = UserFlow::parse_covers_capabilities(r#"["SN-abc","SN-def"]"#).unwrap();
    assert_eq!(caps.len(), 2);
}

#[test]
fn capabilities_must_be_string_array() {
    let err = UserFlow::parse_covers_capabilities("[1]").unwrap_err();
    assert!(err.message().starts_with("validation error: covers_capabilities_json parse error: "));
}
