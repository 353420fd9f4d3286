//! Tests for the core types: Channel, Priority, Payload, CnsMessage and the USCP
//! round trip.

use fleet_cns_v3::json::{JsonNumber, JsonValue};
use fleet_cns_v3::time::Timestamp;
use fleet_cns_v3::types::{Channel, CnsMessage, Payload, Priority};

fn to_lib(v: &serde_json::Value) -> JsonValue {
    match v {
        serde_json::Value::Null => JsonValue::Null,
        serde_json::Value::Bool(b) => JsonValue::Bool(*b),
        serde_json::Value::Number(n) => JsonValue::Number(JsonNumber { text: n.to_string() }),
        serde_json::Value::String(s) => JsonValue::String(s.clone()),
        serde_json::Value::Array(a) => JsonValue::Array(a.iter().map(to_lib).collect()),
        serde_json::Value::Object(o) => {
            JsonValue::Object(o.iter().map(|(k, x)| (k.clone(), to_lib(x))).collect())
        }
    }
}

/// A JSON value written as text.
fn j(text: &str) -> JsonValue {
    to_lib(&serde_json::from_str(text).unwrap())
}

fn has_member(fields: &[(String, JsonValue)], key: &str) -> bool {
    fields.iter().any(|(k, _)| k == key)
}

// ─── Channel tests ───────────────────────────────────────────────────────────

#[test]
fn channel_all_has_six_channels() {
    assert_eq!(Channel::ALL.len(), 6);
}

#[test]
fn channel_as_str_roundtrip() {
    for ch in Channel::ALL {
        let s = ch.as_str();
        let parsed: Channel = s.parse().unwrap();
        assert_eq!(*ch, parsed, "roundtrip failed for {}", s);
    }
}

#[test]
fn types_test_channel_display_matches_as_str() {
    for ch in Channel::ALL {
        assert_eq!(ch.to_string(), ch.as_str());
    }
}

#[test]
fn channel_from_str_case_insensitive() {
    assert_eq!("pulse".parse::<Channel>().unwrap(), Channel::Pulse);
    assert_eq!("Pulse".parse::<Channel>().unwrap(), Channel::Pulse);
    assert_eq!("CREATIVE".parse::<Channel>().unwrap(), Channel::Creative);
    assert_eq!("feel_tilt".parse::<Channel>().unwrap(), Channel::FeelTilt);
    assert_eq!("FEELTILT".parse::<Channel>().unwrap(), Channel::FeelTilt);
    assert_eq!("intent_broadcast".parse::<Channel>().unwrap(), Channel::IntentBroadcast);
    assert_eq!("INTENTBROADCAST".parse::<Channel>().unwrap(), Channel::IntentBroadcast);
}

#[test]
fn channel_from_str_rejects_unknown() {
    assert!("GARBAGE".parse::<Channel>().is_err());
    assert!("".parse::<Channel>().is_err());
    assert!("pulse ".parse::<Channel>().is_err());
}

#[test]
fn channel_all_contains_expected() {
    assert!(Channel::ALL.contains(&Channel::Pulse));
    assert!(Channel::ALL.contains(&Channel::Status));
    assert!(Channel::ALL.contains(&Channel::Creative));
    assert!(Channel::ALL.contains(&Channel::Decision));
    assert!(Channel::ALL.contains(&Channel::FeelTilt));
    assert!(Channel::ALL.contains(&Channel::IntentBroadcast));
}

// ─── Priority tests ──────────────────────────────────────────────────────────

#[test]
fn types_test_priority_ordering() {
    assert!(Priority::Critical > Priority::High);
    assert!(Priority::High > Priority::Normal);
    assert!(Priority::Normal > Priority::Low);
}

#[test]
fn types_test_priority_default_is_normal() {
    assert_eq!(Priority::default(), Priority::Normal);
}

#[test]
fn priority_display() {
    assert_eq!(Priority::Critical.to_string(), "CRITICAL");
    assert_eq!(Priority::High.to_string(), "HIGH");
    assert_eq!(Priority::Normal.to_string(), "NORMAL");
    assert_eq!(Priority::Low.to_string(), "LOW");
}

#[test]
fn priority_from_str_roundtrip() {
    for p in [Priority::Low, Priority::Normal, Priority::High, Priority::Critical] {
        let s = p.to_string();
        let parsed: Priority = s.parse().unwrap();
        assert_eq!(p, parsed);
    }
}

#[test]
fn priority_from_str_case_insensitive() {
    assert_eq!("low".parse::<Priority>().unwrap(), Priority::Low);
    assert_eq!("critical".parse::<Priority>().unwrap(), Priority::Critical);
}

#[test]
fn priority_from_str_rejects_unknown() {
    assert!("URGENT".parse::<Priority>().is_err());
    assert!("".parse::<Priority>().is_err());
}

// ─── CnsMessage tests ────────────────────────────────────────────────────────

#[test]
fn cns_message_new_assigns_fields() {
    let msg = CnsMessage::new(
        Channel::Pulse,
        Priority::Normal,
        "wesley",
        Payload::Pulse {
            agent_id: "wesley".into(),
            status: "alive".into(),
        },
    );
    assert_eq!(msg.channel, Channel::Pulse);
    assert_eq!(msg.priority, Priority::Normal);
    assert_eq!(msg.origin, "wesley");
    assert!(msg.destination.is_none());
    assert!(msg.correlation_id.is_none());
}

#[test]
fn cns_message_new_generates_unique_ids() {
    let msg1 = CnsMessage::new(
        Channel::Pulse, Priority::Normal, "a",
        Payload::Text { content: "1".into() },
    );
    let msg2 = CnsMessage::new(
        Channel::Pulse, Priority::Normal, "a",
        Payload::Text { content: "2".into() },
    );
    assert_ne!(msg1.id, msg2.id);
}

// ─── USCP round-trip tests ───────────────────────────────────────────────────

#[test]
fn uscp_roundtrip_pulse() {
    let msg = CnsMessage::new(
        Channel::Pulse,
        Priority::Normal,
        "wesley",
        Payload::Pulse { agent_id: "wesley".into(), status: "alive".into() },
    );
    let uscp = msg.to_uscp();
    let back = CnsMessage::from_uscp(&uscp).expect("from_uscp failed");
    assert_eq!(back.channel, Channel::Pulse);
    assert_eq!(back.origin, "wesley");
}

#[test]
fn types_test_uscp_roundtrip_creative() {
    let msg = CnsMessage::new(
        Channel::Creative,
        Priority::Low,
        "lucineer",
        Payload::Text { content: "the ocean remembers".into() },
    );
    let uscp = msg.to_uscp();
    let back = CnsMessage::from_uscp(&uscp).unwrap();
    assert_eq!(back.channel, Channel::Creative);
}

#[test]
fn types_test_uscp_roundtrip_decision() {
    let msg = CnsMessage::new(
        Channel::Decision,
        Priority::Critical,
        "riker",
        Payload::Decision {
            agent_id: "riker".into(),
            summary: "divert power to engines".into(),
            rationale: "incoming storm".into(),
        },
    );
    let uscp = msg.to_uscp();
    let back = CnsMessage::from_uscp(&uscp).unwrap();
    assert_eq!(back.channel, Channel::Decision);
    assert_eq!(back.priority, Priority::Critical);
}

#[test]
fn types_test_uscp_roundtrip_feel_tilt() {
    let msg = CnsMessage::new(
        Channel::FeelTilt,
        Priority::Normal,
        "hermes",
        Payload::FeelTilt {
            agent_id: "hermes".into(),
            mood: "curious".into(),
            intensity: JsonNumber { text: "0.88".into() },
        },
    );
    let uscp = msg.to_uscp();
    let back = CnsMessage::from_uscp(&uscp).unwrap();
    assert_eq!(back.channel, Channel::FeelTilt);
}

#[test]
fn types_test_uscp_roundtrip_intent() {
    let msg = CnsMessage::new(
        Channel::IntentBroadcast,
        Priority::High,
        "kimi",
        Payload::Intent {
            agent_id: "kimi".into(),
            action: "spatial_analysis".into(),
            target: Some("roblox-build".into()),
        },
    );
    let uscp = msg.to_uscp();
    let back = CnsMessage::from_uscp(&uscp).unwrap();
    assert_eq!(back.channel, Channel::IntentBroadcast);
}

#[test]
fn types_test_uscp_roundtrip_status() {
    let msg = CnsMessage::new(
        Channel::Status,
        Priority::Normal,
        "wesley",
        Payload::Status {
            agent_id: "wesley".into(),
            state: "reading".into(),
            metrics: Some(j(r#"{"cpu": 45.2}"#)),
        },
    );
    let uscp = msg.to_uscp();
    let back = CnsMessage::from_uscp(&uscp).unwrap();
    assert_eq!(back.channel, Channel::Status);
}

#[test]
fn uscp_preserves_priority() {
    let msg = CnsMessage::new(
        Channel::Pulse,
        Priority::Critical,
        "test",
        Payload::Text { content: "test".into() },
    );
    let uscp = msg.to_uscp();
    let back = CnsMessage::from_uscp(&uscp).unwrap();
    assert_eq!(back.priority, Priority::Critical);
}

#[test]
fn uscp_preserves_origin() {
    let msg = CnsMessage::new(
        Channel::Pulse,
        Priority::Normal,
        "deepseek-v4",
        Payload::Text { content: "test".into() },
    );
    let uscp = msg.to_uscp();
    let back = CnsMessage::from_uscp(&uscp).unwrap();
    assert_eq!(back.origin, "deepseek-v4");
}

#[test]
fn uscp_preserves_correlation_id() {
    let mut msg = CnsMessage::new(
        Channel::Pulse,
        Priority::Normal,
        "test",
        Payload::Text { content: "test".into() },
    );
    msg.correlation_id = Some("corr-123".into());
    let uscp = msg.to_uscp();
    let back = CnsMessage::from_uscp(&uscp).unwrap();
    assert_eq!(back.correlation_id, Some("corr-123".into()));
}

#[test]
fn uscp_preserves_destination() {
    let mut msg = CnsMessage::new(
        Channel::Pulse,
        Priority::Normal,
        "riker",
        Payload::Text { content: "test".into() },
    );
    msg.destination = Some("hermes".into());
    let uscp = msg.to_uscp();
    let back = CnsMessage::from_uscp(&uscp).unwrap();
    assert_eq!(back.destination, Some("hermes".into()));
}

#[test]
fn uscp_unknown_intent_goes_to_status_data() {
    let raw = j(r#"{
        "header": {
            "origin_id": "unknown-agent",
            "timestamp": "2026-08-14T07:00:00Z",
            "priority": "NORMAL"
        },
        "body": {
            "intent": "QUANTUM_FLUX",
            "payload": { "field1": "value1" }
        }
    }"#);
    let msg = CnsMessage::from_uscp(&raw).unwrap();
    assert_eq!(msg.channel, Channel::Status);
    match &msg.payload {
        Payload::Data { fields } => {
            assert!(has_member(fields, "intent"));
            assert!(has_member(fields, "field1"));
        }
        _ => panic!("expected Data payload for unknown intent"),
    }
}

#[test]
fn uscp_missing_origin_returns_none() {
    let raw = j(r#"{
        "header": {},
        "body": { "intent": "PULSE", "payload": {} }
    }"#);
    assert!(CnsMessage::from_uscp(&raw).is_none());
}

#[test]
fn uscp_missing_body_returns_none() {
    let raw = j(r#"{
        "header": { "origin_id": "test" }
    }"#);
    assert!(CnsMessage::from_uscp(&raw).is_none());
}

#[test]
fn uscp_heartbeat_maps_to_pulse() {
    let raw = j(r#"{
        "header": {
            "origin_id": "wesley",
            "timestamp": "2026-08-14T07:00:00Z"
        },
        "body": {
            "intent": "HEARTBEAT",
            "payload": { "status": "alive" }
        }
    }"#);
    let msg = CnsMessage::from_uscp(&raw).unwrap();
    assert_eq!(msg.channel, Channel::Pulse);
    match &msg.payload {
        Payload::Pulse { agent_id, status } => {
            assert_eq!(agent_id, "wesley");
            assert_eq!(status, "alive");
        }
        _ => panic!("expected Pulse payload"),
    }
}

#[test]
fn uscp_missing_priority_defaults_to_normal() {
    let raw = j(r#"{
        "header": { "origin_id": "test" },
        "body": { "intent": "PULSE", "payload": {} }
    }"#);
    let msg = CnsMessage::from_uscp(&raw).unwrap();
    assert_eq!(msg.priority, Priority::Normal);
}

#[test]
fn uscp_missing_timestamp_uses_now() {
    let raw = j(r#"{
        "header": { "origin_id": "test" },
        "body": { "intent": "PULSE", "payload": {} }
    }"#);
    let before = Timestamp::now();
    let msg = CnsMessage::from_uscp(&raw).unwrap();
    let after = Timestamp::now();
    assert!(msg.timestamp >= before);
    assert!(msg.timestamp <= after);
}

#[test]
fn uscp_signature_includes_version() {
    let msg = CnsMessage::new(
        Channel::Pulse, Priority::Normal, "test",
        Payload::Text { content: "x".into() },
    );
    let uscp = msg.to_uscp();
    let sig = uscp.get("signature").unwrap();
    assert_eq!(sig.get_str("version").unwrap(), "3.0");
    assert_eq!(sig.get_str("type").unwrap(), "USCP-v3");
}
