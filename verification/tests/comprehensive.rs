//! Broad tests of the bus: types, publish/subscribe and the USCP compatibility
//! layer.

use fleet_cns_v3::bus;
use fleet_cns_v3::json::{JsonNumber, JsonValue};
use fleet_cns_v3::time::Timestamp;
use fleet_cns_v3::types;
use std::str::FromStr;
use std::sync::Arc;

fn to_lib(v: &serde_json::Value) -> JsonValue {
    match v {
        serde_json::Value::Null => JsonValue::Null,
        serde_json::Value::Bool(b) => JsonValue::Bool(*b),
        serde_json::Value::Number(n) => JsonValue::Number(JsonNumber { text: n.to_string() }),
        serde_json::Value::String(s) => JsonValue::String(s.clone()),
        serde_json::Value::Array(a) => JsonValue::Array(a.iter().map(to_lib).collect()),
        serde_json::Value::Object(o) => {
            JsonValue::Object(o.iter().map(|(k, x)| (k.clone(), to_lib(x))).collect())
        }
    }
}

/// A JSON value written as text.
fn j(text: &str) -> JsonValue {
    to_lib(&serde_json::from_str(text).unwrap())
}

// ============================================================
// TYPES
// ============================================================

#[test]
fn channel_all_has_six_variants() {
    assert_eq!(types::Channel::ALL.len(), 6);
}

#[test]
fn comprehensive_channel_display_matches_as_str() {
    for ch in types::Channel::ALL {
        assert_eq!(ch.to_string(), ch.as_str());
    }
}

#[test]
fn channel_feel_tilt_accepts_concatenated_form() {
    assert_eq!(
        types::Channel::from_str("FEELTILT").unwrap(),
        types::Channel::FeelTilt
    );
}

#[test]
fn channel_intent_broadcast_accepts_concatenated_form() {
    assert_eq!(
        types::Channel::from_str("INTENTBROADCAST").unwrap(),
        types::Channel::IntentBroadcast
    );
}

#[test]
fn comprehensive_priority_default_is_normal() {
    assert_eq!(types::Priority::default(), types::Priority::Normal);
}

#[test]
fn priority_parse_invalid_fails() {
    assert!(types::Priority::from_str("URGENT").is_err());
    assert!(types::Priority::from_str("").is_err());
}

#[test]
fn priority_ordering_total() {
    assert!(types::Priority::Critical > types::Priority::High);
    assert!(types::Priority::High > types::Priority::Normal);
    assert!(types::Priority::Normal > types::Priority::Low);
    assert!(types::Priority::Critical > types::Priority::Low);
}

// ============================================================
// MESSAGE CREATION
// ============================================================

#[test]
fn message_new_generates_unique_ids() {
    let msg1 = types::CnsMessage::new(
        types::Channel::Pulse,
        types::Priority::Normal,
        "a",
        types::Payload::Text { content: "1".into() },
    );
    let msg2 = types::CnsMessage::new(
        types::Channel::Pulse,
        types::Priority::Normal,
        "a",
        types::Payload::Text { content: "2".into() },
    );
    assert_ne!(msg1.id, msg2.id);
}

#[test]
fn message_destination_defaults_none() {
    let msg = types::CnsMessage::new(
        types::Channel::Status,
        types::Priority::Normal,
        "x",
        types::Payload::Text { content: "y".into() },
    );
    assert!(msg.destination.is_none());
    assert!(msg.correlation_id.is_none());
}

#[test]
fn message_timestamp_is_recent() {
    let before = Timestamp::now();
    let msg = types::CnsMessage::new(
        types::Channel::Pulse,
        types::Priority::Low,
        "t",
        types::Payload::Text { content: "t".into() },
    );
    let after = Timestamp::now();
    assert!(msg.timestamp >= before);
    assert!(msg.timestamp <= after);
}

// ============================================================
// BUS PUB/SUB
// ============================================================

#[test]
fn bus_subscribe_and_receive() {
    let mut bus = bus::Bus::new();
    let mut rx = bus.subscribe(types::Channel::Pulse);

    let msg = Arc::new(types::CnsMessage::new(
        types::Channel::Pulse,
        types::Priority::Normal,
        "test",
        types::Payload::Pulse {
            agent_id: "test".into(),
            status: "ok".into(),
        },
    ));

    let delivered = bus.publish(msg.clone());
    assert_eq!(delivered, 1);

    let received = rx.try_recv().unwrap();
    assert_eq!(received.origin, "test");
    assert_eq!(received.channel, types::Channel::Pulse);
}

#[test]
fn bus_multiple_subscribers_all_receive() {
    let mut bus = bus::Bus::new();
    let mut rx1 = bus.subscribe(types::Channel::Creative);
    let mut rx2 = bus.subscribe(types::Channel::Creative);
    let mut rx3 = bus.subscribe(types::Channel::Creative);

    let msg = Arc::new(types::CnsMessage::new(
        types::Channel::Creative,
        types::Priority::Normal,
        "writer",
        types::Payload::Text { content: "story".into() },
    ));

    let delivered = bus.publish(msg);
    assert_eq!(delivered, 3);

    assert!(rx1.try_recv().is_ok());
    assert!(rx2.try_recv().is_ok());
    assert!(rx3.try_recv().is_ok());
}

#[test]
fn bus_subscriber_only_gets_its_channel() {
    let mut bus = bus::Bus::new();
    let mut rx_pulse = bus.subscribe(types::Channel::Pulse);

    // Publish to a different channel
    let msg = Arc::new(types::CnsMessage::new(
        types::Channel::Creative,
        types::Priority::Normal,
        "writer",
        types::Payload::Text { content: "nope".into() },
    ));
    bus.publish(msg);

    // Pulse subscriber should not receive it
    assert!(rx_pulse.try_recv().is_err());
}

#[test]
fn bus_unsubscribe_decrements_count() {
    let mut bus = bus::Bus::new();
    let _rx = bus.subscribe(types::Channel::Pulse);
    assert_eq!(bus.subscriber_count(&types::Channel::Pulse), 1);
    bus.unsubscribe(&types::Channel::Pulse);
    assert_eq!(bus.subscriber_count(&types::Channel::Pulse), 0);
}

#[test]
fn bus_unsubscribe_does_not_go_negative() {
    let mut bus = bus::Bus::new();
    bus.unsubscribe(&types::Channel::Pulse);
    bus.unsubscribe(&types::Channel::Pulse);
    assert_eq!(bus.subscriber_count(&types::Channel::Pulse), 0);
}

#[test]
fn bus_channel_info_reports_correctly() {
    let mut bus = bus::Bus::new();
    let _rx1 = bus.subscribe(types::Channel::Pulse);
    let _rx2 = bus.subscribe(types::Channel::Pulse);
    let _rx3 = bus.subscribe(types::Channel::Creative);

    let info = bus.channel_info();
    let pulse_info = info.iter().find(|c| c.channel == "PULSE").unwrap();
    assert_eq!(pulse_info.subscribers, 2);

    let creative_info = info.iter().find(|c| c.channel == "CREATIVE").unwrap();
    assert_eq!(creative_info.subscribers, 1);
}

#[test]
fn bus_total_published_tracks_across_channels() {
    let mut bus = bus::Bus::new();

    for ch in types::Channel::ALL {
        let msg = Arc::new(types::CnsMessage::new(
            *ch,
            types::Priority::Normal,
            "test",
            types::Payload::Text { content: "x".into() },
        ));
        bus.publish(msg);
    }

    assert_eq!(bus.total_published(), 6);
}

// ============================================================
// USCP ROUNDTRIPS — ALL PAYLOAD TYPES
// ============================================================

#[test]
fn comprehensive_uscp_roundtrip_status() {
    let original = types::CnsMessage::new(
        types::Channel::Status,
        types::Priority::Normal,
        "monitor",
        types::Payload::Status {
            agent_id: "monitor".into(),
            state: "online".into(),
            metrics: Some(j(r#"{"cpu": 50}"#)),
        },
    );

    let uscp = original.to_uscp();
    let back = types::CnsMessage::from_uscp(&uscp).expect("roundtrip");
    assert_eq!(back.channel, types::Channel::Status);
    assert_eq!(back.origin, "monitor");
}

#[test]
fn comprehensive_uscp_roundtrip_creative() {
    let original = types::CnsMessage::new(
        types::Channel::Creative,
        types::Priority::Low,
        "deepseek",
        types::Payload::Text { content: "A poem about the sea".into() },
    );

    let uscp = original.to_uscp();
    let back = types::CnsMessage::from_uscp(&uscp).expect("roundtrip");
    assert_eq!(back.channel, types::Channel::Creative);
    assert_eq!(back.priority, types::Priority::Low);
}

#[test]
fn comprehensive_uscp_roundtrip_feel_tilt() {
    let original = types::CnsMessage::new(
        types::Channel::FeelTilt,
        types::Priority::Normal,
        "engine",
        types::Payload::FeelTilt {
            agent_id: "engine".into(),
            mood: "melancholic".into(),
            intensity: JsonNumber { text: "0.82".into() },
        },
    );

    let uscp = original.to_uscp();
    let back = types::CnsMessage::from_uscp(&uscp).expect("roundtrip");
    assert_eq!(back.channel, types::Channel::FeelTilt);
}

#[test]
fn comprehensive_uscp_roundtrip_decision() {
    let original = types::CnsMessage::new(
        types::Channel::Decision,
        types::Priority::Critical,
        "riker",
        types::Payload::Decision {
            agent_id: "riker".into(),
            summary: "All hands".into(),
            rationale: "Breach detected".into(),
        },
    );

    let uscp = original.to_uscp();
    let back = types::CnsMessage::from_uscp(&uscp).expect("roundtrip");
    assert_eq!(back.channel, types::Channel::Decision);
    assert_eq!(back.priority, types::Priority::Critical);
}

#[test]
fn comprehensive_uscp_roundtrip_intent() {
    let original = types::CnsMessage::new(
        types::Channel::IntentBroadcast,
        types::Priority::Normal,
        "kimi",
        types::Payload::Intent {
            agent_id: "kimi".into(),
            action: "build_start".into(),
            target: Some("vibe-world".into()),
        },
    );

    let uscp = original.to_uscp();
    let back = types::CnsMessage::from_uscp(&uscp).expect("roundtrip");
    assert_eq!(back.channel, types::Channel::IntentBroadcast);
}

#[test]
fn uscp_roundtrip_preserves_destination() {
    let mut original = types::CnsMessage::new(
        types::Channel::Pulse,
        types::Priority::Normal,
        "wesley",
        types::Payload::Pulse {
            agent_id: "wesley".into(),
            status: "alive".into(),
        },
    );
    original.destination = Some("riker".into());

    let uscp = original.to_uscp();
    let back = types::CnsMessage::from_uscp(&uscp).expect("roundtrip");
    assert_eq!(back.destination.as_deref(), Some("riker"));
}

#[test]
fn uscp_roundtrip_preserves_correlation_id() {
    let mut original = types::CnsMessage::new(
        types::Channel::Decision,
        types::Priority::High,
        "worf",
        types::Payload::Text { content: "test".into() },
    );
    original.correlation_id = Some("req-42".into());

    let uscp = original.to_uscp();
    let back = types::CnsMessage::from_uscp(&uscp).expect("roundtrip");
    assert_eq!(back.correlation_id.as_deref(), Some("req-42"));
}

#[test]
fn uscp_from_invalid_json_returns_none() {
    let cases = vec![
        j(r#"{}"#),              // empty
        j(r#"{"header": {}}"#),  // no origin
        j(r#"{"body": {}}"#),    // no header
        j(r#""not an object""#), // wrong type
    ];

    for case in cases {
        assert!(
            types::CnsMessage::from_uscp(&case).is_none(),
            "should return None for: {:?}",
            case
        );
    }
}

#[test]
fn uscp_to_uscp_includes_version_signature() {
    let msg = types::CnsMessage::new(
        types::Channel::Pulse,
        types::Priority::Normal,
        "test",
        types::Payload::Text { content: "x".into() },
    );

    let uscp = msg.to_uscp();
    let signature = uscp.get("signature").unwrap();
    assert_eq!(signature.get_str("type").unwrap(), "USCP-v3");
    assert_eq!(signature.get_str("version").unwrap(), "3.0");
    assert_eq!(
        signature.get_str("message_id").unwrap(),
        uuid::Uuid::from_u128(msg.id).to_string()
    );
}

#[test]
fn uscp_intent_aliases() {
    // "HEARTBEAT" should map to PULSE channel
    let hb = j(r#"{
        "header": {"origin_id": "a", "timestamp": "2026-01-01T00:00:00Z", "priority": "NORMAL"},
        "body": {"intent": "HEARTBEAT", "payload": {"status": "alive"}}
    }"#);
    let msg = types::CnsMessage::from_uscp(&hb).unwrap();
    assert_eq!(msg.channel, types::Channel::Pulse);

    // "MOOD" should map to FEEL_TILT channel
    let mood = j(r#"{
        "header": {"origin_id": "a", "timestamp": "2026-01-01T00:00:00Z", "priority": "NORMAL"},
        "body": {"intent": "MOOD", "payload": {"mood": "calm", "intensity": 0.3}}
    }"#);
    let msg = types::CnsMessage::from_uscp(&mood).unwrap();
    assert_eq!(msg.channel, types::Channel::FeelTilt);

    // "STORY" should map to CREATIVE channel
    let story = j(r#"{
        "header": {"origin_id": "a", "timestamp": "2026-01-01T00:00:00Z", "priority": "NORMAL"},
        "body": {"intent": "STORY", "payload": {"content": "Once upon a time"}}
    }"#);
    let msg = types::CnsMessage::from_uscp(&story).unwrap();
    assert_eq!(msg.channel, types::Channel::Creative);

    // "BROADCAST" should map to INTENT_BROADCAST
    let bcast = j(r#"{
        "header": {"origin_id": "a", "timestamp": "2026-01-01T00:00:00Z", "priority": "NORMAL"},
        "body": {"intent": "BROADCAST", "payload": {"action": "deploy"}}
    }"#);
    let msg = types::CnsMessage::from_uscp(&bcast).unwrap();
    assert_eq!(msg.channel, types::Channel::IntentBroadcast);
}

#[test]
fn uscp_missing_priority_defaults_normal() {
    let raw = j(r#"{
        "header": {"origin_id": "a", "timestamp": "2026-01-01T00:00:00Z"},
        "body": {"intent": "PULSE", "payload": {"status": "alive"}}
    }"#);
    let msg = types::CnsMessage::from_uscp(&raw).unwrap();
    assert_eq!(msg.priority, types::Priority::Normal);
}

#[test]
fn uscp_missing_timestamp_defaults_now() {
    let before = Timestamp::now();
    let raw = j(r#"{
        "header": {"origin_id": "a", "priority": "NORMAL"},
        "body": {"intent": "PULSE", "payload": {"status": "alive"}}
    }"#);
    let msg = types::CnsMessage::from_uscp(&raw).unwrap();
    let after = Timestamp::now();
    assert!(msg.timestamp >= before);
    assert!(msg.timestamp <= after);
}

#[test]
fn uscp_invalid_priority_defaults_normal() {
    let raw = j(r#"{
        "header": {"origin_id": "a", "timestamp": "2026-01-01T00:00:00Z", "priority": "WHATEVER"},
        "body": {"intent": "PULSE", "payload": {"status": "alive"}}
    }"#);
    let msg = types::CnsMessage::from_uscp(&raw).unwrap();
    assert_eq!(msg.priority, types::Priority::Normal);
}
