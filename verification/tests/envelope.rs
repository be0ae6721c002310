use session_bridge::message::{MessageKind, WsMessage};
use session_bridge::session::{AntigravityState, ExtensionInfo};

#[test]
fn parse_reads_the_three_members() {
    let msg = WsMessage::parse(r#"{"type":"hello","payload":{"a":1},"id":"7"}"#).unwrap();
    assert_eq!(msg.msg_type, "hello");
    assert_eq!(msg.id, "7");
    assert_eq!(msg.payload.get("a").and_then(|v| v.as_u64()), Some(1));
    assert_eq!(msg.kind(), MessageKind::Hello);
}

#[test]
fn parse_rejects_what_is_not_an_envelope() {
    assert!(WsMessage::parse("not json").is_none());
    assert!(WsMessage::parse(r#"{"type":"hello","id":"7"}"#).is_none());
    assert!(WsMessage::parse(r#"{"type":"hello","payload":{}}"#).is_none());
    assert!(WsMessage::parse(r#"{"payload":{},"id":"7"}"#).is_none());
    assert!(WsMessage::parse(r#"{"type":5,"payload":{},"id":"7"}"#).is_none());
    assert!(WsMessage::parse(r#"{"type":"hello","payload":{},"id":7}"#).is_none());
    assert!(WsMessage::parse(r#"["hello",{},"7"]"#).is_none());
    assert!(WsMessage::parse("").is_none());
}

#[test]
fn to_text_prints_type_payload_id_in_order() {
    let msg = WsMessage::parse(r#" { "id" : "3", "payload" : {}, "type" : "simulateEnter" } "#).unwrap();
    assert_eq!(
        msg.to_text().unwrap(),
        r#"{"type":"simulateEnter","payload":{},"id":"3"}"#
    );
}

#[test]
fn to_text_escapes_strings() {
    let msg = WsMessage {
        msg_type: "a\"b".to_string(),
        payload: serde_json::Value::Null,
        id: "line\nbreak".to_string(),
    };
    assert_eq!(
        msg.to_text().unwrap(),
        r#"{"type":"a\"b","payload":null,"id":"line\nbreak"}"#
    );
}

#[test]
fn info_needs_three_strings() {
    let ok = serde_json::from_str(r#"{"windowId":"w1","workspaceName":"proj","extensionVersion":"1.0","more":true}"#).unwrap();
    let info = ExtensionInfo::from_json(&ok).unwrap();
    assert_eq!(info.window_id, "w1");
    assert_eq!(info.workspace_name, "proj");
    assert_eq!(info.extension_version, "1.0");
    let missing = serde_json::from_str(r#"{"windowId":"w1","workspaceName":"proj"}"#).unwrap();
    assert!(ExtensionInfo::from_json(&missing).is_none());
    let wrong = serde_json::from_str(r#"{"windowId":1,"workspaceName":"proj","extensionVersion":"1.0"}"#).unwrap();
    assert!(ExtensionInfo::from_json(&wrong).is_none());
}

#[test]
fn state_needs_five_flags_and_a_label() {
    let ok = serde_json::from_str(r#"{"hasAcceptButton":true,"hasRetryButton":false,"hasEnterButton":false,"agentWorking":true,"terminalPending":false,"workspaceName":"proj"}"#).unwrap();
    let state = AntigravityState::from_json(&ok).unwrap();
    assert!(state.has_accept_button);
    assert!(!state.has_retry_button);
    assert!(!state.has_enter_button);
    assert!(state.agent_working);
    assert!(!state.terminal_pending);
    assert_eq!(state.workspace_name, "proj");
    let missing = serde_json::from_str(r#"{"hasAcceptButton":true,"hasRetryButton":false,"hasEnterButton":false,"agentWorking":true,"workspaceName":"proj"}"#).unwrap();
    assert!(AntigravityState::from_json(&missing).is_none());
    let wrong = serde_json::from_str(r#"{"hasAcceptButton":1,"hasRetryButton":false,"hasEnterButton":false,"agentWorking":true,"terminalPending":false,"workspaceName":"proj"}"#).unwrap();
    assert!(AntigravityState::from_json(&wrong).is_none());
}

#[test]
fn kinds_follow_the_type_name() {
    let kind = |name: &str| {
        WsMessage {
            msg_type: name.to_string(),
            payload: serde_json::Value::Null,
            id: String::new(),
        }
        .kind()
    };
    assert_eq!(kind("hello"), MessageKind::Hello);
    assert_eq!(kind("stateChanged"), MessageKind::StateChanged);
    assert_eq!(kind("state"), MessageKind::Response);
    assert_eq!(kind("result"), MessageKind::Response);
    assert_eq!(kind("error"), MessageKind::Response);
    assert_eq!(kind("pong"), MessageKind::Response);
    assert_eq!(kind("simulateEnter"), MessageKind::SimulateEnter);
    assert_eq!(kind("totallyUnknown"), MessageKind::Unknown);
    assert_eq!(kind("Hello"), MessageKind::Unknown);
    assert_eq!(kind(""), MessageKind::Unknown);
}

#[test]
fn frame_joins_the_parts() {
    assert_eq!(
        WsMessage::frame("\"t\"", "[1]", "\"i\""),
        r#"{"type":"t","payload":[1],"id":"i"}"#
    );
}

#[test]
fn workspace_label_is_empty_without_a_string_member() {
    let with = WsMessage::parse(r#"{"type":"simulateEnter","payload":{"workspaceName":"proj"},"id":"1"}"#).unwrap();
    assert_eq!(with.workspace_label(), "proj");
    let without = WsMessage::parse(r#"{"type":"simulateEnter","payload":{"workspaceName":false},"id":"1"}"#).unwrap();
    assert_eq!(without.workspace_label(), "");
}

#[test]
fn parse_keeps_the_payload_whole() {
    let msg = WsMessage::parse(r#"{"type":"x","payload":{"a":{"b":[true,"c"]}},"id":""}"#).unwrap();
    let expected: serde_json::Value = serde_json::from_str(r#"{"a":{"b":[true,"c"]}}"#).unwrap();
    assert_eq!(msg.payload, expected);
    assert_eq!(msg.id, "");
}
