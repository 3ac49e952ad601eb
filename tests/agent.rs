use device_agent::agent::{command_topic, status_topic, handle_command, send_status, Action, Agent, Qos, TransportEvent};
use device_agent::command::ControlCommand;
use device_agent::status::StatusMessage;

fn publish_event(topic: &str, payload: &str) -> TransportEvent {
    TransportEvent::Publish { topic: topic.to_string(), payload: payload.as_bytes().to_vec() }
}

fn expect_publish(action: Action) -> (String, Qos, StatusMessage, String) {
    match action {
        Action::Publish { topic, qos, message, payload } => (topic, qos, message, payload),
        other => panic!("expected a status publish, got {:?}", other),
    }
}

#[test]
fn topics_follow_device_id() {
    assert_eq!(command_topic("demo_device"), "devices/demo_device/commands");
    assert_eq!(status_topic("demo_device"), "devices/demo_device/status");
    assert_eq!(command_topic(""), "devices//commands");
}

#[test]
fn bootstrap_subscribes_then_announces_online() {
    let (agent, actions) = Agent::start("demo_device".to_string());
    assert_eq!(actions.len(), 2);
    let mut it = actions.into_iter();
    match it.next().unwrap() {
        Action::Subscribe { topic, qos } => {
            assert_eq!(topic, "devices/demo_device/commands");
            assert_eq!(qos, Qos::AtMostOnce);
        }
        other => panic!("expected a subscription, got {:?}", other),
    }
    let (topic, qos, message, payload) = expect_publish(it.next().unwrap());
    assert_eq!(topic, "devices/demo_device/status");
    assert_eq!(qos, Qos::AtLeastOnce);
    assert_eq!(message.status, "online");
    assert_eq!(message.details.as_deref(), Some("demo_device"));
    assert_eq!(payload, r#"{"status":"online","details":"demo_device"}"#);
    assert_eq!(agent.device_id(), "demo_device");
    assert_eq!(agent.command_topic(), "devices/demo_device/commands");
    assert_eq!(agent.status_topic(), "devices/demo_device/status");
}

#[test]
fn session_publishes_online_only_once() {
    let (agent, actions) = Agent::start("dev".to_string());
    let mut online = actions
        .into_iter()
        .filter(|a| matches!(a, Action::Publish { message, .. } if message.status == "online"))
        .count();
    for p in [r#"{"command":"ping"}"#, r#"{"command":"stop_streaming"}"#, r#"{"command":"online"}"#] {
        if let Action::Publish { message, .. } = agent.on_event(publish_event("devices/dev/commands", p)) {
            if message.status == "online" {
                online += 1;
            }
        }
    }
    assert_eq!(online, 1);
}

#[test]
fn ping_is_answered_with_pong() {
    let (agent, _) = Agent::start("demo_device".to_string());
    let action = agent.on_event(publish_event("devices/demo_device/commands", r#"{"command":"ping"}"#));
    let (topic, qos, message, payload) = expect_publish(action);
    assert_eq!(topic, "devices/demo_device/status");
    assert_eq!(qos, Qos::AtLeastOnce);
    assert_eq!(message.status, "pong");
    assert_eq!(payload, r#"{"status":"pong","details":"demo_device"}"#);
}

#[test]
fn unknown_command_is_reported_not_answered() {
    let (agent, _) = Agent::start("demo_device".to_string());
    let body = r#"{"command":"unknown_x"}"#;
    match agent.on_event(publish_event("devices/demo_device/commands", body)) {
        Action::ReportUndecodable { payload } => assert_eq!(payload, body.as_bytes()),
        other => panic!("expected a decode failure, got {:?}", other),
    }
}

#[test]
fn start_streaming_ignores_params() {
    let (agent, _) = Agent::start("demo_device".to_string());
    let with = agent.on_event(publish_event(
        "devices/demo_device/commands",
        r#"{"command":"start_streaming","params":{"fps":30}}"#,
    ));
    let without = agent.on_event(publish_event("devices/demo_device/commands", r#"{"command":"start_streaming"}"#));
    let (_, _, _, with_payload) = expect_publish(with);
    let (_, _, _, without_payload) = expect_publish(without);
    assert_eq!(with_payload, r#"{"status":"streaming_started","details":"demo_device"}"#);
    assert_eq!(with_payload, without_payload);
}

#[test]
fn stop_streaming_is_answered() {
    let (agent, _) = Agent::start("demo_device".to_string());
    let action = agent.on_event(publish_event("anything", r#"{"command":"stop_streaming"}"#));
    let (_, _, _, payload) = expect_publish(action);
    assert_eq!(payload, r#"{"status":"streaming_stopped","details":"demo_device"}"#);
}

#[test]
fn other_events_and_errors() {
    let (agent, _) = Agent::start("d".to_string());
    assert!(matches!(agent.on_event(TransportEvent::Other), Action::Idle));
    match agent.on_event(TransportEvent::Error { description: "connection refused".to_string() }) {
        Action::ReportTransportError { description } => assert_eq!(description, "connection refused"),
        other => panic!("expected a transport error report, got {:?}", other),
    }
    assert!(matches!(
        agent.on_event(publish_event("t", "not json")),
        Action::ReportUndecodable { .. }
    ));
}

#[test]
fn handle_command_uses_details_for_every_command() {
    // Every answer carries the given details (the device id in a session),
    // not an outcome of the command: current behaviour, likely not intended.
    let cases = [
        (ControlCommand::Ping, "pong"),
        (ControlCommand::StopStreaming, "streaming_stopped"),
        (ControlCommand::StartStreaming { params: None }, "streaming_started"),
    ];
    for (cmd, status) in cases {
        let (topic, qos, message, _) = expect_publish(handle_command(cmd, "s/t", "id-7"));
        assert_eq!(topic, "s/t");
        assert_eq!(qos, Qos::AtLeastOnce);
        assert_eq!(message, StatusMessage { status: status.to_string(), details: Some("id-7".to_string()) });
    }
}

#[test]
fn send_status_without_details_writes_null() {
    let (topic, _, message, payload) = expect_publish(send_status("x/status", "online", None));
    assert_eq!(topic, "x/status");
    assert_eq!(message.details, None);
    assert_eq!(payload, r#"{"status":"online","details":null}"#);
}
