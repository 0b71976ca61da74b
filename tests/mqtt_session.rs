use haviliar_iot::mqtt::{command_topic, publish_topic, MqttAction, MqttController, MqttEvent, MqttOutcome, MqttPhase, QualityOfService, SessionFault, RECEIVE_TIMEOUT_MS};
use rust_mqtt::packet::v5::reason_codes::ReasonCode;

fn established() -> MqttController {
    let mut s = MqttController::new("haviliar", "esp32-haviliar");
    assert_eq!(s.connect(), MqttAction::Connect);
    assert_eq!(s.on_event(MqttEvent::Connected(Ok(()))), MqttAction::Subscribe);
    assert_eq!(s.on_event(MqttEvent::Subscribed(Ok(()))), MqttAction::Complete(MqttOutcome::Established));
    assert_eq!(s.phase(), MqttPhase::Ready);
    s
}

#[test]
fn session_connects_and_subscribes() {
    let s = established();
    assert_eq!(s.client_id(), "esp32-haviliar");
    assert_eq!(s.main_topic(), "haviliar");
    assert_eq!(command_topic(), "esp32/open");
}

#[test]
fn connect_failure_is_reported_with_its_reason() {
    let mut s = MqttController::new("haviliar", "id");
    s.connect();
    assert_eq!(
        s.on_event(MqttEvent::Connected(Err(ReasonCode::NotAuthorized))),
        MqttAction::Complete(MqttOutcome::Fault(SessionFault::Connect(ReasonCode::NotAuthorized)))
    );
    assert_eq!(s.phase(), MqttPhase::Failed);
    assert_eq!(s.receive_message(), MqttAction::Complete(MqttOutcome::Fault(SessionFault::NotReady)));
}

#[test]
fn subscribe_failure_is_reported_with_its_reason() {
    let mut s = MqttController::new("haviliar", "id");
    s.connect();
    s.on_event(MqttEvent::Connected(Ok(())));
    assert_eq!(
        s.on_event(MqttEvent::Subscribed(Err(ReasonCode::TopicFilterInvalid))),
        MqttAction::Complete(MqttOutcome::Fault(SessionFault::Subscribe(ReasonCode::TopicFilterInvalid)))
    );
    assert_eq!(s.phase(), MqttPhase::Failed);
}

#[test]
fn receive_pings_first_and_times_out() {
    let mut s = established();
    assert_eq!(s.receive_message(), MqttAction::Ping);
    assert_eq!(s.on_event(MqttEvent::Pinged(Ok(()))), MqttAction::AwaitMessage { timeout_ms: 10_000 });
    assert_eq!(RECEIVE_TIMEOUT_MS, 10_000);
    assert_eq!(s.on_event(MqttEvent::ReceiveTimedOut), MqttAction::Complete(MqttOutcome::Fault(SessionFault::Timeout)));
    assert_eq!(s.phase(), MqttPhase::Ready);
}

#[test]
fn receive_waits_even_when_the_ping_fails() {
    let mut s = established();
    s.receive_message();
    assert_eq!(
        s.on_event(MqttEvent::Pinged(Err(ReasonCode::NetworkError))),
        MqttAction::AwaitMessage { timeout_ms: 10_000 }
    );
    assert_eq!(
        s.on_event(MqttEvent::ReceiveFailed(ReasonCode::MalformedPacket)),
        MqttAction::Complete(MqttOutcome::Fault(SessionFault::Receive(ReasonCode::MalformedPacket)))
    );
}

#[test]
fn received_message_is_delivered() {
    let mut s = established();
    s.receive_message();
    s.on_event(MqttEvent::Pinged(Ok(())));
    let ev = MqttEvent::Message { topic: "esp32/open".to_string(), payload: b"120".to_vec() };
    assert_eq!(
        s.on_event(ev),
        MqttAction::Complete(MqttOutcome::Message { topic: "esp32/open".to_string(), payload: b"120".to_vec() })
    );
}

#[test]
fn publish_goes_under_the_main_topic() {
    let mut s = established();
    assert_eq!(
        s.publish_message("status", b"up"),
        MqttAction::Publish {
            topic: "haviliar/status".to_string(),
            payload: b"up".to_vec(),
            qos: QualityOfService::AtLeastOnce,
            retain: false,
        }
    );
    assert_eq!(s.phase(), MqttPhase::Publishing);
    assert_eq!(s.send_ping(), MqttAction::Complete(MqttOutcome::Fault(SessionFault::NotReady)));
    assert_eq!(s.on_event(MqttEvent::Published(Ok(()))), MqttAction::Complete(MqttOutcome::Published));
    s.publish_message("x", b"");
    assert_eq!(
        s.on_event(MqttEvent::Published(Err(ReasonCode::QuotaExceeded))),
        MqttAction::Complete(MqttOutcome::Fault(SessionFault::Publish(ReasonCode::QuotaExceeded)))
    );
    assert_eq!(publish_topic("a/b", ""), "a/b/");
}

#[test]
fn keep_alive_ping_reports_its_answer() {
    let mut s = established();
    assert_eq!(s.send_ping(), MqttAction::Ping);
    assert_eq!(s.on_event(MqttEvent::Pinged(Ok(()))), MqttAction::Complete(MqttOutcome::PingAnswered));
    s.send_ping();
    assert_eq!(
        s.on_event(MqttEvent::Pinged(Err(ReasonCode::KeepAliveTimeout))),
        MqttAction::Complete(MqttOutcome::Fault(SessionFault::Ping(ReasonCode::KeepAliveTimeout)))
    );
    assert_eq!(s.on_event(MqttEvent::ReceiveTimedOut), MqttAction::Nothing);
}
