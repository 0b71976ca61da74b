use haviliar_iot::wifi::{LinkFault, WifiAction, WifiEvent, WifiPhase, WifiStation};

fn station() -> WifiStation {
    WifiStation::new("field-net", "correct-horse-battery").unwrap()
}

#[test]
fn station_connects_then_recovers_after_cooldown() {
    let mut st = station();
    assert_eq!(st.state().phase, WifiPhase::Idle);
    assert_eq!(st.start(), WifiAction::ApplyConfiguration);
    assert_eq!(st.state().phase, WifiPhase::Configuring);
    assert_eq!(st.on_event(WifiEvent::ConfigApplied), WifiAction::StartRadio);
    assert_eq!(st.state().phase, WifiPhase::Starting);
    assert_eq!(st.on_event(WifiEvent::Started), WifiAction::Connect);
    assert_eq!(st.state().phase, WifiPhase::Connecting);
    assert_eq!(st.on_event(WifiEvent::Connected), WifiAction::WaitForDisconnect);
    assert_eq!(st.state().phase, WifiPhase::Connected);
    assert_eq!(st.on_event(WifiEvent::Disconnected), WifiAction::Wait { ms: 5000 });
    assert_eq!(st.state().phase, WifiPhase::Cooldown);
    assert_eq!(st.last_fault(), Some(LinkFault::Disconnected));
    assert_eq!(st.on_event(WifiEvent::Connected), WifiAction::Nothing);
    assert_eq!(st.state().phase, WifiPhase::Cooldown);
    assert_eq!(st.on_event(WifiEvent::CooldownElapsed), WifiAction::Connect);
    assert_eq!(st.state().phase, WifiPhase::Connecting);
}

#[test]
fn failed_connect_waits_and_retries_without_limit() {
    let mut st = station();
    st.start();
    st.on_event(WifiEvent::ConfigApplied);
    st.on_event(WifiEvent::Started);
    for _ in 0..5 {
        assert_eq!(st.on_event(WifiEvent::ConnectFailed), WifiAction::Wait { ms: 5000 });
        assert_eq!(st.last_fault(), Some(LinkFault::Connect));
        assert_eq!(st.on_event(WifiEvent::CooldownElapsed), WifiAction::Connect);
    }
    assert!(st.state().started);
}

#[test]
fn failed_start_goes_back_to_configuration() {
    let mut st = station();
    st.start();
    assert_eq!(st.on_event(WifiEvent::ConfigApplied), WifiAction::StartRadio);
    assert_eq!(st.on_event(WifiEvent::StartFailed), WifiAction::Wait { ms: 5000 });
    assert_eq!(st.last_fault(), Some(LinkFault::Start));
    assert_eq!(st.on_event(WifiEvent::CooldownElapsed), WifiAction::ApplyConfiguration);
    assert_eq!(st.on_event(WifiEvent::ConfigRejected), WifiAction::Wait { ms: 5000 });
    assert_eq!(st.last_fault(), Some(LinkFault::Configure));
}

#[test]
fn start_only_leaves_idle() {
    let mut st = station();
    assert_eq!(st.start(), WifiAction::ApplyConfiguration);
    assert_eq!(st.start(), WifiAction::Nothing);
    assert_eq!(st.state().phase, WifiPhase::Configuring);
}

#[test]
fn credentials_are_checked() {
    assert_eq!(WifiStation::new("", "pw").err(), Some(LinkFault::InvalidCredentials));
    let long_ssid = "s".repeat(33);
    assert_eq!(WifiStation::new(&long_ssid, "pw").err(), Some(LinkFault::InvalidCredentials));
    let long_password = "p".repeat(65);
    assert_eq!(WifiStation::new("net", &long_password).err(), Some(LinkFault::InvalidCredentials));
    let st = WifiStation::new(&"s".repeat(32), &"p".repeat(64)).unwrap();
    assert_eq!(st.ssid().len(), 32);
    assert_eq!(st.password().len(), 64);
    let open = WifiStation::new("café", "").unwrap();
    assert_eq!(open.ssid(), "café");
    assert_eq!(open.password(), "");
}
