use haviliar_iot::channel::FrameQueue;
use haviliar_iot::display::text_line_y;
use haviliar_iot::radio::{counter_frame, next_radio_job, queue_counter, radio_fault, LinkQuality, RadioAction, RadioEvent, RadioFault, RadioJob, RadioLinkConfig, RadioPhase, RadioReport, RadioTransaction};
use lora_phy::mod_params::{Bandwidth, CodingRate, RadioError, SpreadingFactor};

#[test]
fn oversized_payload_fails_before_transmitting() {
    let (mut tx, action) = RadioTransaction::send(256);
    assert_eq!(action, RadioAction::Finish(Err(RadioFault::PayloadTooLong(256))));
    assert_eq!(tx.phase(), RadioPhase::Done);
    assert_eq!(tx.on_event(RadioEvent::Prepared(Ok(()))), RadioAction::Idle);
    assert_eq!(tx.on_event(RadioEvent::Transmitted(Ok(()))), RadioAction::Idle);
}

#[test]
fn send_prepares_then_transmits() {
    let (mut tx, action) = RadioTransaction::send(255);
    assert_eq!(action, RadioAction::PrepareTx { power_dbm: 20 });
    assert_eq!(tx.on_event(RadioEvent::Prepared(Ok(()))), RadioAction::Transmit);
    assert_eq!(tx.on_event(RadioEvent::Transmitted(Ok(()))), RadioAction::Finish(Ok(RadioReport::Sent)));
    assert_eq!(tx.phase(), RadioPhase::Done);
}

#[test]
fn failed_preparation_is_not_transmitted() {
    let (mut tx, _) = RadioTransaction::send(4);
    assert_eq!(
        tx.on_event(RadioEvent::Prepared(Err(RadioError::Busy))),
        RadioAction::Finish(Err(RadioFault::Device(RadioError::Busy)))
    );
    assert_eq!(tx.on_event(RadioEvent::Prepared(Ok(()))), RadioAction::Idle);
}

#[test]
fn receive_reports_packet_or_timeout() {
    let (mut rx, action) = RadioTransaction::receive(1500);
    assert_eq!(action, RadioAction::PrepareRx);
    assert_eq!(rx.on_event(RadioEvent::Prepared(Ok(()))), RadioAction::AwaitPacket { timeout_ms: 1500 });
    let q = LinkQuality { rssi: -90, snr: 7 };
    assert_eq!(
        rx.on_event(RadioEvent::Received(Ok((12, q)))),
        RadioAction::Finish(Ok(RadioReport::Received { length: 12, quality: q }))
    );

    let (mut rx, _) = RadioTransaction::receive(1500);
    rx.on_event(RadioEvent::Prepared(Ok(())));
    assert_eq!(rx.on_event(RadioEvent::TimedOut), RadioAction::Finish(Err(RadioFault::Timeout)));

    let (mut rx, _) = RadioTransaction::receive(1500);
    rx.on_event(RadioEvent::Prepared(Ok(())));
    assert_eq!(
        rx.on_event(RadioEvent::Received(Err(RadioError::ReceiveTimeout))),
        RadioAction::Finish(Err(RadioFault::Timeout))
    );
}

#[test]
fn driver_errors_are_translated() {
    assert_eq!(radio_fault(RadioError::TransmitTimeout), RadioFault::Timeout);
    assert_eq!(radio_fault(RadioError::ReceiveTimeout), RadioFault::Timeout);
    assert_eq!(radio_fault(RadioError::PayloadSizeUnexpected(300)), RadioFault::PayloadTooLong(300));
    assert_eq!(radio_fault(RadioError::SPI), RadioFault::Device(RadioError::SPI));
}

#[test]
fn link_uses_one_modulation_in_both_directions() {
    let link = RadioLinkConfig::node_link();
    assert_eq!(link.modulation.spreading_factor, SpreadingFactor::_10);
    assert_eq!(link.modulation.bandwidth, Bandwidth::_250KHz);
    assert_eq!(link.modulation.coding_rate, CodingRate::_4_8);
    assert_eq!(link.modulation.frequency_in_hz, 903_900_000);
    assert_eq!(link.tx.modulation.frequency_in_hz, link.modulation.frequency_in_hz);
    assert_eq!(link.rx.modulation.spreading_factor, link.modulation.spreading_factor);
    assert_eq!(link.rx.max_payload_length, 255);
    assert_eq!(link.tx.max_payload_length, 0);
    assert_eq!(link.tx.preamble_length, 4);
    assert!(link.tx.crc_on && link.rx.crc_on);
    assert!(!link.tx.implicit_header && !link.rx.iq_inverted);
}

#[test]
fn counter_frame_is_little_endian_and_padded() {
    let frame = counter_frame(0x0403_0201);
    assert_eq!(frame.len(), 255);
    assert_eq!(&frame[..4], &[1, 2, 3, 4]);
    assert!(frame[4..].iter().all(|b| *b == 0));
    assert_eq!(&counter_frame(u32::MAX)[..5], &[255, 255, 255, 255, 0]);
}

#[test]
fn frame_queue_holds_ten_counters_in_order() {
    let mut q = FrameQueue::new();
    assert_eq!(next_radio_job(&mut q), RadioJob::Listen { window_ms: 1000 });
    for c in 0..10u32 {
        assert!(queue_counter(&mut q, c));
    }
    assert!(!queue_counter(&mut q, 10));
    assert_eq!(next_radio_job(&mut q), RadioJob::Send(counter_frame(0)));
    assert!(queue_counter(&mut q, 11));
    assert!(!queue_counter(&mut q, 12));
    for c in 1..10u32 {
        assert_eq!(next_radio_job(&mut q), RadioJob::Send(counter_frame(c)));
    }
    assert_eq!(next_radio_job(&mut q), RadioJob::Send(counter_frame(11)));
    assert_eq!(next_radio_job(&mut q), RadioJob::Listen { window_ms: 1000 });
}

#[test]
fn display_lines_are_ten_pixels_apart() {
    assert_eq!(text_line_y(1), 10);
    assert_eq!(text_line_y(3), 30);
    assert_eq!(text_line_y(0), 0);
}
