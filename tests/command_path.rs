use haviliar_iot::command::{angle_from_text, handle_angle_payload, parse_angle_command, parse_i16, CommandOutcome};
use haviliar_iot::channel::CommandQueue;
use haviliar_iot::servo::{next_servo_duty, ServoMotor};

#[test]
fn angle_above_range_is_clamped_to_180() {
    assert_eq!(parse_angle_command(b"200"), Some(180));
}

#[test]
fn negative_angle_is_clamped_to_0() {
    assert_eq!(parse_angle_command(b"-5"), Some(0));
}

#[test]
fn non_numeric_payload_is_rejected() {
    assert_eq!(parse_angle_command(b"abc"), None);
    let mut queue = CommandQueue::new();
    assert_eq!(handle_angle_payload(b"abc", &mut queue), CommandOutcome::Rejected);
    let mut servo = ServoMotor::new(4095);
    assert_eq!(next_servo_duty(&mut queue, &mut servo), None);
}

#[test]
fn angle_in_range_is_kept() {
    assert_eq!(parse_angle_command(b"90"), Some(90));
    assert_eq!(parse_angle_command(b"0"), Some(0));
    assert_eq!(parse_angle_command(b"180"), Some(180));
    assert_eq!(parse_angle_command(b"+45"), Some(45));
    assert_eq!(parse_angle_command(b"007"), Some(7));
}

#[test]
fn surrounding_white_space_is_ignored() {
    assert_eq!(parse_angle_command(b"  90\r\n"), Some(90));
    assert_eq!(parse_angle_command("\u{a0}42\u{3000}".as_bytes()), Some(42));
    assert_eq!(angle_from_text("\t120 "), Some(120));
}

#[test]
fn malformed_numbers_are_rejected() {
    assert_eq!(parse_angle_command(b""), None);
    assert_eq!(parse_angle_command(b"   "), None);
    assert_eq!(parse_angle_command(b"-"), None);
    assert_eq!(parse_angle_command(b"+"), None);
    assert_eq!(parse_angle_command(b"4 2"), None);
    assert_eq!(parse_angle_command(b"12a"), None);
    assert_eq!(parse_angle_command(b"--5"), None);
}

#[test]
fn values_outside_i16_are_rejected() {
    assert_eq!(parse_angle_command(b"32768"), None);
    assert_eq!(parse_angle_command(b"-32769"), None);
    assert_eq!(parse_angle_command(b"99999999999999999999"), None);
    assert_eq!(parse_angle_command(b"32767"), Some(180));
    assert_eq!(parse_angle_command(b"-32768"), Some(0));
}

#[test]
fn invalid_utf8_is_rejected() {
    assert_eq!(parse_angle_command(&[0xff, 0x31]), None);
    assert_eq!(parse_angle_command(&[0x31, 0xc3]), None);
}

#[test]
fn parse_i16_reads_the_full_range() {
    assert_eq!(parse_i16("32767"), Some(32767));
    assert_eq!(parse_i16("-32768"), Some(-32768));
    assert_eq!(parse_i16("-0"), Some(0));
    assert_eq!(parse_i16("32768"), None);
    assert_eq!(parse_i16(" 1"), None);
    assert_eq!(parse_i16("١"), None);
}

#[test]
fn full_command_queue_drops_new_commands_and_keeps_order() {
    let mut queue = CommandQueue::new();
    assert_eq!(handle_angle_payload(b"10", &mut queue), CommandOutcome::Queued(10));
    assert_eq!(handle_angle_payload(b"20", &mut queue), CommandOutcome::Queued(20));
    assert_eq!(handle_angle_payload(b"30", &mut queue), CommandOutcome::Queued(30));
    assert_eq!(handle_angle_payload(b"400", &mut queue), CommandOutcome::Queued(180));
    assert_eq!(handle_angle_payload(b"50", &mut queue), CommandOutcome::Dropped(50));

    let mut servo = ServoMotor::new(4095);
    // 2.5% of 4095 is 102, 12.5% is 511: 409 duty steps over 180 degrees.
    assert_eq!(next_servo_duty(&mut queue, &mut servo), Some(102 + 10 * 409 / 180));
    assert_eq!(servo.angle(), Some(10));

    assert_eq!(handle_angle_payload(b"60", &mut queue), CommandOutcome::Queued(60));
    assert_eq!(handle_angle_payload(b"70", &mut queue), CommandOutcome::Dropped(70));

    assert_eq!(next_servo_duty(&mut queue, &mut servo), Some(102 + 20 * 409 / 180));
    assert_eq!(next_servo_duty(&mut queue, &mut servo), Some(102 + 30 * 409 / 180));
    assert_eq!(next_servo_duty(&mut queue, &mut servo), Some(511));
    assert_eq!(next_servo_duty(&mut queue, &mut servo), Some(102 + 60 * 409 / 180));
    assert_eq!(servo.angle(), Some(60));
    assert_eq!(next_servo_duty(&mut queue, &mut servo), None);
    assert_eq!(servo.angle(), Some(60));
}

#[test]
fn interleaved_commands_come_out_in_order_without_loss() {
    let mut queue = CommandQueue::new();
    let mut servo = ServoMotor::new(4095);
    let mut applied = Vec::new();
    assert_eq!(handle_angle_payload(b"10", &mut queue), CommandOutcome::Queued(10));
    assert_eq!(handle_angle_payload(b"20", &mut queue), CommandOutcome::Queued(20));
    next_servo_duty(&mut queue, &mut servo);
    applied.push(servo.angle());
    for p in [&b"30"[..], b"40", b"50"] {
        assert!(matches!(handle_angle_payload(p, &mut queue), CommandOutcome::Queued(_)));
    }
    assert_eq!(handle_angle_payload(b"60", &mut queue), CommandOutcome::Dropped(60));
    while next_servo_duty(&mut queue, &mut servo).is_some() {
        applied.push(servo.angle());
    }
    assert_eq!(applied, vec![Some(10), Some(20), Some(30), Some(40), Some(50)]);
}
