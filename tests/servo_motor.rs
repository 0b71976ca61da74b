use haviliar_iot::channel::CommandQueue;
use haviliar_iot::command::handle_angle_payload;
use haviliar_iot::servo::{duty_from_angle, ServoMotor, ServoPhase, ServoStep, ServoTask};

#[test]
fn duty_from_angle_is_linear() {
    assert_eq!(duty_from_angle(0, 102, 410), 102);
    assert_eq!(duty_from_angle(90, 102, 410), 307);
    assert_eq!(duty_from_angle(180, 102, 410), 512);
}

#[test]
fn duty_from_angle_keeps_low_sixteen_bits() {
    assert_eq!(duty_from_angle(0, 70000, 0), 4464);
}

#[test]
fn servo_duty_spans_two_and_a_half_to_twelve_and_a_half_percent() {
    let mut servo = ServoMotor::new(4095);
    assert_eq!(servo.angle(), None);
    assert_eq!(servo.set_angle(0), 102);
    assert_eq!(servo.set_angle(180), 511);
    assert_eq!(servo.set_angle(90), 306);
    assert_eq!(servo.angle(), Some(90));
    assert_eq!(servo.max_duty_cycle(), 4095);
}

#[test]
fn servo_open_and_close_positions() {
    let mut servo = ServoMotor::new(4095);
    assert_eq!(servo.open(), 204);
    assert_eq!(servo.angle(), Some(45));
    assert_eq!(servo.close(), 102);
    assert_eq!(servo.angle(), Some(0));
}

#[test]
fn servo_task_sweeps_then_serves_the_queue() {
    let mut task = ServoTask::new();
    let mut queue = CommandQueue::new();
    let mut servo = ServoMotor::new(4095);
    handle_angle_payload(b"90", &mut queue);
    for pass in 0..3u32 {
        for deg in 0..=180u32 {
            assert_eq!(task.phase(), ServoPhase::Sweep { pass, deg });
            let step = task.step(&mut queue, &mut servo);
            assert_eq!(step.wait_ms, 10);
            assert!(step.duty.is_some());
            assert_eq!(servo.angle(), Some(deg));
        }
        let pause = task.step(&mut queue, &mut servo);
        assert_eq!(pause, ServoStep { duty: None, wait_ms: 400 });
    }
    assert_eq!(task.phase(), ServoPhase::Serve);
    let step = task.step(&mut queue, &mut servo);
    assert_eq!(step, ServoStep { duty: Some(306), wait_ms: 10 });
    let idle = task.step(&mut queue, &mut servo);
    assert_eq!(idle, ServoStep { duty: None, wait_ms: 10 });
}
