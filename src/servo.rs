//! Servo actuator: linear mapping from a commanded angle to a PWM duty value.

use vstd::prelude::*;
use crate::channel::{command_items, command_try_receive, receive_outcome, CommandQueue};
use crate::command::clamp_angle;

verus! {

/// Largest angle, in degrees, that the actuator accepts.
pub const MAX_ANGLE: u32 = 180;

/// Duty value for `deg` on a line from `min_duty` (0 degrees) rising by
/// `duty_gap` over 180 degrees, truncated to the 16-bit register width.
pub open spec fn duty_value(deg: nat, min_duty: nat, duty_gap: nat) -> int {
    ((min_duty + (deg * duty_gap) / 180) % 0x10000) as int
}

/// Maps an angle to a duty value: `min_duty + deg * duty_gap / 180`, kept to
/// its low 16 bits as the PWM channel register takes them.
pub fn duty_from_angle(deg: u32, min_duty: u32, duty_gap: u32) -> (r: u16)
    requires
        deg * duty_gap <= u32::MAX,
        min_duty + (deg * duty_gap) / 180 <= u32::MAX,
    ensures
        r as int == duty_value(deg as nat, min_duty as nat, duty_gap as nat),
{
    let scaled: u32 = deg * duty_gap;
    let duty: u32 = min_duty + scaled / 180;
    (duty % 0x10000) as u16
}

/// Duty value at 0 degrees: 2.5% of the full-scale duty.
pub open spec fn min_duty_of(max_duty_cycle: nat) -> nat {
    25 * max_duty_cycle / 1000
}

/// Duty value at 180 degrees: 12.5% of the full-scale duty.
pub open spec fn max_duty_of(max_duty_cycle: nat) -> nat {
    125 * max_duty_cycle / 1000
}

/// Duty value that positions a servo with full-scale duty `max_duty_cycle`
/// at `deg` degrees.
pub open spec fn servo_duty(max_duty_cycle: nat, deg: nat) -> int {
    min_duty_of(max_duty_cycle) + (deg * (max_duty_of(max_duty_cycle) - min_duty_of(
        max_duty_cycle,
    ))) / 180
}

/// A hobby servo on one PWM channel running at 50 Hz, where a 2.5% duty
/// holds 0 degrees and 12.5% holds 180 degrees.
///
/// The value computed here is what the firmware writes to the channel.
pub struct ServoMotor {
    max_duty_cycle: u16,
    angle: Option<u32>,
}

impl ServoMotor {
    /// Full-scale duty value of the channel.
    pub closed spec fn spec_max_duty_cycle(&self) -> nat {
        self.max_duty_cycle as nat
    }

    /// Last angle requested, if any.
    pub closed spec fn spec_angle(&self) -> Option<u32> {
        self.angle
    }

    /// A servo on a channel whose full-scale duty is `max_duty_cycle`, not
    /// yet positioned.
    pub fn new(max_duty_cycle: u16) -> (r: ServoMotor)
        ensures
            r.spec_max_duty_cycle() == max_duty_cycle as nat,
            r.spec_angle() is None,
    {
        ServoMotor { max_duty_cycle, angle: None }
    }

    /// Full-scale duty value of the channel.
    pub fn max_duty_cycle(&self) -> (r: u16)
        ensures
            r as nat == self.spec_max_duty_cycle(),
    {
        self.max_duty_cycle
    }

    /// Last angle requested, if any.
    pub fn angle(&self) -> (r: Option<u32>)
        ensures
            r == self.spec_angle(),
    {
        self.angle
    }

    /// Records `deg` as the servo's position and returns the duty value that
    /// holds it there.
    pub fn set_angle(&mut self, deg: u32) -> (duty: u16)
        requires
            deg <= MAX_ANGLE,
        ensures
            duty as int == servo_duty(old(self).spec_max_duty_cycle(), deg as nat),
            duty as int == duty_value(
                deg as nat,
                min_duty_of(old(self).spec_max_duty_cycle()),
                (max_duty_of(old(self).spec_max_duty_cycle()) - min_duty_of(
                    old(self).spec_max_duty_cycle(),
                )) as nat,
            ),
            final(self).spec_max_duty_cycle() == old(self).spec_max_duty_cycle(),
            final(self).spec_angle() == Some(deg),
    {
        let max: u32 = self.max_duty_cycle as u32;
        let min_duty: u32 = (25 * max) / 1000;
        let max_duty: u32 = (125 * max) / 1000;
        let duty_gap: u32 = max_duty - min_duty;
        proof {
            assert(deg * duty_gap <= 180 * duty_gap) by (nonlinear_arith)
                requires
                    deg <= 180,
            ;
            assert((deg * duty_gap) / 180 <= duty_gap) by (nonlinear_arith)
                requires
                    deg <= 180,
            ;
        }
        let duty = duty_from_angle(deg, min_duty, duty_gap);
        self.angle = Some(deg);
        duty
    }

    /// Moves to the open position, 45 degrees.
    pub fn open(&mut self) -> (duty: u16)
        ensures
            duty as int == servo_duty(old(self).spec_max_duty_cycle(), 45),
            final(self).spec_max_duty_cycle() == old(self).spec_max_duty_cycle(),
            final(self).spec_angle() == Some(45u32),
    {
        self.set_angle(45)
    }

    /// Moves to the closed position, 0 degrees.
    pub fn close(&mut self) -> (duty: u16)
        ensures
            duty as int == servo_duty(old(self).spec_max_duty_cycle(), 0),
            final(self).spec_max_duty_cycle() == old(self).spec_max_duty_cycle(),
            final(self).spec_angle() == Some(0u32),
    {
        self.set_angle(0)
    }
}

/// Interval between two polls of the command queue, and between two steps
/// of the start-up sweep, in milliseconds.
pub const SERVO_POLL_MS: u64 = 10;

/// Pause after each start-up sweep, in milliseconds.
pub const SWEEP_PAUSE_MS: u64 = 400;

/// Number of start-up sweeps across the full range.
pub const SWEEP_PASSES: u32 = 3;

/// Takes the oldest queued angle command, if any, and positions the servo
/// for it; returns the duty value to apply. An angle outside [0, 180] is
/// brought to the nearest end of the range.
pub fn next_servo_duty(queue: &mut CommandQueue, servo: &mut ServoMotor) -> (r: Option<u16>)
    ensures
        command_items(*final(queue)) == receive_outcome(command_items(*old(queue))).0,
        final(servo).spec_max_duty_cycle() == old(servo).spec_max_duty_cycle(),
        match receive_outcome(command_items(*old(queue))).1 {
            None => r is None && final(servo).spec_angle() == old(servo).spec_angle(),
            Some(a) => r matches Some(d) && d as int == servo_duty(
                old(servo).spec_max_duty_cycle(),
                clamp_angle(a as int) as nat,
            ) && final(servo).spec_angle() == Some(clamp_angle(a as int) as u32),
        },
{
    match command_try_receive(queue) {
        None => None,
        Some(a) => {
            let deg: u32 = if a < 0 {
                0
            } else if a > 180 {
                180
            } else {
                a as u32
            };
            Some(servo.set_angle(deg))
        },
    }
}

/// Where the servo task stands: sweeping the full range at start-up (pass
/// `pass`, next angle `deg`), or serving queued commands.
#[derive(Debug, Clone, Copy, PartialEq, Eq, Structural)]
pub enum ServoPhase {
    Sweep { pass: u32, deg: u32 },
    Serve,
}

/// What one step of the servo task does: the angle it positions the servo
/// at, if any, and how long it then waits.
pub open spec fn servo_phase_step(phase: ServoPhase) -> (ServoPhase, Option<u32>, u64) {
    match phase {
        ServoPhase::Sweep { pass, deg } => if pass >= SWEEP_PASSES {
            (ServoPhase::Serve, None, 0)
        } else if deg <= MAX_ANGLE {
            (ServoPhase::Sweep { pass, deg: (deg + 1) as u32 }, Some(deg), SERVO_POLL_MS)
        } else if pass + 1 >= SWEEP_PASSES {
            (ServoPhase::Serve, None, SWEEP_PAUSE_MS)
        } else {
            (ServoPhase::Sweep { pass: (pass + 1) as u32, deg: 0 }, None, SWEEP_PAUSE_MS)
        },
        ServoPhase::Serve => (ServoPhase::Serve, None, SERVO_POLL_MS),
    }
}

/// The servo task: a few sweeps across the full range to show the wiring
/// works, then an endless poll of the command queue.
pub struct ServoTask {
    phase: ServoPhase,
}

/// One step of the servo task: the duty value to apply, if any, and the
/// wait before the next step.
#[derive(Debug, Clone, Copy, PartialEq, Eq, Structural)]
pub struct ServoStep {
    pub duty: Option<u16>,
    pub wait_ms: u64,
}

impl ServoTask {
    /// Where the task stands.
    pub closed spec fn spec_phase(&self) -> ServoPhase {
        self.phase
    }

    /// A task about to start its first sweep.
    pub fn new() -> (r: ServoTask)
        ensures
            r.spec_phase() == (ServoPhase::Sweep { pass: 0, deg: 0 }),
    {
        ServoTask { phase: ServoPhase::Sweep { pass: 0, deg: 0 } }
    }

    /// Where the task stands.
    pub fn phase(&self) -> (r: ServoPhase)
        ensures
            r == self.spec_phase(),
    {
        self.phase
    }

    /// Runs one step: during the sweep, positions the servo at the next
    /// angle; once serving, applies the oldest queued command if there is
    /// one.
    pub fn step(&mut self, queue: &mut CommandQueue, servo: &mut ServoMotor) -> (r: ServoStep)
        ensures
            final(servo).spec_max_duty_cycle() == old(servo).spec_max_duty_cycle(),
            old(self).spec_phase() is Sweep ==> {
                let (next, angle, wait) = servo_phase_step(old(self).spec_phase());
                &&& final(self).spec_phase() == next
                &&& r.wait_ms == wait
                &&& command_items(*final(queue)) == command_items(*old(queue))
                &&& match angle {
                    None => r.duty is None && final(servo).spec_angle() == old(servo).spec_angle(),
                    Some(deg) => r.duty matches Some(d) && d as int == servo_duty(
                        old(servo).spec_max_duty_cycle(),
                        deg as nat,
                    ) && final(servo).spec_angle() == Some(deg),
                }
            },
            old(self).spec_phase() is Serve ==> {
                &&& final(self).spec_phase() == ServoPhase::Serve
                &&& r.wait_ms == SERVO_POLL_MS
                &&& command_items(*final(queue)) == receive_outcome(command_items(*old(queue))).0
                &&& match receive_outcome(command_items(*old(queue))).1 {
                    None => r.duty is None && final(servo).spec_angle() == old(servo).spec_angle(),
                    Some(a) => r.duty matches Some(d) && d as int == servo_duty(
                        old(servo).spec_max_duty_cycle(),
                        clamp_angle(a as int) as nat,
                    ) && final(servo).spec_angle() == Some(clamp_angle(a as int) as u32),
                }
            },
    {
        match self.phase {
            ServoPhase::Sweep { pass, deg } => {
                if pass >= SWEEP_PASSES {
                    self.phase = ServoPhase::Serve;
                    ServoStep { duty: None, wait_ms: 0 }
                } else if deg <= MAX_ANGLE {
                    let duty = servo.set_angle(deg);
                    self.phase = ServoPhase::Sweep { pass, deg: deg + 1 };
                    ServoStep { duty: Some(duty), wait_ms: SERVO_POLL_MS }
                } else if pass + 1 >= SWEEP_PASSES {
                    self.phase = ServoPhase::Serve;
                    ServoStep { duty: None, wait_ms: SWEEP_PAUSE_MS }
                } else {
                    self.phase = ServoPhase::Sweep { pass: pass + 1, deg: 0 };
                    ServoStep { duty: None, wait_ms: SWEEP_PAUSE_MS }
                }
            },
            ServoPhase::Serve => {
                let duty = next_servo_duty(queue, servo);
                ServoStep { duty, wait_ms: SERVO_POLL_MS }
            },
        }
    }
}

} // verus!
