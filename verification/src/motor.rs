//! The dual-motor bridge: two motors, each with one register per direction
//! channel. A non-zero value in a channel drives the motor that way, so a
//! motor must never be left with both of its channels non-zero.

use crate::bus::{last_write, lemma_last_write_push, write_reg, CarI2c, RegisterWrite};
use vstd::prelude::*;

verus! {

/// Register of motor A's reverse channel.
pub const MOTOR_A_REVERSE: u8 = 0x01;

/// Register of motor A's forward channel.
pub const MOTOR_A_FORWARD: u8 = 0x02;

/// Register of motor B's forward channel.
pub const MOTOR_B_FORWARD: u8 = 0x03;

/// Register of motor B's reverse channel.
pub const MOTOR_B_REVERSE: u8 = 0x04;

/// Which way a motor turns.
#[derive(Clone, Copy, Debug, PartialEq, Eq, Structural)]
pub enum Direction {
    Forward,
    Backward,
}

/// The two motors of the bridge.
#[derive(Clone, Copy, Debug, PartialEq, Eq, Structural)]
pub enum Motor {
    A,
    B,
}

/// The register of `motor`'s channel for `direction`.
pub open spec fn channel(motor: Motor, direction: Direction) -> u8 {
    match (motor, direction) {
        (Motor::A, Direction::Forward) => MOTOR_A_FORWARD,
        (Motor::A, Direction::Backward) => MOTOR_A_REVERSE,
        (Motor::B, Direction::Forward) => MOTOR_B_FORWARD,
        (Motor::B, Direction::Backward) => MOTOR_B_REVERSE,
    }
}

/// The direction opposite to `direction`.
pub open spec fn opposite(direction: Direction) -> Direction {
    match direction {
        Direction::Forward => Direction::Backward,
        Direction::Backward => Direction::Forward,
    }
}

/// Whether `reg` is one of the four motor channels.
pub open spec fn is_channel(reg: u8) -> bool {
    MOTOR_A_REVERSE <= reg <= MOTOR_B_REVERSE
}

/// The writes of one `set`: `speed` into the channel that drives and zero
/// into the other channel of the same motor, lower register first.
pub open spec fn set_writes(speed: u8, motor: Motor, direction: Direction) -> Seq<RegisterWrite> {
    let drive = RegisterWrite { reg: channel(motor, direction), value: speed };
    let idle = RegisterWrite { reg: channel(motor, opposite(direction)), value: 0 };
    if drive.reg < idle.reg {
        seq![drive, idle]
    } else {
        seq![idle, drive]
    }
}

/// The writes of `stop`: zero into each channel, in register order.
pub open spec fn stop_writes() -> Seq<RegisterWrite> {
    seq![
        RegisterWrite { reg: MOTOR_A_REVERSE, value: 0 },
        RegisterWrite { reg: MOTOR_A_FORWARD, value: 0 },
        RegisterWrite { reg: MOTOR_B_FORWARD, value: 0 },
        RegisterWrite { reg: MOTOR_B_REVERSE, value: 0 },
    ]
}

/// Once `writes` are delivered, at least one channel of `motor` holds zero,
/// whatever the registers held before.
pub open spec fn bridge_safe(writes: Seq<RegisterWrite>, motor: Motor) -> bool {
    last_write(writes, channel(motor, Direction::Forward)) == Some(0u8) || last_write(
        writes,
        channel(motor, Direction::Backward),
    ) == Some(0u8)
}

/// What a `set` leaves in each register: the speed in the driving channel,
/// zero in the other channel of that motor, and every other register as the
/// earlier writes left it.
pub proof fn lemma_set_writes_effect(
    before: Seq<RegisterWrite>,
    speed: u8,
    motor: Motor,
    direction: Direction,
    reg: u8,
)
    ensures
        last_write(before + set_writes(speed, motor, direction), reg) == if reg == channel(
            motor,
            direction,
        ) {
            Some(speed)
        } else if reg == channel(motor, opposite(direction)) {
            Some(0u8)
        } else {
            last_write(before, reg)
        },
{
    let ws = set_writes(speed, motor, direction);
    assert(before + ws =~= before.push(ws[0]).push(ws[1]));
    lemma_last_write_push(before, ws[0], reg);
    lemma_last_write_push(before.push(ws[0]), ws[1], reg);
}

/// What a `stop` leaves in each register: zero in all four channels, and
/// every other register as the earlier writes left it.
pub proof fn lemma_stop_writes_effect(before: Seq<RegisterWrite>, reg: u8)
    ensures
        last_write(before + stop_writes(), reg) == if is_channel(reg) {
            Some(0u8)
        } else {
            last_write(before, reg)
        },
{
    let ws = stop_writes();
    let s1 = before.push(ws[0]);
    let s2 = s1.push(ws[1]);
    let s3 = s2.push(ws[2]);
    assert(before + ws =~= s3.push(ws[3]));
    lemma_last_write_push(before, ws[0], reg);
    lemma_last_write_push(s1, ws[1], reg);
    lemma_last_write_push(s2, ws[2], reg);
    lemma_last_write_push(s3, ws[3], reg);
}

/// A `set` makes its own motor safe whatever went before, and does not
/// disturb the other motor.
pub proof fn lemma_set_keeps_bridge_safe(
    before: Seq<RegisterWrite>,
    speed: u8,
    motor: Motor,
    direction: Direction,
    other: Motor,
)
    requires
        other == motor || bridge_safe(before, other),
    ensures
        bridge_safe(before + set_writes(speed, motor, direction), other),
{
    lemma_set_writes_effect(before, speed, motor, direction, channel(other, Direction::Forward));
    lemma_set_writes_effect(before, speed, motor, direction, channel(other, Direction::Backward));
}

/// A `stop` makes both motors safe whatever went before.
pub proof fn lemma_stop_makes_bridge_safe(before: Seq<RegisterWrite>, motor: Motor)
    ensures
        bridge_safe(before + stop_writes(), motor),
{
    lemma_stop_writes_effect(before, channel(motor, Direction::Forward));
}

/// Zeroes all four motor channels, whatever they held.
pub fn stop(i2c: &mut CarI2c)
    ensures
        final(i2c)@ == old(i2c)@ + stop_writes(),
        forall|reg: u8| is_channel(reg) ==> #[trigger] last_write(final(i2c)@, reg) == Some(0u8),
        forall|reg: u8| !is_channel(reg) ==> #[trigger] last_write(final(i2c)@, reg) == last_write(old(i2c)@, reg),
{
    write_reg(i2c, MOTOR_A_REVERSE, 0);
    write_reg(i2c, MOTOR_A_FORWARD, 0);
    write_reg(i2c, MOTOR_B_FORWARD, 0);
    write_reg(i2c, MOTOR_B_REVERSE, 0);
    proof {
        assert(i2c@ =~= old(i2c)@ + stop_writes());
        assert forall|reg: u8|
            last_write(i2c@, reg) == if is_channel(reg) {
                Some(0u8)
            } else {
                last_write(old(i2c)@, reg)
            } by {
            lemma_stop_writes_effect(old(i2c)@, reg);
        }
    }
}

/// Drives `motor` in `direction` at `speed`: the speed goes into the channel
/// for that direction and zero into the opposite channel, lower register
/// first, so the call never leaves the motor with both channels non-zero,
/// also for a speed of zero.
pub fn set(i2c: &mut CarI2c, speed: u8, motor: Motor, direction: Direction)
    ensures
        final(i2c)@ == old(i2c)@ + set_writes(speed, motor, direction),
        last_write(final(i2c)@, channel(motor, direction)) == Some(speed),
        last_write(final(i2c)@, channel(motor, opposite(direction))) == Some(0u8),
        forall|reg: u8|
            reg != channel(motor, Direction::Forward) && reg != channel(motor, Direction::Backward)
                ==> #[trigger] last_write(final(i2c)@, reg) == last_write(old(i2c)@, reg),
        bridge_safe(final(i2c)@, motor),
{
    match direction {
        Direction::Forward => match motor {
            Motor::A => {
                write_reg(i2c, MOTOR_A_REVERSE, 0);
                write_reg(i2c, MOTOR_A_FORWARD, speed);
            },
            Motor::B => {
                write_reg(i2c, MOTOR_B_FORWARD, speed);
                write_reg(i2c, MOTOR_B_REVERSE, 0);
            },
        },
        Direction::Backward => match motor {
            Motor::A => {
                write_reg(i2c, MOTOR_A_REVERSE, speed);
                write_reg(i2c, MOTOR_A_FORWARD, 0);
            },
            Motor::B => {
                write_reg(i2c, MOTOR_B_FORWARD, 0);
                write_reg(i2c, MOTOR_B_REVERSE, speed);
            },
        },
    }
    proof {
        assert(i2c@ =~= old(i2c)@ + set_writes(speed, motor, direction));
        assert forall|reg: u8|
            last_write(i2c@, reg) == if reg == channel(motor, direction) {
                Some(speed)
            } else if reg == channel(motor, opposite(direction)) {
                Some(0u8)
            } else {
                last_write(old(i2c)@, reg)
            } by {
            lemma_set_writes_effect(old(i2c)@, speed, motor, direction, reg);
        }
        assert(last_write(i2c@, channel(motor, opposite(direction))) == Some(0u8));
    }
}

} // verus!
