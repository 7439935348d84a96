//! The two indicator lamps. Each lamp has one PWM register per color
//! channel, and the PWM sink is active-low: 0 lights a channel fully, 255
//! turns it off.

use crate::bus::{last_write, lemma_last_write_push, write_reg, CarI2c, RegisterWrite};
use vstd::prelude::*;

verus! {

/// Red channel of the right lamp.
pub const RIGHT_RED: u8 = 0x08;

/// Green channel of the right lamp.
pub const RIGHT_GREEN: u8 = 0x07;

/// Blue channel of the right lamp.
pub const RIGHT_BLUE: u8 = 0x06;

/// Red channel of the left lamp.
pub const LEFT_RED: u8 = 0x0A;

/// Green channel of the left lamp.
pub const LEFT_GREEN: u8 = 0x09;

/// Blue channel of the left lamp.
pub const LEFT_BLUE: u8 = 0x05;

/// PWM value of a channel that is fully lit.
pub const CHANNEL_ON: u8 = 0;

/// PWM value of a channel that is off.
pub const CHANNEL_OFF: u8 = 255;

/// The eight colors a lamp can be asked for by name.
#[derive(Clone, Copy, Debug, PartialEq, Eq, Structural)]
pub enum LedColor {
    Red,
    Green,
    Blue,
    Cyan,
    Purple,
    White,
    Yellow,
    Black,
}

/// The lamps: `Led1` is the right one, `Led2` the left one.
#[derive(Clone, Copy, Debug, PartialEq, Eq, Structural)]
pub enum LedRgb {
    Led1,
    Led2,
}

/// Which of the red, green and blue channels a color lights.
pub open spec fn lit(color: LedColor) -> (bool, bool, bool) {
    match color {
        LedColor::Red => (true, false, false),
        LedColor::Green => (false, true, false),
        LedColor::Blue => (false, false, true),
        LedColor::Cyan => (false, true, true),
        LedColor::Purple => (true, false, true),
        LedColor::White => (true, true, true),
        LedColor::Yellow => (true, true, false),
        LedColor::Black => (false, false, false),
    }
}

/// The PWM value that lights a channel or turns it off.
pub open spec fn duty(on: bool) -> u8 {
    if on {
        CHANNEL_ON
    } else {
        CHANNEL_OFF
    }
}

/// The red, green and blue PWM values of a named color.
pub open spec fn pwm(color: LedColor) -> (u8, u8, u8) {
    (duty(lit(color).0), duty(lit(color).1), duty(lit(color).2))
}

/// The registers of a lamp's red, green and blue channels.
pub open spec fn channels(led: LedRgb) -> (u8, u8, u8) {
    match led {
        LedRgb::Led1 => (RIGHT_RED, RIGHT_GREEN, RIGHT_BLUE),
        LedRgb::Led2 => (LEFT_RED, LEFT_GREEN, LEFT_BLUE),
    }
}

/// Whether `reg` is one of the six PWM registers.
pub open spec fn is_pwm(reg: u8) -> bool {
    0x05 <= reg <= 0x0A
}

/// The writes that put `rgb` on a lamp: red, then green, then blue.
pub open spec fn rgb_writes(led: LedRgb, rgb: (u8, u8, u8)) -> Seq<RegisterWrite> {
    seq![
        RegisterWrite { reg: channels(led).0, value: rgb.0 },
        RegisterWrite { reg: channels(led).1, value: rgb.1 },
        RegisterWrite { reg: channels(led).2, value: rgb.2 },
    ]
}

/// The writes of `disable`: every channel of both lamps off, right lamp
/// first, each lamp in the order red, blue, green.
pub open spec fn disable_writes() -> Seq<RegisterWrite> {
    seq![
        RegisterWrite { reg: RIGHT_RED, value: CHANNEL_OFF },
        RegisterWrite { reg: RIGHT_BLUE, value: CHANNEL_OFF },
        RegisterWrite { reg: RIGHT_GREEN, value: CHANNEL_OFF },
        RegisterWrite { reg: LEFT_RED, value: CHANNEL_OFF },
        RegisterWrite { reg: LEFT_BLUE, value: CHANNEL_OFF },
        RegisterWrite { reg: LEFT_GREEN, value: CHANNEL_OFF },
    ]
}

/// The color table, row by row: red, green and blue PWM values of each
/// named color, with 0 for a lit channel and 255 for a dark one.
pub proof fn lemma_color_table()
    ensures
        pwm(LedColor::Red) == (0u8, 255u8, 255u8),
        pwm(LedColor::Green) == (255u8, 0u8, 255u8),
        pwm(LedColor::Blue) == (255u8, 255u8, 0u8),
        pwm(LedColor::Cyan) == (255u8, 0u8, 0u8),
        pwm(LedColor::Purple) == (0u8, 255u8, 0u8),
        pwm(LedColor::White) == (0u8, 0u8, 0u8),
        pwm(LedColor::Yellow) == (0u8, 0u8, 255u8),
        pwm(LedColor::Black) == (255u8, 255u8, 255u8),
{
}

/// What putting `rgb` on a lamp leaves in each register: the three values in
/// that lamp's channels, and every other register as the earlier writes left
/// it.
pub proof fn lemma_rgb_writes_effect(
    before: Seq<RegisterWrite>,
    led: LedRgb,
    rgb: (u8, u8, u8),
    reg: u8,
)
    ensures
        last_write(before + rgb_writes(led, rgb), reg) == if reg == channels(led).0 {
            Some(rgb.0)
        } else if reg == channels(led).1 {
            Some(rgb.1)
        } else if reg == channels(led).2 {
            Some(rgb.2)
        } else {
            last_write(before, reg)
        },
{
    let ws = rgb_writes(led, rgb);
    let s1 = before.push(ws[0]);
    let s2 = s1.push(ws[1]);
    assert(before + ws =~= s2.push(ws[2]));
    lemma_last_write_push(before, ws[0], reg);
    lemma_last_write_push(s1, ws[1], reg);
    lemma_last_write_push(s2, ws[2], reg);
}

/// What `disable` leaves in each register: 255 in all six PWM registers, and
/// every other register as the earlier writes left it.
pub proof fn lemma_disable_writes_effect(before: Seq<RegisterWrite>, reg: u8)
    ensures
        last_write(before + disable_writes(), reg) == if is_pwm(reg) {
            Some(CHANNEL_OFF)
        } else {
            last_write(before, reg)
        },
{
    let ws = disable_writes();
    let s1 = before.push(ws[0]);
    let s2 = s1.push(ws[1]);
    let s3 = s2.push(ws[2]);
    let s4 = s3.push(ws[3]);
    let s5 = s4.push(ws[4]);
    assert(before + ws =~= s5.push(ws[5]));
    lemma_last_write_push(before, ws[0], reg);
    lemma_last_write_push(s1, ws[1], reg);
    lemma_last_write_push(s2, ws[2], reg);
    lemma_last_write_push(s3, ws[3], reg);
    lemma_last_write_push(s4, ws[4], reg);
    lemma_last_write_push(s5, ws[5], reg);
}

/// Setting both lamps to black, in either order, leaves every register
/// exactly as `disable` does: the six PWM registers hold 255 and no other
/// register is touched.
pub proof fn lemma_black_equals_disable(
    before: Seq<RegisterWrite>,
    first: LedRgb,
    second: LedRgb,
    reg: u8,
)
    requires
        first != second,
    ensures
        last_write(
            before + rgb_writes(first, pwm(LedColor::Black)) + rgb_writes(
                second,
                pwm(LedColor::Black),
            ),
            reg,
        ) == last_write(before + disable_writes(), reg),
        is_pwm(reg) ==> last_write(before + disable_writes(), reg) == Some(255u8),
{
    let black = pwm(LedColor::Black);
    lemma_rgb_writes_effect(before, first, black, reg);
    lemma_rgb_writes_effect(before + rgb_writes(first, black), second, black, reg);
    lemma_disable_writes_effect(before, reg);
}

/// Looks up the PWM triple of a named color.
pub fn color_to_pwm(color: LedColor) -> (rgb: (u8, u8, u8))
    ensures
        rgb == pwm(color),
{
    match color {
        LedColor::Red => (0, 255, 255),
        LedColor::Green => (255, 0, 255),
        LedColor::Blue => (255, 255, 0),
        LedColor::Cyan => (255, 0, 0),
        LedColor::Purple => (0, 255, 0),
        LedColor::White => (0, 0, 0),
        LedColor::Yellow => (0, 0, 255),
        LedColor::Black => (255, 255, 255),
    }
}

/// Shows a named color on a lamp: three writes, red, green, blue, with the
/// color's PWM values.
pub fn set_color(i2c: &mut CarI2c, led: LedRgb, color: LedColor)
    ensures
        final(i2c)@ == old(i2c)@ + rgb_writes(led, pwm(color)),
        last_write(final(i2c)@, channels(led).0) == Some(duty(lit(color).0)),
        last_write(final(i2c)@, channels(led).1) == Some(duty(lit(color).1)),
        last_write(final(i2c)@, channels(led).2) == Some(duty(lit(color).2)),
        forall|reg: u8|
            reg != channels(led).0 && reg != channels(led).1 && reg != channels(led).2
                ==> #[trigger] last_write(final(i2c)@, reg) == last_write(old(i2c)@, reg),
{
    set_rgb(i2c, led, color_to_pwm(color));
}

/// Puts raw PWM values on a lamp: three writes, red, green, blue.
pub fn set_rgb(i2c: &mut CarI2c, led: LedRgb, rgb: (u8, u8, u8))
    ensures
        final(i2c)@ == old(i2c)@ + rgb_writes(led, rgb),
        last_write(final(i2c)@, channels(led).0) == Some(rgb.0),
        last_write(final(i2c)@, channels(led).1) == Some(rgb.1),
        last_write(final(i2c)@, channels(led).2) == Some(rgb.2),
        forall|reg: u8|
            reg != channels(led).0 && reg != channels(led).1 && reg != channels(led).2
                ==> #[trigger] last_write(final(i2c)@, reg) == last_write(old(i2c)@, reg),
{
    let (r, g, b) = rgb;
    match led {
        LedRgb::Led1 => {
            write_reg(i2c, RIGHT_RED, r);
            write_reg(i2c, RIGHT_GREEN, g);
            write_reg(i2c, RIGHT_BLUE, b);
        },
        LedRgb::Led2 => {
            write_reg(i2c, LEFT_RED, r);
            write_reg(i2c, LEFT_GREEN, g);
            write_reg(i2c, LEFT_BLUE, b);
        },
    }
    proof {
        assert(i2c@ =~= old(i2c)@ + rgb_writes(led, rgb));
        assert forall|reg: u8|
            last_write(i2c@, reg) == if reg == channels(led).0 {
                Some(rgb.0)
            } else if reg == channels(led).1 {
                Some(rgb.1)
            } else if reg == channels(led).2 {
                Some(rgb.2)
            } else {
                last_write(old(i2c)@, reg)
            } by {
            lemma_rgb_writes_effect(old(i2c)@, led, rgb, reg);
        }
        assert(last_write(i2c@, channels(led).0) == Some(rgb.0));
        assert(last_write(i2c@, channels(led).1) == Some(rgb.1));
        assert(last_write(i2c@, channels(led).2) == Some(rgb.2));
    }
}

/// Turns both lamps off: 255 into each of the six PWM registers.
pub fn disable(i2c: &mut CarI2c)
    ensures
        final(i2c)@ == old(i2c)@ + disable_writes(),
        forall|reg: u8| is_pwm(reg) ==> #[trigger] last_write(final(i2c)@, reg) == Some(255u8),
        forall|reg: u8| !is_pwm(reg) ==> #[trigger] last_write(final(i2c)@, reg) == last_write(old(i2c)@, reg),
{
    write_reg(i2c, RIGHT_RED, CHANNEL_OFF);
    write_reg(i2c, RIGHT_BLUE, CHANNEL_OFF);
    write_reg(i2c, RIGHT_GREEN, CHANNEL_OFF);
    write_reg(i2c, LEFT_RED, CHANNEL_OFF);
    write_reg(i2c, LEFT_BLUE, CHANNEL_OFF);
    write_reg(i2c, LEFT_GREEN, CHANNEL_OFF);
    proof {
        assert(i2c@ =~= old(i2c)@ + disable_writes());
        assert forall|reg: u8|
            last_write(i2c@, reg) == if is_pwm(reg) {
                Some(CHANNEL_OFF)
            } else {
                last_write(old(i2c)@, reg)
            } by {
            lemma_disable_writes_effect(old(i2c)@, reg);
        }
    }
}

} // verus!
