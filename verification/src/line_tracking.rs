//! The line-sensor decoder: two digital levels, sampled once, classified
//! into where the line lies. There is no debounce and no history.

use vstd::prelude::*;

verus! {

/// Where the line lies under the two sensors. `Unknown` stands for a code
/// outside the two-bit encoding; no pair of levels decodes to it.
#[derive(Clone, Copy, Debug, PartialEq, Eq, Structural)]
pub enum LineTrackingSensor {
    Both,
    Left,
    Right,
    Neither,
    Unknown,
}

/// The two-bit code of a pair of levels: the left level in bit 0, the right
/// level in bit 1.
pub open spec fn level_code(left_high: bool, right_high: bool) -> u8 {
    ((if left_high { 1int } else { 0int }) + (if right_high { 2int } else { 0int })) as u8
}

/// The classification of a code.
pub open spec fn decode(code: u8) -> LineTrackingSensor {
    if code == 0 {
        LineTrackingSensor::Both
    } else if code == 1 {
        LineTrackingSensor::Left
    } else if code == 2 {
        LineTrackingSensor::Right
    } else if code == 3 {
        LineTrackingSensor::Neither
    } else {
        LineTrackingSensor::Unknown
    }
}

/// Encodes the two levels into their two-bit code.
pub fn linetracking(left_high: bool, right_high: bool) -> (code: u8)
    ensures
        code == level_code(left_high, right_high),
        code <= 3,
{
    let left: u8 = if left_high { 1 } else { 0 };
    let right: u8 = if right_high { 1 } else { 0 };
    let code: u8 = left | (right << 1);
    assert(code == left + 2 * right) by (bit_vector)
        requires
            left <= 1,
            right <= 1,
            code == left | (right << 1),
    ;
    code
}

/// Classifies a code; anything above 3 is `Unknown`.
pub fn classify(code: u8) -> (state: LineTrackingSensor)
    ensures
        state == decode(code),
        state is Unknown <==> code > 3,
{
    match code {
        0 => LineTrackingSensor::Both,
        1 => LineTrackingSensor::Left,
        2 => LineTrackingSensor::Right,
        3 => LineTrackingSensor::Neither,
        _ => LineTrackingSensor::Unknown,
    }
}

/// Classifies one sample of the left and right sensor levels.
pub fn read(left_high: bool, right_high: bool) -> (state: LineTrackingSensor)
    ensures
        state == decode(level_code(left_high, right_high)),
        !left_high && !right_high ==> state is Both,
        left_high && !right_high ==> state is Left,
        !left_high && right_high ==> state is Right,
        left_high && right_high ==> state is Neither,
{
    classify(linetracking(left_high, right_high))
}

} // verus!
