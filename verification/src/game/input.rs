//! What the players ask for, and how an analog reading becomes a request.

use vstd::prelude::*;

verus! {

/// The side of the field a player or a paddle is on.
#[derive(Clone, Copy, Debug, PartialEq, Eq, Structural)]
pub enum LeftRightPosition {
    Left,
    Right,
}

/// What a player asks of the paddle for one tick.
#[derive(Clone, Copy, Debug, PartialEq, Eq, Structural)]
pub enum InpuDirection {
    Up,
    Down,
    Stay,
}

/// A source of the players' requests, asked once per tick and side.
pub trait UserInteraction {
    /// What the player on the side `user_position` asks for right now.
    fn get_input_direction(&mut self, user_position: LeftRightPosition) -> InpuDirection;
}

/// The share of the reference voltage that a reading amounts to, in whole
/// percent, rounded down.
pub open spec fn spec_input_percentage(millivolts: u16, reference_voltage: u32) -> int {
    millivolts * 100 / (reference_voltage as int)
}

/// The request that a reading of `input_percentage` percent stands for: the
/// lower two fifths ask for up, the upper two fifths for down, the band in
/// between for staying.
pub open spec fn spec_direction_of(input_percentage: u8) -> InpuDirection {
    if input_percentage <= 39 {
        InpuDirection::Up
    } else if input_percentage <= 59 {
        InpuDirection::Stay
    } else {
        InpuDirection::Down
    }
}

/// Turns a reading in millivolts into a percentage of the reference voltage.
///
/// The reference voltage is not zero, and the reading is no more than a
/// hundred percent of it: a higher reading means broken wiring.
pub fn input_percentage(millivolts: u16, reference_voltage: u32) -> (percentage: u8)
    requires
        reference_voltage > 0,
        spec_input_percentage(millivolts, reference_voltage) <= 100,
    ensures
        percentage == spec_input_percentage(millivolts, reference_voltage),
{
    let scaled: u32 = millivolts as u32 * 100;
    let percentage: u32 = scaled / reference_voltage;
    percentage as u8
}

/// The request that a reading of `input_percentage` percent stands for.
pub fn direction_of(input_percentage: u8) -> (direction: InpuDirection)
    requires
        input_percentage <= 100,
    ensures
        direction == spec_direction_of(input_percentage),
{
    if input_percentage <= 39 {
        InpuDirection::Up
    } else if input_percentage <= 59 {
        InpuDirection::Stay
    } else {
        InpuDirection::Down
    }
}

} // verus!
