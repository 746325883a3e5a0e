//! The decision table of the button-controlled blinker: the same two
//! buttons, driving an LED instead of the display.

use vstd::prelude::*;
use crate::input::ButtonState;

verus! {

/// What one poll tells the shell to do with the LED line.
#[derive(Clone, Copy, PartialEq, Eq, Structural, Debug)]
pub enum LedCommand {
    /// Invert the line.
    Toggle,
    /// Drive the line high.
    SetHigh,
    /// Drive the line low.
    SetLow,
}

/// The blinker's per-poll decision: with no button pressed the LED blinks
/// slowly; the advance button holds it high and the brightness button holds
/// it low, both polled fast; pressing both blinks it fast.
pub open spec fn blink_spec(s: ButtonState) -> (LedCommand, u32) {
    if s.a && s.b {
        (LedCommand::Toggle, 100)
    } else if s.a {
        (LedCommand::SetHigh, 10)
    } else if s.b {
        (LedCommand::SetLow, 10)
    } else {
        (LedCommand::Toggle, 500)
    }
}

/// Decides the LED command and the milliseconds to wait before the next
/// poll from one button snapshot.
pub fn blink_decision(s: ButtonState) -> (r: (LedCommand, u32))
    ensures
        r == blink_spec(s),
{
    if s.a && s.b {
        (LedCommand::Toggle, 100)
    } else if s.a {
        (LedCommand::SetHigh, 10)
    } else if s.b {
        (LedCommand::SetLow, 10)
    } else {
        (LedCommand::Toggle, 500)
    }
}

} // verus!
