//! Sampling of the two operator buttons and the per-tick effect table.

use vstd::prelude::*;

verus! {

/// One snapshot of the two button lines, taken once per tick.
///
/// `a` is the screen-advance button, `b` the brightness button. The lines
/// carry plain levels; there is no software debounce (external pull
/// resistors are assumed), so the state machine enforces a release barrier
/// after every fired effect instead.
#[derive(Clone, Copy, PartialEq, Eq, Structural, Debug)]
pub struct ButtonState {
    pub a: bool,
    pub b: bool,
}

/// The effect a tick has on the user-interface state.
#[derive(Clone, Copy, PartialEq, Eq, Structural, Debug)]
pub enum Effect {
    /// Neither button is pressed: the tick changes nothing.
    NoEffect,
    /// Advance the screen counter by one.
    AdvanceScreen,
    /// Raise the brightness by one step, wrapping modulo 256.
    RaiseBrightness,
}

/// The effect table. The advance button is consulted first, so a
/// simultaneous press of both buttons yields `AdvanceScreen` and the
/// brightness effect does not fire.
pub open spec fn effect_spec(s: ButtonState) -> Effect {
    if s.a {
        Effect::AdvanceScreen
    } else if s.b {
        Effect::RaiseBrightness
    } else {
        Effect::NoEffect
    }
}

/// Computes the effect of one button snapshot.
pub fn effect_of(s: ButtonState) -> (r: Effect)
    ensures
        r == effect_spec(s),
        s.a ==> r == Effect::AdvanceScreen,
        !s.a && s.b ==> r == Effect::RaiseBrightness,
        !s.a && !s.b ==> r == Effect::NoEffect,
{
    if s.a {
        Effect::AdvanceScreen
    } else if s.b {
        Effect::RaiseBrightness
    } else {
        Effect::NoEffect
    }
}

/// True when both lines read low, which is what the release barrier waits
/// for before the loop may proceed after a fired effect.
pub fn both_released(s: ButtonState) -> (r: bool)
    ensures
        r == (!s.a && !s.b),
{
    !s.a && !s.b
}

} // verus!
