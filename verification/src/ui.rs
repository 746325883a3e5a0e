//! The top-level polling state machine: four screens, the animation and
//! glyph timing, the early-exit rule and the release barrier.
//!
//! The machine decides; an unverified shell executes. Each call to
//! [`UiLoop::step`] consumes the button levels the shell read just before
//! the call and returns the one [`UiAction`] the shell must perform next.
//! Every transition is pinned by [`step_spec`], a total function of the
//! previous state and the button snapshot.

use vstd::prelude::*;
use crate::input::{ButtonState, Effect, effect_of, effect_spec};
use crate::mode::{ModeKind, ModeState};
use crate::screen::{
    GLYPH_COUNT, glyph_at, glyph_spec, raise_brightness, raise_spec, redirect_screen,
    redirect_spec,
};

verus! {

/// Sub-ticks an animation frame is held for on the first screen.
pub const FRAME_SUBTICKS: u8 = 10;

/// Sub-ticks a glyph is held for on the third screen.
pub const GLYPH_SUBTICKS: u8 = 4;

/// Frames in the animation cycle of the first screen.
pub const FRAME_COUNT: u8 = 2;

/// The brightness register's value at power-up.
pub const INITIAL_BRIGHTNESS: u8 = 0x0F;

/// Where the polling loop stands inside the current screen's body.
///
/// A frame of the first screen runs `Frame -> (FrameDelay -> FrameTick) * 10`
/// and a glyph of the third screen runs `GlyphEmit -> (GlyphDelay ->
/// GlyphTick) * 4`: the delay phase asks the shell to wait one sub-tick, and
/// the tick phase consumes the button levels read after that wait. Any fired
/// effect jumps straight to `Release`, abandoning the rest of the body.
#[derive(Clone, Copy, PartialEq, Eq, Structural, Debug)]
pub enum Phase {
    /// Top of the outer loop: redirect the raw screen counter if it is out
    /// of range, otherwise hand the transport to the screen's personality.
    Dispatch,
    /// Body entry: re-apply the brightness before any drawing.
    Enter,
    /// Clear the terminal (second, third and fourth screens).
    ClearBody,
    /// Write the fixed text (second and fourth screens).
    WriteBody,
    /// Draw and flush animation frame `index`.
    Frame { index: u8 },
    /// Wait one sub-tick; `sub` sub-ticks of the current frame remain.
    FrameDelay { index: u8, sub: u8 },
    /// Consume the button levels read after the sub-tick wait.
    FrameTick { index: u8, sub: u8 },
    /// Print the glyph at position `index` of the alphanumeric cycle.
    GlyphEmit { index: u8 },
    /// Wait one sub-tick; `sub` sub-ticks of the current glyph remain.
    GlyphDelay { index: u8, sub: u8 },
    /// Consume the button levels read after the sub-tick wait.
    GlyphTick { index: u8, sub: u8 },
    /// Idle tight loop of the second and fourth screens: only the buttons
    /// are consulted, as fast as the shell can poll.
    IdlePoll,
    /// A fired effect ended the body: hold here until both lines read low.
    Release,
}

/// What the shell must do after a step. Every bus write, wait and device
/// initialization the loop ever needs is one of these.
#[derive(Clone, Copy, PartialEq, Eq, Structural, Debug)]
pub enum UiAction {
    /// Nothing: call `step` again with fresh button levels.
    Proceed,
    /// Run the graphics personality's device initialization sequence.
    InitGraphics,
    /// Run the terminal personality's device initialization sequence.
    InitTerminal,
    /// Write the given value to the display's brightness control.
    ApplyBrightness(u8),
    /// Clear the display.
    ClearScreen,
    /// Draw animation frame `0` or `1` and flush it to the display.
    DrawFrame(u8),
    /// Write the fixed greeting text.
    WriteGreeting,
    /// Write the brightness report showing the given value.
    WriteBrightnessLabel(u8),
    /// Print one glyph (an ASCII code) at the terminal cursor.
    PrintGlyph(u8),
    /// Busy-wait for the given number of time units.
    Delay(u32),
}

/// The personality each screen renders through: the first screen draws
/// bitmaps, the other three write text.
pub open spec fn wanted_kind(screen: u32) -> ModeKind {
    if screen == 1 {
        ModeKind::Graphics
    } else {
        ModeKind::Terminal
    }
}

/// The whole state of the user-interface loop.
///
/// `screen` is the raw, unbounded counter: advance effects only increment
/// it, and `Dispatch` redirects it back into 1..=4 (0 to 3, anything else
/// out of range to 1). `brightness` outlives screens and mode switches.
/// `subtick_units` is the calibration scalar of the busy-wait primitive:
/// the time units one sub-tick waits for.
pub struct UiLoop {
    pub mode: ModeState,
    pub screen: u32,
    pub brightness: u8,
    pub subtick_units: u32,
    pub phase: Phase,
}

impl UiLoop {
    /// Well-formedness: the mode is always populated; inside a screen body
    /// the counter is in range, the phase belongs to that screen, the
    /// active personality is the one the screen renders through, and the
    /// frame, glyph and sub-tick counters are within their cycles.
    pub open spec fn wf(self) -> bool {
        &&& self.mode.is_populated()
        &&& match self.phase {
            Phase::Dispatch => true,
            Phase::Enter => 1 <= self.screen <= 4 && self.mode.kind() == wanted_kind(self.screen),
            Phase::ClearBody => 2 <= self.screen <= 4 && self.mode.kind() == ModeKind::Terminal,
            Phase::WriteBody => (self.screen == 2 || self.screen == 4) && self.mode.kind()
                == ModeKind::Terminal,
            Phase::Frame { index } => self.screen == 1 && self.mode.kind() == ModeKind::Graphics
                && index < FRAME_COUNT,
            Phase::FrameDelay { index, sub } => self.screen == 1 && self.mode.kind()
                == ModeKind::Graphics && index < FRAME_COUNT && 1 <= sub <= FRAME_SUBTICKS,
            Phase::FrameTick { index, sub } => self.screen == 1 && self.mode.kind()
                == ModeKind::Graphics && index < FRAME_COUNT && 1 <= sub <= FRAME_SUBTICKS,
            Phase::GlyphEmit { index } => self.screen == 3 && self.mode.kind()
                == ModeKind::Terminal && index < GLYPH_COUNT,
            Phase::GlyphDelay { index, sub } => self.screen == 3 && self.mode.kind()
                == ModeKind::Terminal && index < GLYPH_COUNT && 1 <= sub <= GLYPH_SUBTICKS,
            Phase::GlyphTick { index, sub } => self.screen == 3 && self.mode.kind()
                == ModeKind::Terminal && index < GLYPH_COUNT && 1 <= sub <= GLYPH_SUBTICKS,
            Phase::IdlePoll => (self.screen == 2 || self.screen == 4) && self.mode.kind()
                == ModeKind::Terminal,
            Phase::Release => self.screen <= 5,
        }
    }

    /// Starts the loop over an already-populated mode: first screen
    /// selected, brightness at its power-up value, about to dispatch.
    pub fn new(mode: ModeState, subtick_units: u32) -> (ui: UiLoop)
        requires
            mode.is_populated(),
        ensures
            ui == (UiLoop {
                mode,
                screen: 1,
                brightness: INITIAL_BRIGHTNESS,
                subtick_units,
                phase: Phase::Dispatch,
            }),
            ui.wf(),
    {
        UiLoop { mode, screen: 1, brightness: INITIAL_BRIGHTNESS, subtick_units, phase: Phase::Dispatch }
    }

    /// Runs one step of the machine.
    ///
    /// `b` is the button snapshot the shell read immediately before the
    /// call; it is consulted exactly in the tick, idle and release phases.
    /// The returned action is what the shell must perform before the next
    /// step. State and action are pinned, in every phase, by [`step_spec`].
    pub fn step(&mut self, b: ButtonState) -> (r: UiAction)
        requires
            old(self).wf(),
        ensures
            *final(self) == step_spec(*old(self), b).0,
            r == step_spec(*old(self), b).1,
            final(self).wf(),
    {
        match self.phase {
            Phase::Dispatch => {
                if 1 <= self.screen && self.screen <= 4 {
                    if self.screen == 1 {
                        let init_needed = self.mode.use_graphics();
                        self.phase = Phase::Enter;
                        if init_needed {
                            UiAction::InitGraphics
                        } else {
                            UiAction::Proceed
                        }
                    } else {
                        let init_needed = self.mode.use_terminal();
                        self.phase = Phase::Enter;
                        if init_needed {
                            UiAction::InitTerminal
                        } else {
                            UiAction::Proceed
                        }
                    }
                } else {
                    self.screen = redirect_screen(self.screen);
                    UiAction::Proceed
                }
            },
            Phase::Enter => {
                if self.screen == 1 {
                    self.phase = Phase::Frame { index: 0 };
                } else {
                    self.phase = Phase::ClearBody;
                }
                UiAction::ApplyBrightness(self.brightness)
            },
            Phase::ClearBody => {
                if self.screen == 3 {
                    self.phase = Phase::GlyphEmit { index: 0 };
                } else {
                    self.phase = Phase::WriteBody;
                }
                UiAction::ClearScreen
            },
            Phase::WriteBody => {
                self.phase = Phase::IdlePoll;
                if self.screen == 2 {
                    UiAction::WriteGreeting
                } else {
                    UiAction::WriteBrightnessLabel(self.brightness)
                }
            },
            Phase::Frame { index } => {
                self.phase = Phase::FrameDelay { index, sub: FRAME_SUBTICKS };
                UiAction::DrawFrame(index)
            },
            Phase::FrameDelay { index, sub } => {
                self.phase = Phase::FrameTick { index, sub };
                UiAction::Delay(self.subtick_units)
            },
            Phase::FrameTick { index, sub } => {
                match effect_of(b) {
                    Effect::AdvanceScreen => {
                        self.screen = self.screen + 1;
                        self.phase = Phase::Release;
                    },
                    Effect::RaiseBrightness => {
                        self.brightness = raise_brightness(self.brightness);
                        self.phase = Phase::Release;
                    },
                    Effect::NoEffect => {
                        if sub > 1 {
                            self.phase = Phase::FrameDelay { index, sub: sub - 1 };
                        } else {
                            self.phase = Phase::Frame {
                                index: if index == 0 { 1 } else { 0 },
                            };
                        }
                    },
                }
                UiAction::Proceed
            },
            Phase::GlyphEmit { index } => {
                self.phase = Phase::GlyphDelay { index, sub: GLYPH_SUBTICKS };
                UiAction::PrintGlyph(glyph_at(index))
            },
            Phase::GlyphDelay { index, sub } => {
                self.phase = Phase::GlyphTick { index, sub };
                UiAction::Delay(self.subtick_units)
            },
            Phase::GlyphTick { index, sub } => {
                match effect_of(b) {
                    Effect::AdvanceScreen => {
                        self.screen = self.screen + 1;
                        self.phase = Phase::Release;
                    },
                    Effect::RaiseBrightness => {
                        self.brightness = raise_brightness(self.brightness);
                        self.phase = Phase::Release;
                    },
                    Effect::NoEffect => {
                        if sub > 1 {
                            self.phase = Phase::GlyphDelay { index, sub: sub - 1 };
                        } else {
                            self.phase = Phase::GlyphEmit {
                                index: if index + 1 == GLYPH_COUNT { 0 } else { index + 1 },
                            };
                        }
                    },
                }
                UiAction::Proceed
            },
            Phase::IdlePoll => {
                match effect_of(b) {
                    Effect::AdvanceScreen => {
                        self.screen = self.screen + 1;
                        self.phase = Phase::Release;
                    },
                    Effect::RaiseBrightness => {
                        self.brightness = raise_brightness(self.brightness);
                        self.phase = Phase::Release;
                    },
                    Effect::NoEffect => {},
                }
                UiAction::Proceed
            },
            Phase::Release => {
                if !b.a && !b.b {
                    self.phase = Phase::Dispatch;
                }
                UiAction::Proceed
            },
        }
    }
}

/// The transition function of the machine: from a state and the button
/// snapshot read just before the step, the state after the step and the
/// action the shell must perform after it.
pub open spec fn step_spec(pre: UiLoop, b: ButtonState) -> (UiLoop, UiAction) {
    match pre.phase {
        Phase::Dispatch => {
            if 1 <= pre.screen <= 4 {
                let switched = pre.mode.switch_spec(wanted_kind(pre.screen));
                (
                    UiLoop { mode: switched.0, phase: Phase::Enter, ..pre },
                    if !switched.1 {
                        UiAction::Proceed
                    } else if pre.screen == 1 {
                        UiAction::InitGraphics
                    } else {
                        UiAction::InitTerminal
                    },
                )
            } else {
                (UiLoop { screen: redirect_spec(pre.screen), ..pre }, UiAction::Proceed)
            }
        },
        Phase::Enter => (
            UiLoop {
                phase: if pre.screen == 1 {
                    Phase::Frame { index: 0 }
                } else {
                    Phase::ClearBody
                },
                ..pre
            },
            UiAction::ApplyBrightness(pre.brightness),
        ),
        Phase::ClearBody => (
            UiLoop {
                phase: if pre.screen == 3 {
                    Phase::GlyphEmit { index: 0 }
                } else {
                    Phase::WriteBody
                },
                ..pre
            },
            UiAction::ClearScreen,
        ),
        Phase::WriteBody => (
            UiLoop { phase: Phase::IdlePoll, ..pre },
            if pre.screen == 2 {
                UiAction::WriteGreeting
            } else {
                UiAction::WriteBrightnessLabel(pre.brightness)
            },
        ),
        Phase::Frame { index } => (
            UiLoop { phase: Phase::FrameDelay { index, sub: FRAME_SUBTICKS }, ..pre },
            UiAction::DrawFrame(index),
        ),
        Phase::FrameDelay { index, sub } => (
            UiLoop { phase: Phase::FrameTick { index, sub }, ..pre },
            UiAction::Delay(pre.subtick_units),
        ),
        Phase::FrameTick { index, sub } => (body_tick_spec(pre, b, true, index, sub), UiAction::Proceed),
        Phase::GlyphEmit { index } => (
            UiLoop { phase: Phase::GlyphDelay { index, sub: GLYPH_SUBTICKS }, ..pre },
            UiAction::PrintGlyph(glyph_spec(index)),
        ),
        Phase::GlyphDelay { index, sub } => (
            UiLoop { phase: Phase::GlyphTick { index, sub }, ..pre },
            UiAction::Delay(pre.subtick_units),
        ),
        Phase::GlyphTick { index, sub } => (body_tick_spec(pre, b, false, index, sub), UiAction::Proceed),
        Phase::IdlePoll => (
            match effect_spec(b) {
                Effect::AdvanceScreen => UiLoop {
                    screen: (pre.screen + 1) as u32,
                    phase: Phase::Release,
                    ..pre
                },
                Effect::RaiseBrightness => UiLoop {
                    brightness: raise_spec(pre.brightness),
                    phase: Phase::Release,
                    ..pre
                },
                Effect::NoEffect => pre,
            },
            UiAction::Proceed,
        ),
        Phase::Release => (
            if !b.a && !b.b {
                UiLoop { phase: Phase::Dispatch, ..pre }
            } else {
                pre
            },
            UiAction::Proceed,
        ),
    }
}

/// One input-checked sub-tick inside a frame (`in_frame`) or glyph body:
/// a fired effect applies its change and jumps to the release barrier,
/// abandoning the body's remaining sub-ticks; otherwise the next sub-tick
/// begins, or the cycle moves on to the next frame or glyph.
pub open spec fn body_tick_spec(pre: UiLoop, b: ButtonState, in_frame: bool, index: u8, sub: u8) -> UiLoop {
    match effect_spec(b) {
        Effect::AdvanceScreen => UiLoop {
            screen: (pre.screen + 1) as u32,
            phase: Phase::Release,
            ..pre
        },
        Effect::RaiseBrightness => UiLoop {
            brightness: raise_spec(pre.brightness),
            phase: Phase::Release,
            ..pre
        },
        Effect::NoEffect => {
            if in_frame {
                UiLoop {
                    phase: if sub > 1 {
                        Phase::FrameDelay { index, sub: (sub - 1) as u8 }
                    } else {
                        Phase::Frame { index: if index == 0 { 1u8 } else { 0u8 } }
                    },
                    ..pre
                }
            } else {
                UiLoop {
                    phase: if sub > 1 {
                        Phase::GlyphDelay { index, sub: (sub - 1) as u8 }
                    } else {
                        Phase::GlyphEmit {
                            index: if index + 1 == GLYPH_COUNT { 0u8 } else { (index + 1) as u8 },
                        }
                    },
                    ..pre
                }
            }
        },
    }
}

/// A raw screen counter of 0 behaves exactly like screen 3: the dispatch
/// step rewrites the counter to 3 and changes nothing else, and because
/// [`step_spec`] is a function of the state, every step from then on is the
/// step the machine would have taken had the counter held 3 all along.
pub proof fn lemma_zero_redirects_to_three(pre: UiLoop, b: ButtonState)
    requires
        pre.wf(),
        pre.phase is Dispatch,
        pre.screen == 0,
    ensures
        step_spec(pre, b).0 == (UiLoop { screen: 3, ..pre }),
        step_spec(pre, b).1 == UiAction::Proceed,
{
}

/// Any effect-producing tick ends the screen body at once: from a frame
/// sub-tick, a glyph sub-tick or the idle poll, a fired effect applies its
/// change, jumps to the release barrier without any further drawing action,
/// and abandons whatever sub-ticks of the current frame or glyph remained.
pub proof fn lemma_effect_exits_early(pre: UiLoop, b: ButtonState)
    requires
        pre.wf(),
        pre.phase is FrameTick || pre.phase is GlyphTick || pre.phase is IdlePoll,
        effect_spec(b) != Effect::NoEffect,
    ensures
        step_spec(pre, b).0.phase is Release,
        step_spec(pre, b).1 == UiAction::Proceed,
        b.a ==> step_spec(pre, b).0 == (UiLoop {
            screen: (pre.screen + 1) as u32,
            phase: Phase::Release,
            ..pre
        }),
        !b.a ==> step_spec(pre, b).0 == (UiLoop {
            brightness: raise_spec(pre.brightness),
            phase: Phase::Release,
            ..pre
        }),
{
}

/// Repeated advance effects visit the screens in their cycle: an advance
/// press at any input-checked point of screen `s`, followed by the release
/// of both buttons, leaves the machine dispatching with a counter that
/// redirects to `s % 4 + 1` — so from screen 1 the visits run
/// 1, 2, 3, 4, 1, 2, ... indefinitely. For screens 1 to 3 the counter holds
/// the next screen directly; from screen 4 it holds 5, and the very next
/// dispatch step redirects it to 1 while changing nothing else.
pub proof fn lemma_advance_visits_next_screen(pre: UiLoop, press: ButtonState, rest: ButtonState)
    requires
        pre.wf(),
        pre.phase is FrameTick || pre.phase is GlyphTick || pre.phase is IdlePoll,
        press.a,
        !rest.a && !rest.b,
    ensures
        step_spec(step_spec(pre, press).0, rest).0.phase is Dispatch,
        step_spec(step_spec(pre, press).0, rest).0.screen == pre.screen + 1,
        redirect_spec((pre.screen + 1) as u32) == pre.screen % 4 + 1,
{
    crate::screen::lemma_screen_cycle(pre.screen);
}

/// Every display action is issued under the personality that can perform
/// it: frames are only drawn while the graphics personality holds the
/// transport, and clearing, the greeting, the brightness report and glyphs
/// are only written while the terminal personality holds it. The
/// initialization actions themselves arrive exactly when the requested
/// personality has just been handed the transport.
pub proof fn lemma_actions_match_personality(pre: UiLoop, b: ButtonState)
    requires
        pre.wf(),
    ensures
        (step_spec(pre, b).1 matches UiAction::DrawFrame(_)) ==> step_spec(pre, b).0.mode.kind()
            == ModeKind::Graphics,
        step_spec(pre, b).1 == UiAction::InitGraphics ==> step_spec(pre, b).0.mode.kind()
            == ModeKind::Graphics,
        (step_spec(pre, b).1 matches UiAction::PrintGlyph(_)) ==> step_spec(pre, b).0.mode.kind()
            == ModeKind::Terminal,
        (step_spec(pre, b).1 matches UiAction::WriteBrightnessLabel(_)) ==> step_spec(
            pre,
            b,
        ).0.mode.kind() == ModeKind::Terminal,
        step_spec(pre, b).1 == UiAction::WriteGreeting ==> step_spec(pre, b).0.mode.kind()
            == ModeKind::Terminal,
        step_spec(pre, b).1 == UiAction::ClearScreen ==> step_spec(pre, b).0.mode.kind()
            == ModeKind::Terminal,
        step_spec(pre, b).1 == UiAction::InitTerminal ==> step_spec(pre, b).0.mode.kind()
            == ModeKind::Terminal,
{
}

/// The release barrier: while either button line still reads high, the
/// machine stays exactly where it is and asks for nothing; only a snapshot
/// with both lines low lets it proceed, back to the dispatch of the (new)
/// screen. One physical press therefore registers as one effect.
pub proof fn lemma_release_barrier(pre: UiLoop, b: ButtonState)
    requires
        pre.phase is Release,
    ensures
        step_spec(pre, b).1 == UiAction::Proceed,
        b.a || b.b ==> step_spec(pre, b).0 == pre,
        !b.a && !b.b ==> step_spec(pre, b).0 == (UiLoop { phase: Phase::Dispatch, ..pre }),
{
}

} // verus!
