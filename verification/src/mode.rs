//! The mode switcher: one transport handle, two mutually exclusive
//! rendering personalities, and the controlled handoff between them.

use vstd::prelude::*;

verus! {

/// The exclusive, non-duplicable handle on the serial bus connection to the
/// display controller.
///
/// The field is private and the type implements neither `Clone` nor `Copy`,
/// so a handle can only move: it is created once after bus bring-up and is
/// then owned by exactly one rendering context at any time.
pub struct TransportHandle {
    bus: u8,
}

impl TransportHandle {
    /// The identifier of the bus this handle stands for.
    pub closed spec fn bus_spec(self) -> u8 {
        self.bus
    }

    /// Takes ownership of the bus connection identified by `bus`.
    pub fn acquire(bus: u8) -> (h: TransportHandle)
        ensures
            h.bus_spec() == bus,
    {
        TransportHandle { bus }
    }

    /// Reads the bus identifier.
    pub fn bus(&self) -> (r: u8)
        ensures
            r == self.bus_spec(),
    {
        self.bus
    }
}

/// The rendering state owned by the pixel-graphics personality.
pub struct GraphicsContext {
    /// The transport handle, held exclusively while graphics are active.
    pub handle: TransportHandle,
}

/// The rendering state owned by the character-terminal personality.
pub struct TerminalContext {
    /// The transport handle, held exclusively while the terminal is active.
    pub handle: TransportHandle,
}

/// The two rendering personalities.
#[derive(Clone, Copy, PartialEq, Eq, Structural, Debug)]
pub enum ModeKind {
    Graphics,
    Terminal,
}

/// The single active rendering personality, or the placeholder that stands
/// in for it during the take-and-replace swap of a switch.
///
/// Exactly one populated variant is observable at any time: the placeholder
/// exists only inside `use_graphics` and `use_terminal`, between taking the
/// old context apart and installing the new one, and both re-establish a
/// populated variant before they return.
pub enum ModeState {
    /// The placeholder used during a handoff; it holds nothing.
    Uninitialized,
    /// The pixel-graphics personality is active and owns the handle.
    Graphics(GraphicsContext),
    /// The character-terminal personality is active and owns the handle.
    Terminal(TerminalContext),
}

impl ModeState {
    /// True for the two populated variants.
    pub open spec fn is_populated(self) -> bool {
        !(self is Uninitialized)
    }

    /// Which personality is active.
    pub open spec fn kind(self) -> ModeKind
        recommends
            self.is_populated(),
    {
        if self is Graphics {
            ModeKind::Graphics
        } else {
            ModeKind::Terminal
        }
    }

    /// The transport handle owned by the active personality.
    pub closed spec fn handle_spec(self) -> TransportHandle {
        match self {
            ModeState::Graphics(g) => g.handle,
            ModeState::Terminal(t) => t.handle,
            ModeState::Uninitialized => TransportHandle { bus: 0 },
        }
    }

    /// Unwinds the active context to the underlying transport handle,
    /// consuming the state.
    pub fn into_inner(self) -> (h: TransportHandle)
        requires
            self.is_populated(),
        ensures
            h == self.handle_spec(),
    {
        match self {
            ModeState::Graphics(g) => g.handle,
            ModeState::Terminal(t) => t.handle,
            ModeState::Uninitialized => vstd::pervasive::unreached(),
        }
    }

    /// Atomically takes the active context out, leaving the placeholder
    /// behind, and unwinds it to the transport handle. The swap is a single
    /// logical exchange, so no partially built context is ever reachable
    /// through `self`.
    pub fn take_inner(&mut self) -> (h: TransportHandle)
        requires
            old(self).is_populated(),
        ensures
            (*final(self)) is Uninitialized,
            h == old(self).handle_spec(),
    {
        let mut taken = ModeState::Uninitialized;
        core::mem::swap(self, &mut taken);
        taken.into_inner()
    }

    /// What a switch to personality `k` does to a populated state: if `k`
    /// is already active nothing changes and no device initialization is
    /// owed; otherwise the handle moves into a fresh context of the
    /// requested personality, whose device initialization the caller must
    /// run before drawing.
    pub open spec fn switch_spec(self, k: ModeKind) -> (ModeState, bool)
        recommends
            self.is_populated(),
    {
        if self.kind() == k {
            (self, false)
        } else if k == ModeKind::Graphics {
            (ModeState::Graphics(GraphicsContext { handle: self.handle_spec() }), true)
        } else {
            (ModeState::Terminal(TerminalContext { handle: self.handle_spec() }), true)
        }
    }

    /// Makes the pixel-graphics personality the active one.
    ///
    /// Returns whether the caller owes the device a full initialization
    /// sequence: true exactly when the terminal was active before, so that
    /// re-requesting the already-active personality never reinitializes.
    pub fn use_graphics(&mut self) -> (init_needed: bool)
        requires
            old(self).is_populated(),
        ensures
            *final(self) == old(self).switch_spec(ModeKind::Graphics).0,
            init_needed == old(self).switch_spec(ModeKind::Graphics).1,
            (*final(self)) is Graphics,
            init_needed == !((*old(self)) is Graphics),
            final(self).handle_spec() == old(self).handle_spec(),
    {
        match self {
            ModeState::Graphics(_) => false,
            _ => {
                let handle = self.take_inner();
                *self = ModeState::Graphics(GraphicsContext { handle });
                true
            },
        }
    }

    /// Makes the character-terminal personality the active one. The
    /// counterpart of `use_graphics`, with the same initialization rule.
    pub fn use_terminal(&mut self) -> (init_needed: bool)
        requires
            old(self).is_populated(),
        ensures
            *final(self) == old(self).switch_spec(ModeKind::Terminal).0,
            init_needed == old(self).switch_spec(ModeKind::Terminal).1,
            (*final(self)) is Terminal,
            init_needed == !((*old(self)) is Terminal),
            final(self).handle_spec() == old(self).handle_spec(),
    {
        match self {
            ModeState::Terminal(_) => false,
            _ => {
                let handle = self.take_inner();
                *self = ModeState::Terminal(TerminalContext { handle });
                true
            },
        }
    }
}

/// A switch always leaves the requested personality populated and keeps the
/// transport handle, and re-requesting that same personality immediately
/// afterwards changes nothing and owes no second device initialization:
/// initialization runs at most once per distinct mode entry.
pub proof fn lemma_switch_once(m: ModeState, k: ModeKind)
    requires
        m.is_populated(),
    ensures
        m.switch_spec(k).0.is_populated(),
        m.switch_spec(k).0.kind() == k,
        m.switch_spec(k).0.handle_spec() == m.handle_spec(),
        m.switch_spec(k).0.switch_spec(k) == (m.switch_spec(k).0, false),
{
}

} // verus!
