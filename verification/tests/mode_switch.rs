use dotmatrix_ui::mode::{GraphicsContext, ModeState, TerminalContext, TransportHandle};

#[test]
fn rerequesting_active_mode_needs_no_init() {
    let handle = TransportHandle::acquire(0);
    let mut mode = ModeState::Graphics(GraphicsContext { handle });
    assert!(!mode.use_graphics());
    assert!(matches!(mode, ModeState::Graphics(_)));
    assert!(!mode.use_graphics());
    assert!(matches!(mode, ModeState::Graphics(_)));
}

#[test]
fn switching_mode_needs_init_once() {
    let handle = TransportHandle::acquire(0);
    let mut mode = ModeState::Graphics(GraphicsContext { handle });
    assert!(mode.use_terminal());
    assert!(matches!(mode, ModeState::Terminal(_)));
    assert!(!mode.use_terminal());
    assert!(mode.use_graphics());
    assert!(matches!(mode, ModeState::Graphics(_)));
}

#[test]
fn read_after_switch_shows_requested_mode() {
    let handle = TransportHandle::acquire(1);
    let mut mode = ModeState::Terminal(TerminalContext { handle });
    mode.use_graphics();
    assert!(matches!(mode, ModeState::Graphics(_)));
    mode.use_terminal();
    assert!(matches!(mode, ModeState::Terminal(_)));
}

#[test]
fn handle_survives_every_switch() {
    let handle = TransportHandle::acquire(7);
    let mut mode = ModeState::Graphics(GraphicsContext { handle });
    mode.use_terminal();
    mode.use_graphics();
    mode.use_terminal();
    let recovered = mode.into_inner();
    assert_eq!(recovered.bus(), 7);
}

#[test]
fn take_inner_leaves_placeholder_and_hands_back_handle() {
    let handle = TransportHandle::acquire(3);
    let mut mode = ModeState::Terminal(TerminalContext { handle });
    let taken = mode.take_inner();
    assert_eq!(taken.bus(), 3);
    assert!(matches!(mode, ModeState::Uninitialized));
}
