use dotmatrix_ui::blink::{blink_decision, LedCommand};
use dotmatrix_ui::input::{both_released, effect_of, ButtonState, Effect};

fn buttons(a: bool, b: bool) -> ButtonState {
    ButtonState { a, b }
}

#[test]
fn no_press_has_no_effect() {
    assert_eq!(effect_of(buttons(false, false)), Effect::NoEffect);
}

#[test]
fn advance_button_advances() {
    assert_eq!(effect_of(buttons(true, false)), Effect::AdvanceScreen);
}

#[test]
fn brightness_button_raises() {
    assert_eq!(effect_of(buttons(false, true)), Effect::RaiseBrightness);
}

#[test]
fn simultaneous_press_takes_advance_branch() {
    assert_eq!(effect_of(buttons(true, true)), Effect::AdvanceScreen);
}

#[test]
fn release_needs_both_lines_low() {
    assert!(both_released(buttons(false, false)));
    assert!(!both_released(buttons(true, false)));
    assert!(!both_released(buttons(false, true)));
    assert!(!both_released(buttons(true, true)));
}

#[test]
fn blink_decision_table() {
    assert_eq!(blink_decision(buttons(false, false)), (LedCommand::Toggle, 500));
    assert_eq!(blink_decision(buttons(true, false)), (LedCommand::SetHigh, 10));
    assert_eq!(blink_decision(buttons(false, true)), (LedCommand::SetLow, 10));
    assert_eq!(blink_decision(buttons(true, true)), (LedCommand::Toggle, 100));
}
