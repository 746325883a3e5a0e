use dotmatrix_ui::screen::{
    brightness_label_frame, decimal_digits, glyph_at, greeting, raise_brightness,
    redirect_screen,
};

#[test]
fn in_range_screens_stand() {
    for raw in 1..=4u32 {
        assert_eq!(redirect_screen(raw), raw);
    }
}

#[test]
fn zero_redirects_to_three() {
    assert_eq!(redirect_screen(0), 3);
}

#[test]
fn overflowed_counter_redirects_to_one() {
    assert_eq!(redirect_screen(5), 1);
    assert_eq!(redirect_screen(6), 1);
    assert_eq!(redirect_screen(u32::MAX), 1);
}

#[test]
fn advances_cycle_through_screens() {
    let mut screen: u32 = 1;
    let mut visited = Vec::new();
    for _ in 0..9 {
        visited.push(screen);
        screen = redirect_screen(screen + 1);
    }
    assert_eq!(visited, vec![1, 2, 3, 4, 1, 2, 3, 4, 1]);
}

#[test]
fn brightness_steps_by_sixteen() {
    assert_eq!(raise_brightness(0x0F), 0x1F);
    assert_eq!(raise_brightness(0xF0), 0x00);
    assert_eq!(raise_brightness(0xFF), 0x0F);
}

#[test]
fn sixteen_raises_return_to_start() {
    let mut b: u8 = 0x0F;
    for i in 0..16 {
        b = raise_brightness(b);
        if i < 15 {
            assert_ne!(b, 0x0F);
        }
    }
    assert_eq!(b, 0x0F);
}

#[test]
fn glyph_cycle_runs_lower_upper_digits() {
    assert_eq!(glyph_at(0), b'a');
    assert_eq!(glyph_at(25), b'z');
    assert_eq!(glyph_at(26), b'A');
    assert_eq!(glyph_at(51), b'Z');
    assert_eq!(glyph_at(52), b'0');
    assert_eq!(glyph_at(61), b'9');
}

#[test]
fn all_glyphs_are_alphanumeric_ascii() {
    let mut seen = Vec::new();
    for i in 0..62u8 {
        let g = glyph_at(i);
        assert!(g.is_ascii_alphanumeric());
        assert!(!seen.contains(&g));
        seen.push(g);
    }
}

#[test]
fn greeting_is_fixed() {
    assert_eq!(greeting(), "Hello world!");
}

#[test]
fn decimal_digits_match_formatting() {
    for value in 0..=255u8 {
        assert_eq!(decimal_digits(value), format!("{}", value).into_bytes());
    }
}

#[test]
fn brightness_report_shows_the_value() {
    let (before, after) = brightness_label_frame();
    let mut report = String::from(before);
    for digit in decimal_digits(15) {
        report.push(char::from(digit));
    }
    report.push_str(after);
    assert_eq!(report, "Brightness:\n--15--");
}
