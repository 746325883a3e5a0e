//! The screen counter, the brightness register and the glyph cycle.

use vstd::prelude::*;
use vstd::arithmetic::div_mod::{lemma_add_mod_noop, lemma_mod_multiples_vanish, lemma_small_mod};

verus! {

/// Number of distinct screens.
pub const SCREEN_COUNT: u32 = 4;

/// How much one brightness effect adds to the brightness register.
pub const BRIGHTNESS_STEP: u8 = 16;

/// Glyphs in the alphanumeric cycle of the third screen: `a`..`z`,
/// `A`..`Z`, `0`..`9`.
pub const GLYPH_COUNT: u8 = 62;

/// Where an out-of-range raw screen value is redirected: 0 goes to 3, any
/// other value outside 1..=4 goes to 1. In-range values stand as they are.
///
/// The counter is advanced without a modulo, so after the fourth screen it
/// reaches 5 and this redirection brings it back to 1.
pub open spec fn redirect_spec(raw: u32) -> u32 {
    if 1 <= raw <= SCREEN_COUNT {
        raw
    } else if raw == 0 {
        3
    } else {
        1
    }
}

/// Redirects a raw screen counter value into the screen domain 1..=4.
pub fn redirect_screen(raw: u32) -> (r: u32)
    ensures
        r == redirect_spec(raw),
        1 <= r <= SCREEN_COUNT,
{
    if 1 <= raw && raw <= SCREEN_COUNT {
        raw
    } else if raw == 0 {
        3
    } else {
        1
    }
}

/// Repeated advance effects cycle through the screens in order: from screen
/// `s` the advanced counter `s + 1`, once redirected, lands on `s % 4 + 1`,
/// so starting at screen 1 the visits run 1, 2, 3, 4, 1, 2, ... indefinitely.
pub proof fn lemma_screen_cycle(s: u32)
    requires
        1 <= s <= 4,
    ensures
        redirect_spec((s + 1) as u32) == s % 4 + 1,
{
}

/// One brightness step: add 16, wrapping modulo 256.
pub open spec fn raise_spec(b: u8) -> u8 {
    (((b as int) + (BRIGHTNESS_STEP as int)) % 256) as u8
}

/// Raises the brightness register by one step, wrapping modulo 256.
pub fn raise_brightness(b: u8) -> (r: u8)
    ensures
        r == raise_spec(b),
{
    b.wrapping_add(BRIGHTNESS_STEP)
}

/// `n` consecutive brightness steps applied to `b`.
pub open spec fn raise_n_spec(b: u8, n: nat) -> u8
    decreases n,
{
    if n == 0 {
        b
    } else {
        raise_spec(raise_n_spec(b, (n - 1) as nat))
    }
}

proof fn lemma_raise_n_linear(b: u8, n: nat)
    ensures
        raise_n_spec(b, n) == ((b + 16 * n) % 256) as u8,
    decreases n,
{
    if n == 0 {
        lemma_small_mod(b as nat, 256);
    } else {
        lemma_raise_n_linear(b, (n - 1) as nat);
        lemma_add_mod_noop(b + 16 * (n - 1), 16, 256);
        lemma_small_mod(16, 256);
    }
}

/// The brightness step size divides the register's range evenly: 16
/// consecutive increase effects return the register to its starting value,
/// whatever that value was.
pub proof fn lemma_brightness_cycle(b: u8)
    ensures
        raise_n_spec(b, 16) == b,
{
    lemma_raise_n_linear(b, 16);
    lemma_mod_multiples_vanish(1, b as int, 256);
    lemma_small_mod(b as nat, 256);
}

/// The glyph at position `i` of the alphanumeric cycle.
pub open spec fn glyph_spec(i: u8) -> u8
    recommends
        i < GLYPH_COUNT,
{
    if i < 26 {
        (97 + i) as u8
    } else if i < 52 {
        (65 + (i - 26)) as u8
    } else {
        (48 + (i - 52)) as u8
    }
}

/// Looks up the glyph at position `i` of the cycle: positions 0..26 hold
/// `a`..`z`, 26..52 hold `A`..`Z`, and 52..62 hold `0`..`9`.
pub fn glyph_at(i: u8) -> (r: u8)
    requires
        i < GLYPH_COUNT,
    ensures
        r == glyph_spec(i),
{
    if i < 26 {
        97 + i
    } else if i < 52 {
        65 + (i - 26)
    } else {
        48 + (i - 52)
    }
}

/// The text the second screen writes once after clearing.
pub fn greeting() -> (s: &'static str)
    ensures
        s@ == "Hello world!"@,
{
    "Hello world!"
}

/// The decimal digits of `value`, most significant first, without leading
/// zeros, as ASCII codes.
pub open spec fn decimal_spec(value: u8) -> Seq<u8> {
    if value < 10 {
        seq![(48 + value) as u8]
    } else if value < 100 {
        seq![(48 + value / 10) as u8, (48 + value % 10) as u8]
    } else {
        seq![
            (48 + value / 100) as u8,
            (48 + (value / 10) % 10) as u8,
            (48 + value % 10) as u8,
        ]
    }
}

/// Renders `value` in decimal, as the fourth screen's report shows it.
pub fn decimal_digits(value: u8) -> (r: Vec<u8>)
    ensures
        r@ == decimal_spec(value),
{
    let mut r: Vec<u8> = Vec::new();
    if value >= 100 {
        r.push(48 + value / 100);
    }
    if value >= 10 {
        r.push(48 + (value / 10) % 10);
    }
    r.push(48 + value % 10);
    proof {
        assert(r@ =~= decimal_spec(value));
    }
    r
}

/// The fixed frame of the fourth screen's report: the text standing before
/// and after the decimal brightness value.
pub fn brightness_label_frame() -> (r: (&'static str, &'static str))
    ensures
        r.0@ == "Brightness:\n--"@,
        r.1@ == "--"@,
{
    ("Brightness:\n--", "--")
}

} // verus!
