//! Control core for a two-button, four-screen user interface on a monochrome
//! dot-matrix display.
//!
//! The display is driven over a serial bus by exactly one of two rendering
//! personalities at a time: a pixel-graphics canvas or a character terminal.
//! This crate holds the verified logic of that system: the button effect
//! table, the screen counter with its redirection rules, the brightness
//! register, the mode switcher that hands the exclusive transport handle from
//! one personality to the other, and the polling state machine that ties them
//! together. All bus traffic, pin reads and delays are performed by an
//! unverified shell that executes the actions this crate decides on.

pub mod blink;
pub mod input;
pub mod mode;
pub mod screen;
pub mod ui;
