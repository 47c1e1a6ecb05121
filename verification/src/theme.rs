//! The abstract color model of the UI framework, as the backend reads it:
//! a palette of eight named base colors in two intensities, direct and
//! low-resolution RGB, and a terminal-default sentinel.

use vstd::prelude::*;

verus! {

/// One of the eight named base palette colors.
#[derive(Clone, Copy, Debug, PartialEq, Eq, Structural)]
pub enum BaseColor {
    Black,
    Red,
    Green,
    Yellow,
    Blue,
    Magenta,
    Cyan,
    White,
}

/// An abstract color: a named base color at one of two intensities,
/// a direct 8-bit-per-channel RGB value, a low-resolution
/// 4-bit-per-channel RGB value (valid channel domain 0..=15),
/// or the terminal-default sentinel.
#[derive(Clone, Copy, Debug, PartialEq, Eq, Structural)]
pub enum Color {
    Dark(BaseColor),
    Light(BaseColor),
    Rgb(u8, u8, u8),
    RgbLowRes(u8, u8, u8),
    TerminalDefault,
}

/// A foreground/background pair of abstract colors.
#[derive(Clone, Copy, Debug, PartialEq, Eq, Structural)]
pub struct ColorPair {
    /// Foreground color.
    pub front: Color,
    /// Background color.
    pub back: Color,
}

/// A text effect the framework may ask for; this backend accepts and
/// ignores every one of them.
#[derive(Clone, Copy, Debug, PartialEq, Eq, Structural)]
pub enum Effect {
    Simple,
    Dim,
    Reverse,
    Bold,
    Italic,
    Strikethrough,
    Underline,
    Blink,
}

} // verus!
