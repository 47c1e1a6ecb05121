//! The mapping from the abstract color model to concrete pixel colors:
//! hex-triplet strings such as `"#00ff00"`. The mapping is total:
//! every abstract color yields a value, and the exact text of the result
//! is pinned down by `color_hex`.

use vstd::prelude::*;

use crate::theme;

verus! {

/// A concrete pixel color: a hex color string which starts with `#`.
pub type Color = String;

/// A foreground/background pair of pixel colors, as stored in a cell or
/// held in the current-color register.
#[derive(Debug, PartialEq, Eq, Hash)]
pub struct ColorPair {
    /// Foreground text color.
    pub front: Color,
    /// Background color.
    pub back: Color,
}

/// The mathematical content of a `ColorPair`: both hex strings as
/// character sequences.
#[verifier::ext_equal]
pub ghost struct ColorPairView {
    pub front: Seq<char>,
    pub back: Seq<char>,
}

impl View for ColorPair {
    type V = ColorPairView;

    open spec fn view(&self) -> ColorPairView {
        ColorPairView { front: self.front@, back: self.back@ }
    }
}

impl Clone for ColorPair {
    fn clone(&self) -> (res: Self)
        ensures
            res == *self,
    {
        ColorPair { front: self.front.clone(), back: self.back.clone() }
    }
}

/// The lower-case hex digit for a nibble value.
pub open spec fn hex_digit(n: int) -> char {
    if n == 0 {
        '0'
    } else if n == 1 {
        '1'
    } else if n == 2 {
        '2'
    } else if n == 3 {
        '3'
    } else if n == 4 {
        '4'
    } else if n == 5 {
        '5'
    } else if n == 6 {
        '6'
    } else if n == 7 {
        '7'
    } else if n == 8 {
        '8'
    } else if n == 9 {
        '9'
    } else if n == 10 {
        'a'
    } else if n == 11 {
        'b'
    } else if n == 12 {
        'c'
    } else if n == 13 {
        'd'
    } else if n == 14 {
        'e'
    } else {
        'f'
    }
}

/// An 8-bit channel as exactly two hex digits, zero-padded.
pub open spec fn hex_byte(n: int) -> Seq<char> {
    seq![hex_digit(n / 16), hex_digit(n % 16)]
}

/// A low-resolution channel as one hex digit on its valid domain 0..=15;
/// a channel beyond that domain falls back to two digits, as
/// minimum-width-one hex formatting would print it.
pub open spec fn hex_low_res(n: int) -> Seq<char> {
    if n < 16 {
        seq![hex_digit(n)]
    } else {
        hex_byte(n)
    }
}

/// The exact hex string that `cursive_to_color` produces for each
/// abstract color: the literal palette table for the named colors, the
/// encoded channels for the RGB forms, and a fixed default for the
/// terminal-default sentinel.
pub open spec fn color_hex(color: theme::Color) -> Seq<char> {
    match color {
        theme::Color::Dark(theme::BaseColor::Black) => "#000000"@,
        theme::Color::Dark(theme::BaseColor::Red) => "#800000"@,
        theme::Color::Dark(theme::BaseColor::Green) => "#008000"@,
        theme::Color::Dark(theme::BaseColor::Yellow) => "#808000"@,
        theme::Color::Dark(theme::BaseColor::Blue) => "#000080"@,
        theme::Color::Dark(theme::BaseColor::Magenta) => "#800080"@,
        theme::Color::Dark(theme::BaseColor::Cyan) => "#008080"@,
        theme::Color::Dark(theme::BaseColor::White) => "#c0c0c0"@,
        theme::Color::Light(theme::BaseColor::Black) => "#808080"@,
        theme::Color::Light(theme::BaseColor::Red) => "#ff0000"@,
        theme::Color::Light(theme::BaseColor::Green) => "#00ff00"@,
        theme::Color::Light(theme::BaseColor::Yellow) => "#ffff00"@,
        theme::Color::Light(theme::BaseColor::Blue) => "#0000ff"@,
        theme::Color::Light(theme::BaseColor::Magenta) => "#ff00ff"@,
        theme::Color::Light(theme::BaseColor::Cyan) => "#00ffff"@,
        theme::Color::Light(theme::BaseColor::White) => "#ffffff"@,
        theme::Color::Rgb(r, g, b) => "#"@ + hex_byte(r as int) + hex_byte(g as int) + hex_byte(
            b as int,
        ),
        theme::Color::RgbLowRes(r, g, b) => "#"@ + hex_low_res(r as int) + hex_low_res(g as int)
            + hex_low_res(b as int),
        theme::Color::TerminalDefault => "#00ff00"@,
    }
}

/// The pixel-color pair that `cursive_to_color_pair` produces for an
/// abstract color pair.
pub open spec fn color_pair_hex(c: theme::ColorPair) -> ColorPairView {
    ColorPairView { front: color_hex(c.front), back: color_hex(c.back) }
}

/// Relies on `String::push`: appends the given character at the end of
/// the string.
#[verifier::external_body]
pub(crate) fn push_char(s: &mut String, c: char)
    ensures
        final(s)@ == old(s)@.push(c),
{
    s.push(c)
}

/// The lower-case hex digit for a nibble value, as an executable char.
fn hex_digit_char(n: u8) -> (c: char)
    requires
        n < 16,
    ensures
        c == hex_digit(n as int),
{
    if n == 0 {
        '0'
    } else if n == 1 {
        '1'
    } else if n == 2 {
        '2'
    } else if n == 3 {
        '3'
    } else if n == 4 {
        '4'
    } else if n == 5 {
        '5'
    } else if n == 6 {
        '6'
    } else if n == 7 {
        '7'
    } else if n == 8 {
        '8'
    } else if n == 9 {
        '9'
    } else if n == 10 {
        'a'
    } else if n == 11 {
        'b'
    } else if n == 12 {
        'c'
    } else if n == 13 {
        'd'
    } else if n == 14 {
        'e'
    } else {
        'f'
    }
}

/// Appends an 8-bit channel as two zero-padded hex digits.
fn push_hex_byte(s: &mut String, n: u8)
    ensures
        final(s)@ == old(s)@ + hex_byte(n as int),
{
    push_char(s, hex_digit_char(n / 16));
    push_char(s, hex_digit_char(n % 16));
    assert(final(s)@ =~= old(s)@ + hex_byte(n as int));
}

/// Appends a low-resolution channel as minimum-width-one hex.
fn push_hex_low_res(s: &mut String, n: u8)
    ensures
        final(s)@ == old(s)@ + hex_low_res(n as int),
{
    if n < 16 {
        push_char(s, hex_digit_char(n));
        assert(final(s)@ =~= old(s)@ + hex_low_res(n as int));
    } else {
        push_hex_byte(s, n);
    }
}

/// Maps an abstract color to its pixel color: the fixed palette
/// entry for a named color, the channel-encoded hex triplet for the RGB
/// forms, and the documented default `"#00ff00"` for the
/// terminal-default sentinel. Total: every abstract color yields a value.
pub fn cursive_to_color(color: theme::Color) -> (r: Color)
    ensures
        r@ == color_hex(color),
{
    match color {
        theme::Color::Dark(theme::BaseColor::Black) => String::from_str("#000000"),
        theme::Color::Dark(theme::BaseColor::Red) => String::from_str("#800000"),
        theme::Color::Dark(theme::BaseColor::Green) => String::from_str("#008000"),
        theme::Color::Dark(theme::BaseColor::Yellow) => String::from_str("#808000"),
        theme::Color::Dark(theme::BaseColor::Blue) => String::from_str("#000080"),
        theme::Color::Dark(theme::BaseColor::Magenta) => String::from_str("#800080"),
        theme::Color::Dark(theme::BaseColor::Cyan) => String::from_str("#008080"),
        theme::Color::Dark(theme::BaseColor::White) => String::from_str("#c0c0c0"),
        theme::Color::Light(theme::BaseColor::Black) => String::from_str("#808080"),
        theme::Color::Light(theme::BaseColor::Red) => String::from_str("#ff0000"),
        theme::Color::Light(theme::BaseColor::Green) => String::from_str("#00ff00"),
        theme::Color::Light(theme::BaseColor::Yellow) => String::from_str("#ffff00"),
        theme::Color::Light(theme::BaseColor::Blue) => String::from_str("#0000ff"),
        theme::Color::Light(theme::BaseColor::Magenta) => String::from_str("#ff00ff"),
        theme::Color::Light(theme::BaseColor::Cyan) => String::from_str("#00ffff"),
        theme::Color::Light(theme::BaseColor::White) => String::from_str("#ffffff"),
        theme::Color::Rgb(r, g, b) => {
            let mut s = String::from_str("#");
            push_hex_byte(&mut s, r);
            push_hex_byte(&mut s, g);
            push_hex_byte(&mut s, b);
            s
        },
        theme::Color::RgbLowRes(r, g, b) => {
            let mut s = String::from_str("#");
            push_hex_low_res(&mut s, r);
            push_hex_low_res(&mut s, g);
            push_hex_low_res(&mut s, b);
            s
        },
        theme::Color::TerminalDefault => String::from_str("#00ff00"),
    }
}

/// Maps an abstract color pair to a pixel color pair, front and back
/// mapped independently.
pub fn cursive_to_color_pair(c: theme::ColorPair) -> (r: ColorPair)
    ensures
        r@ == color_pair_hex(c),
{
    ColorPair { front: cursive_to_color(c.front), back: cursive_to_color(c.back) }
}

} // verus!
