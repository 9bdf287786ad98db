//! RGB colours and their ANSI terminal escape encodings.
//!
//! A [`CharColor`] is a plain RGB24 triple. It can be written out either as a
//! 24-bit truecolor escape sequence or quantized to the standard 256-colour
//! terminal palette (a 6x6x6 colour cube plus a 24-step grayscale ramp).

use vstd::prelude::*;

verus! {

/// Which colour slot of a terminal cell an ANSI escape addresses.
#[derive(Debug, Clone, Copy)]
pub enum CharColorLayer {
    Foreground,
    Background,
}

/// The two supported terminal colour encodings.
pub enum AnsiColorMode {
    Ansi256,
    AnsiTrueColor,
}

/// An RGB24 colour. A pure value type; every byte triple is valid.
#[derive(Debug, Clone, Copy, PartialEq, Eq, Structural)]
pub struct CharColor {
    pub r: u8,
    pub g: u8,
    pub b: u8,
}

/// `num / den` rounded to the nearest integer, halves rounded up.
/// Both arguments are expected non-negative with `den > 0`.
pub open spec fn rounded_div(num: int, den: int) -> int {
    (2 * num + den) / (2 * den)
}

/// Position of a gray value `r` (with `8 <= r <= 248`) on the 24-step
/// grayscale ramp of the 256-colour palette.
pub open spec fn gray_ramp_index(r: int) -> int {
    rounded_div(24 * (r - 8), 247)
}

/// Quantization of one channel to its nearest of the 6 cube levels.
pub open spec fn cube_level(c: int) -> int {
    rounded_div(5 * c, 255)
}

/// The 256-colour palette index nearest to `c`: grayscale values map to the
/// two pure endpoints (16 black, 231 white) or the grayscale ramp (232-255),
/// all other colours to the 6x6x6 cube (16 + 36*r + 6*g + b).
pub open spec fn ansi256_index(c: CharColor) -> int {
    if c.r == c.g && c.g == c.b {
        if c.r < 8 {
            16
        } else if c.r > 248 {
            231
        } else {
            232 + gray_ramp_index(c.r as int)
        }
    } else {
        16 + 36 * cube_level(c.r as int) + 6 * cube_level(c.g as int) + cube_level(c.b as int)
    }
}

/// The decimal digit character for `d`, where `0 <= d <= 9`.
pub open spec fn digit_char(d: int) -> char {
    if d == 0 {
        '0'
    } else if d == 1 {
        '1'
    } else if d == 2 {
        '2'
    } else if d == 3 {
        '3'
    } else if d == 4 {
        '4'
    } else if d == 5 {
        '5'
    } else if d == 6 {
        '6'
    } else if d == 7 {
        '7'
    } else if d == 8 {
        '8'
    } else {
        '9'
    }
}

/// The decimal numeral of `n` without leading zeroes (a single `'0'` for 0).
pub open spec fn decimal_seq(n: int) -> Seq<char>
    decreases n,
{
    if n <= 9 {
        seq![digit_char(n)]
    } else {
        decimal_seq(n / 10).push(digit_char(n % 10))
    }
}

/// Relies on `String::push`: appends exactly the one character `c`.
#[verifier::external_body]
pub(crate) fn push_char(s: &mut String, c: char)
    ensures
        final(s)@ == old(s)@.push(c),
{
    s.push(c);
}

/// The decimal digit character for `d`.
fn digit(d: u8) -> (c: char)
    requires
        d <= 9,
    ensures
        c == digit_char(d as int),
{
    match d {
        0 => '0',
        1 => '1',
        2 => '2',
        3 => '3',
        4 => '4',
        5 => '5',
        6 => '6',
        7 => '7',
        8 => '8',
        _ => '9',
    }
}

/// Appends the decimal numeral of `n` to `s`.
fn push_decimal(s: &mut String, n: u8)
    ensures
        final(s)@ == old(s)@ + decimal_seq(n as int),
{
    if n >= 100 {
        push_char(s, digit(n / 100));
    }
    if n >= 10 {
        push_char(s, digit((n / 10) % 10));
    }
    push_char(s, digit(n % 10));
    proof {
        reveal_with_fuel(decimal_seq, 3);
        if n >= 100 {
            assert(n as int / 10 >= 10);
            assert(n as int / 10 / 10 == n as int / 100);
            assert(n as int / 100 <= 9);
        } else if n >= 10 {
            assert(n as int / 10 % 10 == n as int / 10);
        }
        assert(s@ =~= old(s)@ + decimal_seq(n as int));
    }
}

/// The parameter code selecting the colour layer: "38" foreground, "48" background.
pub open spec fn layer_code(layer: CharColorLayer) -> Seq<char> {
    match layer {
        CharColorLayer::Foreground => seq!['3', '8'],
        CharColorLayer::Background => seq!['4', '8'],
    }
}

/// The full ANSI escape sequence that sets colour `c` on layer `layer` in
/// encoding `mode`: `ESC [ <layer> ;5; <index> m` for the 256-colour palette,
/// `ESC [ <layer> ;2; <r> ; <g> ; <b> m` for truecolor.
pub open spec fn color_escape(c: CharColor, layer: CharColorLayer, mode: AnsiColorMode) -> Seq<
    char,
> {
    match mode {
        AnsiColorMode::Ansi256 => seq!['\x1b', '['] + layer_code(layer) + seq![';', '5', ';']
            + decimal_seq(ansi256_index(c)) + seq!['m'],
        AnsiColorMode::AnsiTrueColor => seq!['\x1b', '['] + layer_code(layer) + seq![';', '2', ';']
            + decimal_seq(c.r as int) + seq![';'] + decimal_seq(c.g as int) + seq![';']
            + decimal_seq(c.b as int) + seq!['m'],
    }
}

impl CharColor {
    /// Quantize this colour to its 256-colour palette index.
    pub fn to_ansi256(&self) -> (idx: u8)
        ensures
            idx as int == ansi256_index(*self),
    {
        if self.r == self.g && self.g == self.b {
            if self.r < 8 {
                return 16;
            }
            if self.r > 248 {
                return 231;
            }
            let q: u32 = (48 * (self.r as u32 - 8) + 247) / 494;
            return 232 + (q as u8);
        }
        let r5: u32 = (10 * (self.r as u32) + 255) / 510;
        let g5: u32 = (10 * (self.g as u32) + 255) / 510;
        let b5: u32 = (10 * (self.b as u32) + 255) / 510;
        (16 + 36 * r5 + 6 * g5 + b5) as u8
    }

    /// Build the ANSI escape sequence that sets this colour on the given
    /// layer in the given encoding.
    pub fn to_ansi(&self, layer: &CharColorLayer, mode: &AnsiColorMode) -> (s: String)
        ensures
            s@ == color_escape(*self, *layer, *mode),
    {
        let mut s = String::new();
        push_char(&mut s, '\x1b');
        push_char(&mut s, '[');
        match layer {
            CharColorLayer::Foreground => {
                push_char(&mut s, '3');
            },
            CharColorLayer::Background => {
                push_char(&mut s, '4');
            },
        }
        push_char(&mut s, '8');
        push_char(&mut s, ';');
        match mode {
            AnsiColorMode::Ansi256 => {
                push_char(&mut s, '5');
                push_char(&mut s, ';');
                push_decimal(&mut s, self.to_ansi256());
            },
            AnsiColorMode::AnsiTrueColor => {
                push_char(&mut s, '2');
                push_char(&mut s, ';');
                push_decimal(&mut s, self.r);
                push_char(&mut s, ';');
                push_decimal(&mut s, self.g);
                push_char(&mut s, ';');
                push_decimal(&mut s, self.b);
            },
        }
        push_char(&mut s, 'm');
        proof {
            assert(s@ =~= color_escape(*self, *layer, *mode));
        }
        s
    }
}

} // verus!
