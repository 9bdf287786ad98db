//! Terminal cells built from half-block glyphs.
//!
//! One character cell stands for two vertically stacked pixels. The glyph
//! `'▀'` shows the foreground colour in its upper half and the background
//! colour in its lower half; `'▄'` the other way round. [`half_block_shader`]
//! merges one freshly shaded half into a cell's existing state so that the
//! two halves stay independently colourable within a single glyph choice.

use crate::color::AnsiColorMode;
use crate::color::CharColor;
use crate::color::CharColorLayer;
use crate::color::color_escape;
use crate::color::push_char;
use vstd::prelude::*;
use vstd::string::StringExecFns;

verus! {

/// Which vertical half of a character cell a pixel lands in.
pub enum CharHalf {
    Top,
    Bottom,
}

/// One terminal cell: a glyph plus its optional foreground and background
/// colours. A cell with no colour set renders as a blank space.
#[derive(Debug, Clone, Copy)]
pub struct CharInfo {
    pub char_code: char,
    pub fg_color: Option<CharColor>,
    pub bg_color: Option<CharColor>,
}

/// The state of a cell that nothing has shaded yet.
pub open spec fn blank_cell() -> CharInfo {
    CharInfo { char_code: ' ', fg_color: None, bg_color: None }
}

/// The cell that results from shading one `half` of `c` with `color`:
/// writing the half left empty by the current glyph fills the background;
/// any other write picks the glyph facing the written half and colours the
/// foreground.
pub open spec fn half_block_shaded(c: CharInfo, half: CharHalf, color: CharColor) -> CharInfo {
    match half {
        CharHalf::Top => {
            if c.char_code == '▄' {
                CharInfo { bg_color: Some(color), ..c }
            } else {
                CharInfo { char_code: '▀', fg_color: Some(color), ..c }
            }
        },
        CharHalf::Bottom => {
            if c.char_code == '▀' {
                CharInfo { bg_color: Some(color), ..c }
            } else {
                CharInfo { char_code: '▄', fg_color: Some(color), ..c }
            }
        },
    }
}

/// Merge the colour of one freshly shaded half-pixel into a cell.
pub fn half_block_shader(c: &mut CharInfo, half: &CharHalf, color: &CharColor)
    ensures
        *final(c) == half_block_shaded(*old(c), *half, *color),
{
    match half {
        CharHalf::Top => {
            if c.char_code == '▄' {
                c.bg_color = Some(*color);
            } else {
                c.char_code = '▀';
                c.fg_color = Some(*color);
            }
        },
        CharHalf::Bottom => {
            if c.char_code == '▀' {
                c.bg_color = Some(*color);
            } else {
                c.char_code = '▄';
                c.fg_color = Some(*color);
            }
        },
    }
}

/// The two pixel rows of one cell are independently colourable: on a blank
/// cell, the first written half takes the foreground and chooses the glyph,
/// and writing the other half afterwards fills the background without
/// disturbing the first half's colour or glyph — in either order.
pub proof fn lemma_two_halves_independent(c1: CharColor, c2: CharColor)
    ensures
        ({
            let both = half_block_shaded(
                half_block_shaded(blank_cell(), CharHalf::Top, c1),
                CharHalf::Bottom,
                c2,
            );
            both.char_code == '▀' && both.fg_color == Some(c1) && both.bg_color == Some(c2)
        }),
        ({
            let both = half_block_shaded(
                half_block_shaded(blank_cell(), CharHalf::Bottom, c1),
                CharHalf::Top,
                c2,
            );
            both.char_code == '▄' && both.fg_color == Some(c1) && both.bg_color == Some(c2)
        }),
{
}

/// The escape sequence that resets all terminal attributes.
pub open spec fn reset_escape() -> Seq<char> {
    seq!['\x1b', '[', '0', 'm']
}

/// The text a cell contributes to the serialized frame: a reset, then either
/// a single blank space (no colour ever written) or the colour escapes of
/// whichever layers are set followed by the glyph.
pub open spec fn cell_escape(c: CharInfo, mode: AnsiColorMode) -> Seq<char> {
    if c.fg_color is None && c.bg_color is None {
        reset_escape() + seq![' ']
    } else {
        reset_escape() + (match c.fg_color {
            Some(fg) => color_escape(fg, CharColorLayer::Foreground, mode),
            None => Seq::empty(),
        }) + (match c.bg_color {
            Some(bg) => color_escape(bg, CharColorLayer::Background, mode),
            None => Seq::empty(),
        }) + seq![c.char_code]
    }
}

impl CharInfo {
    /// A blank cell: a space with no colours.
    pub fn default() -> (c: Self)
        ensures
            c == blank_cell(),
    {
        Self { char_code: ' ', fg_color: None, bg_color: None }
    }

    /// Serialize this cell as its ANSI escape-coded text.
    pub fn to_ansi(&self, mode: &AnsiColorMode) -> (s: String)
        ensures
            s@ == cell_escape(*self, *mode),
    {
        let mut s = String::new();
        push_char(&mut s, '\x1b');
        push_char(&mut s, '[');
        push_char(&mut s, '0');
        push_char(&mut s, 'm');
        if self.fg_color.is_none() && self.bg_color.is_none() {
            push_char(&mut s, ' ');
            proof {
                assert(s@ =~= cell_escape(*self, *mode));
            }
            return s;
        }
        if let Some(fg) = &self.fg_color {
            let e = fg.to_ansi(&CharColorLayer::Foreground, mode);
            s.append(e.as_str());
        }
        if let Some(bg) = &self.bg_color {
            let e = bg.to_ansi(&CharColorLayer::Background, mode);
            s.append(e.as_str());
        }
        push_char(&mut s, self.char_code);
        proof {
            assert(s@ =~= cell_escape(*self, *mode));
        }
        s
    }
}

} // verus!
