//! Runs of shaped text.

use vstd::prelude::*;
use crate::geom::{saturate, saturate_wide, Abs, Em, Paint};
use crate::lang::Lang;

verus! {

/// A reference to a font face: its index in the store of loaded faces.
#[derive(Clone, Copy, Debug, PartialEq, Eq, Hash, Structural)]
pub struct Font {
    pub index: u32,
}

impl Font {
    /// The font with the given index in the font store.
    pub fn new(index: u32) -> (r: Font)
        ensures
            r.index == index,
    {
        Font { index }
    }
}

/// A glyph in a run of shaped text.
#[derive(Clone, Copy, Debug, PartialEq, Eq, Structural)]
pub struct Glyph {
    /// The glyph's index in the font.
    pub id: u16,
    /// The advance width of the glyph.
    pub x_advance: Em,
    /// The horizontal offset of the glyph.
    pub x_offset: Em,
    /// The first character of the glyph's cluster.
    pub c: char,
}

/// The sum of the advance widths of the glyphs, in thousandths of an em.
pub open spec fn advance_sum(glyphs: Seq<Glyph>) -> int
    decreases glyphs.len(),
{
    if glyphs.len() == 0 {
        0
    } else {
        advance_sum(glyphs.drop_last()) + glyphs.last().x_advance.raw
    }
}

/// The first characters of the glyphs' clusters, in order.
pub open spec fn glyph_chars(glyphs: Seq<Glyph>) -> Seq<char> {
    Seq::new(glyphs.len(), |i: int| glyphs[i].c)
}

/// A run of shaped text.
#[derive(Debug, PartialEq, Eq)]
pub struct Text {
    /// The font the glyphs are contained in.
    pub font: Font,
    /// The font size.
    pub size: Abs,
    /// Glyph color.
    pub fill: Paint,
    /// The natural language of the text.
    pub lang: Lang,
    /// The glyphs.
    pub glyphs: Vec<Glyph>,
}

/// What a run of text is: its attributes and the sequence of its glyphs.
pub struct TextModel {
    pub font: Font,
    pub size: Abs,
    pub fill: Paint,
    pub lang: Lang,
    pub glyphs: Seq<Glyph>,
}

impl TextModel {
    /// The width of the run: the sum of the glyphs' advances, taken at the
    /// run's font size.
    pub open spec fn width(self) -> Abs {
        (Em { raw: saturate(advance_sum(self.glyphs)) }).spec_at(self.size)
    }

    /// The characters that the run stands for.
    pub open spec fn chars(self) -> Seq<char> {
        glyph_chars(self.glyphs)
    }
}

impl View for Text {
    type V = TextModel;

    open spec fn view(&self) -> TextModel {
        TextModel {
            font: self.font,
            size: self.size,
            fill: self.fill,
            lang: self.lang,
            glyphs: self.glyphs@,
        }
    }
}

impl Clone for Text {
    fn clone(&self) -> (res: Self)
        ensures
            res@ == self@,
    {
        Text {
            font: self.font,
            size: self.size,
            fill: self.fill,
            lang: self.lang,
            glyphs: self.glyphs.clone(),
        }
    }
}

impl Text {
    /// The width of the text run.
    pub fn width(&self) -> (w: Abs)
        ensures
            w == self@.width(),
    {
        let n = self.glyphs.len();
        let mut total: i128 = 0;
        let mut i: usize = 0;
        while i < n
            invariant
                i <= n,
                n == self.glyphs@.len(),
                total == advance_sum(self.glyphs@.take(i as int)),
                -(i * 0x8000_0000_0000_0000) <= total <= i * 0x8000_0000_0000_0000,
            decreases n - i,
        {
            let advance = self.glyphs[i].x_advance.to_raw();
            proof {
                let next = self.glyphs@.take(i + 1);
                assert(next.drop_last() == self.glyphs@.take(i as int));
                assert(next.last() == self.glyphs@[i as int]);
            }
            total = total + advance as i128;
            i += 1;
        }
        proof {
            assert(self.glyphs@.take(n as int) == self.glyphs@);
        }
        let sum = Em::raw(saturate_wide(total));
        sum.at(self.size)
    }
}

} // verus!
