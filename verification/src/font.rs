//! What a document has to know of a font that it embeds: its name, its
//! metrics in thousandths of an em, the widths of its glyphs and the
//! characters they stand for.
//!
//! The font's data is read by `ttf_parser`. What is read is held as plain
//! values, and what a document says of the font is computed from those.
//!
//! Only a plain face is read: one with TrueType outlines, which is how a
//! document embeds a face, and without variations, so that its metrics are
//! those that stand in the data.

use vstd::prelude::*;
use vstd::string::*;
use vstd::utf8::*;
use crate::strings::{contains_text, has_infix};

verus! {

/// The number of glyph units in one em.
pub const GLYPH_UNITS_PER_EM: i64 = 1000;

/// The units per em that are taken for a font that does not state its own.
pub const DEFAULT_UNITS_PER_EM: u16 = 1000;

/// The id of the name record that holds a font's PostScript name.
pub const POST_SCRIPT_NAME: u16 = 6;

/// Why the data of a font could not be read.
#[derive(Clone, Copy, Debug, PartialEq, Eq, Structural)]
pub enum FaceError {
    /// An attempt to read out of bounds detected.
    MalformedFont,
    /// The data does not start like a font.
    UnknownMagic,
    /// The face index is larger than the number of faces in the font.
    FaceIndexOutOfBounds,
    /// The `head` table is missing or malformed.
    NoHeadTable,
    /// The `hhea` table is missing or malformed.
    NoHheaTable,
    /// The `maxp` table is missing or malformed.
    NoMaxpTable,
    /// The face is a variable one: its table directory lists a table of
    /// variations. Its metrics depend on where it stands on its axes of
    /// variation, and such a face is not read.
    VariableFace,
    /// The face's outlines are not TrueType ones: its table directory lists a
    /// `CFF ` or `CFF2` table. A document embeds a face as a TrueType font
    /// program, and such a face is not read.
    NotTrueType,
    /// The table directory of the face announces 65535 tables. Such a face
    /// is not read.
    TooManyTables,
    /// The data is longer than the 32-bit offsets of a font reach. Such data
    /// is not read.
    TooLarge,
}

impl FaceError {
    /// Whether this is something that `ttf_parser` finds wrong with a face.
    pub open spec fn is_parse_error(self) -> bool {
        self is MalformedFont || self is UnknownMagic || self is FaceIndexOutOfBounds
            || self is NoHeadTable || self is NoHheaTable || self is NoMaxpTable
    }
}

/// The first four bytes of the data of a font collection.
pub const COLLECTION_MAGIC: u32 = 0x74746366;

/// The tag of the table of the axes of variation.
pub const TAG_FVAR: u32 = 0x66766172;

/// The tag of the table of axis variations.
pub const TAG_AVAR: u32 = 0x61766172;

/// The tag of the table of glyph variations.
pub const TAG_GVAR: u32 = 0x67766172;

/// The tag of the table of horizontal metrics variations.
pub const TAG_HVAR: u32 = 0x48564152;

/// The tag of the table of metrics variations.
pub const TAG_MVAR: u32 = 0x4D564152;

/// The tag of the table of vertical metrics variations.
pub const TAG_VVAR: u32 = 0x56564152;

/// The tag of the table of outlines in the Compact Font Format.
pub const TAG_CFF: u32 = 0x43464620;

/// The tag of the table of outlines in the Compact Font Format, version 2.
pub const TAG_CFF2: u32 = 0x43464632;

/// The number that the two bytes at `at` stand for, the high byte first.
pub open spec fn be16(data: Seq<u8>, at: int) -> int {
    data[at] * 256 + data[at + 1]
}

/// The number that the four bytes at `at` stand for, the high byte first.
pub open spec fn be32(data: Seq<u8>, at: int) -> int {
    ((data[at] * 256 + data[at + 1]) * 256 + data[at + 2]) * 256 + data[at + 3]
}

/// Where the table directory of the face with the given index starts: at the
/// start of the data of a single font, and in a collection where the
/// collection's list of offsets says, if the list reaches that far.
pub open spec fn directory_start(data: Seq<u8>, index: u32) -> Option<int> {
    if data.len() >= 4 && be32(data, 0) == COLLECTION_MAGIC {
        if 16 + 4 * index <= data.len() {
            Some(be32(data, 12 + 4 * index))
        } else {
            None
        }
    } else {
        Some(0)
    }
}

/// The number of tables that the face's table directory announces, if the
/// data reaches that far.
pub open spec fn announced_tables(data: Seq<u8>, index: u32) -> Option<int> {
    match directory_start(data, index) {
        Some(start) => if start + 6 <= data.len() {
            Some(be16(data, start + 4))
        } else {
            None
        },
        None => None,
    }
}

/// Whether a table with this tag is a table of variations.
pub open spec fn is_variation_tag(tag: int) -> bool {
    tag == TAG_FVAR || tag == TAG_AVAR || tag == TAG_GVAR || tag == TAG_HVAR || tag == TAG_MVAR
        || tag == TAG_VVAR
}

/// Whether a table with this tag holds outlines in the Compact Font Format.
pub open spec fn is_cff_tag(tag: int) -> bool {
    tag == TAG_CFF || tag == TAG_CFF2
}

/// Whether the table directory that starts at `start` has a record at
/// `record` that the data holds in full.
pub open spec fn has_record(data: Seq<u8>, start: int, record: int) -> bool {
    start + 12 + 16 * record + 16 <= data.len()
}

/// The tag of the record at `record` of the table directory that starts at
/// `start`.
pub open spec fn record_tag(data: Seq<u8>, start: int, record: int) -> int {
    be32(data, start + 12 + 16 * record)
}

/// Whether one of the first `count` records of the table directory that
/// starts at `start` is held in full and names a table of variations.
pub open spec fn lists_variation(data: Seq<u8>, start: int, count: int) -> bool {
    exists|record: int|
        0 <= record < count && has_record(data, start, record) && is_variation_tag(
            #[trigger] record_tag(data, start, record),
        )
}

/// Whether one of the first `count` records of the table directory that
/// starts at `start` is held in full and names a table of outlines in the
/// Compact Font Format.
pub open spec fn lists_cff(data: Seq<u8>, start: int, count: int) -> bool {
    exists|record: int|
        0 <= record < count && has_record(data, start, record) && is_cff_tag(
            #[trigger] record_tag(data, start, record),
        )
}

/// Why the face with the given index is not handed to `ttf_parser`, if it is
/// not, judged by the length of the data and the face's table directory
/// alone: the data is too long, the directory announces 65535 tables, or it
/// lists a table of variations or of outlines that are not TrueType ones.
pub open spec fn directory_error(data: Seq<u8>, index: u32) -> Option<FaceError> {
    if data.len() > u32::MAX {
        Some(FaceError::TooLarge)
    } else {
        match announced_tables(data, index) {
            None => None,
            Some(count) => if count == 0xFFFF {
                Some(FaceError::TooManyTables)
            } else if lists_variation(data, directory_start(data, index)->0, count) {
                Some(FaceError::VariableFace)
            } else if lists_cff(data, directory_start(data, index)->0, count) {
                Some(FaceError::NotTrueType)
            } else {
                None
            },
        }
    }
}

/// Whether the face with the given index is one that is handed to
/// `ttf_parser`.
pub open spec fn is_plain_face(data: Seq<u8>, index: u32) -> bool {
    directory_error(data, index) is None
}

/// The number that the two bytes at `at` stand for.
fn read_be16(data: &[u8], at: usize) -> (r: u16)
    requires
        at + 2 <= data@.len(),
    ensures
        r == be16(data@, at as int),
{
    (data[at] as u16) * 256 + (data[at + 1] as u16)
}

/// The number that the four bytes at `at` stand for.
fn read_be32(data: &[u8], at: usize) -> (r: u32)
    requires
        at + 4 <= data@.len(),
    ensures
        r == be32(data@, at as int),
{
    (((data[at] as u32) * 256 + (data[at + 1] as u32)) * 256 + (data[at + 2] as u32)) * 256 + (
    data[at + 3] as u32)
}

/// Judges by the length of the data and the face's table directory whether
/// the face is handed to `ttf_parser`, and says why if it is not.
pub fn check_directory(data: &[u8], index: u32) -> (r: Option<FaceError>)
    ensures
        r == directory_error(data@, index),
{
    let len = data.len();
    if len > u32::MAX as usize {
        return Some(FaceError::TooLarge);
    }
    let start: usize = if len >= 4 && read_be32(data, 0) == COLLECTION_MAGIC {
        let entry: u64 = 12 + 4 * (index as u64);
        if entry + 4 > len as u64 {
            return None;
        }
        read_be32(data, entry as usize) as usize
    } else {
        0
    };
    if start as u64 + 6 > len as u64 {
        return None;
    }
    let count = read_be16(data, start + 4);
    if count == 0xFFFF {
        return Some(FaceError::TooManyTables);
    }
    let mut variation = false;
    let mut cff = false;
    let mut record: u16 = 0;
    while record < count
        invariant
            record <= count < 0xFFFF,
            len == data@.len(),
            len <= u32::MAX,
            start <= u32::MAX,
            variation == lists_variation(data@, start as int, record as int),
            cff == lists_cff(data@, start as int, record as int),
        decreases count - record,
    {
        let at: u64 = start as u64 + 12 + 16 * (record as u64);
        if at + 16 <= len as u64 {
            let tag = read_be32(data, at as usize);
            assert(tag == record_tag(data@, start as int, record as int));
            if tag == TAG_FVAR || tag == TAG_AVAR || tag == TAG_GVAR || tag == TAG_HVAR || tag
                == TAG_MVAR || tag == TAG_VVAR {
                variation = true;
            }
            if tag == TAG_CFF || tag == TAG_CFF2 {
                cff = true;
            }
        }
        proof {
            let s = start as int;
            let n = record as int;
            assert(lists_variation(data@, s, n + 1) == (lists_variation(data@, s, n) || (
            has_record(data@, s, n) && is_variation_tag(record_tag(data@, s, n)))));
            assert(lists_cff(data@, s, n + 1) == (lists_cff(data@, s, n) || (has_record(
                data@,
                s,
                n,
            ) && is_cff_tag(record_tag(data@, s, n)))));
        }
        record += 1;
    }
    if variation {
        Some(FaceError::VariableFace)
    } else if cff {
        Some(FaceError::NotTrueType)
    } else {
        None
    }
}

/// What `ttf_parser::Face::from_slice` finds wrong with the face that has the
/// given index in the font data, if it finds anything wrong.
pub uninterp spec fn face_error(data: Seq<u8>, index: u32) -> Option<FaceError>;

/// What `ttf_parser` gives as the id of the name record at `record`, and
/// whether it gives the record's encoding as a Unicode one.
pub uninterp spec fn ttf_name_kind(data: Seq<u8>, index: u32, record: u16) -> Option<(u16, bool)>;

/// What `ttf_parser` gives as the text of the name record at `record`.
pub uninterp spec fn ttf_name_text(data: Seq<u8>, index: u32, record: u16) -> Option<Seq<char>>;

/// What `ttf_parser` gives as the face's units per em.
pub uninterp spec fn ttf_units_per_em(data: Seq<u8>, index: u32) -> Option<u16>;

/// What `ttf_parser` gives as the edges of the box that encloses every glyph
/// of the face: the least x, the least y, the greatest x, the greatest y.
pub uninterp spec fn ttf_bounding_box(data: Seq<u8>, index: u32) -> Option<(i16, i16, i16, i16)>;

/// Whether `ttf_parser` gives the face as monospaced.
pub uninterp spec fn ttf_is_monospaced(data: Seq<u8>, index: u32) -> Option<bool>;

/// Whether `ttf_parser` gives the face as italic.
pub uninterp spec fn ttf_is_italic(data: Seq<u8>, index: u32) -> Option<bool>;

/// What `ttf_parser` gives as the face's typographic ascender.
pub uninterp spec fn ttf_typographic_ascender(data: Seq<u8>, index: u32) -> Option<i16>;

/// What `ttf_parser` gives as the face's typographic descender.
pub uninterp spec fn ttf_typographic_descender(data: Seq<u8>, index: u32) -> Option<i16>;

/// What `ttf_parser` gives as the face's height of capital letters.
pub uninterp spec fn ttf_capital_height(data: Seq<u8>, index: u32) -> Option<i16>;

/// What `ttf_parser` gives as the face's weight, as a number.
pub uninterp spec fn ttf_weight(data: Seq<u8>, index: u32) -> Option<u16>;

/// What `ttf_parser` gives as the number of the face's glyphs.
pub uninterp spec fn ttf_number_of_glyphs(data: Seq<u8>, index: u32) -> Option<u16>;

/// What `ttf_parser` gives as the horizontal advance of a glyph.
pub uninterp spec fn ttf_glyph_hor_advance(data: Seq<u8>, index: u32, glyph: u16) -> Option<u16>;

/// What `ttf_parser` gives as the glyph of a character.
pub uninterp spec fn ttf_glyph_index(data: Seq<u8>, index: u32, c: char) -> Option<u16>;

/// What `ttf_parser` gives as the code points that the character mapping
/// subtable at `table` lists.
pub uninterp spec fn ttf_codepoints(data: Seq<u8>, index: u32, table: u16) -> Option<Seq<u32>>;

/// The characters of a text that may be missing.
pub open spec fn text_of(text: Option<String>) -> Option<Seq<char>> {
    match text {
        Some(text) => Some(text@),
        None => None,
    }
}

/// The numbers of a list that may be missing.
pub open spec fn list_of(list: Option<Vec<u32>>) -> Option<Seq<u32>> {
    match list {
        Some(list) => Some(list@),
        None => None,
    }
}

/// `ttf_parser::Face::from_slice`: what is wrong with the face that has the
/// given index in the font data, if anything is. It depends on the data and
/// the index alone, and it is one of the things that `ttf_parser` finds
/// wrong.
///
/// The call is made on a plain face only, as is every call below. The data
/// is then short enough that no list in it has more than `u32::MAX` entries,
/// the table directory has fewer than 65535 records, and no table of
/// variations or of Compact Font Format outlines is read: `ttf_parser` walks
/// such lists with a counter of the width of their length and reads the
/// number of axes of a variable face in that way, and nothing is stated here
/// of how it reads the Compact Font Format.
#[verifier::external_body]
fn check_face(data: &[u8], index: u32) -> (r: Option<FaceError>)
    requires
        is_plain_face(data@, index),
    ensures
        r == face_error(data@, index),
        r matches Some(error) ==> error.is_parse_error(),
{
    match ttf_parser::Face::from_slice(data, index) {
        Ok(_) => None,
        Err(ttf_parser::FaceParsingError::MalformedFont) => Some(FaceError::MalformedFont),
        Err(ttf_parser::FaceParsingError::UnknownMagic) => Some(FaceError::UnknownMagic),
        Err(ttf_parser::FaceParsingError::FaceIndexOutOfBounds) => Some(
            FaceError::FaceIndexOutOfBounds,
        ),
        Err(ttf_parser::FaceParsingError::NoHeadTable) => Some(FaceError::NoHeadTable),
        Err(ttf_parser::FaceParsingError::NoHheaTable) => Some(FaceError::NoHheaTable),
        Err(ttf_parser::FaceParsingError::NoMaxpTable) => Some(FaceError::NoMaxpTable),
    }
}

/// `ttf_parser::Face::names`, `Name::name_id` and `Name::is_unicode`, on the
/// face that `Face::from_slice` finds: the id of the name record at `record`,
/// and whether its encoding is a Unicode one. There is none at or behind the
/// first record that cannot be read.
#[verifier::external_body]
fn name_kind(data: &[u8], index: u32, record: u16) -> (r: Option<(u16, bool)>)
    requires
        is_plain_face(data@, index),
    ensures
        r == ttf_name_kind(data@, index, record),
{
    ttf_parser::Face::from_slice(data, index).ok()?.names().nth(usize::from(record)).map(
        |name| (name.name_id(), name.is_unicode()),
    )
}

/// `ttf_parser::Face::names` and `Name::to_string`, on the face that
/// `Face::from_slice` finds: the text of the name record at `record`, if the
/// record is there and holds Unicode text.
#[verifier::external_body]
fn name_text(data: &[u8], index: u32, record: u16) -> (r: Option<String>)
    requires
        is_plain_face(data@, index),
    ensures
        text_of(r) == ttf_name_text(data@, index, record),
{
    ttf_parser::Face::from_slice(data, index).ok()?.names().nth(usize::from(record)).and_then(
        |name| name.to_string(),
    )
}

/// `ttf_parser::Face::units_per_em`, on the face that `Face::from_slice`
/// finds: the face's units per em, which is given only if it is at least 16
/// and at most 16384.
#[verifier::external_body]
fn units_per_em(data: &[u8], index: u32) -> (r: Option<u16>)
    requires
        is_plain_face(data@, index),
    ensures
        r == ttf_units_per_em(data@, index),
        r matches Some(units) ==> 16 <= units <= 16384,
{
    ttf_parser::Face::from_slice(data, index).ok()?.units_per_em()
}

/// `ttf_parser::Face::global_bounding_box`, on the face that
/// `Face::from_slice` finds: the edges of the box that encloses every glyph
/// of the face, in font units. There is such a box for every face.
#[verifier::external_body]
fn global_bounding_box(data: &[u8], index: u32) -> (r: Option<(i16, i16, i16, i16)>)
    requires
        is_plain_face(data@, index),
    ensures
        r == ttf_bounding_box(data@, index),
        r is Some <==> face_error(data@, index) is None,
{
    let rect = ttf_parser::Face::from_slice(data, index).ok()?.global_bounding_box();
    Some((rect.x_min, rect.y_min, rect.x_max, rect.y_max))
}

/// `ttf_parser::Face::is_monospaced`, on the face that `Face::from_slice`
/// finds. Every face is monospaced or is not.
#[verifier::external_body]
fn is_monospaced(data: &[u8], index: u32) -> (r: Option<bool>)
    requires
        is_plain_face(data@, index),
    ensures
        r == ttf_is_monospaced(data@, index),
        r is Some <==> face_error(data@, index) is None,
{
    Some(ttf_parser::Face::from_slice(data, index).ok()?.is_monospaced())
}

/// `ttf_parser::Face::is_italic`, on the face that `Face::from_slice` finds.
/// Every face is italic or is not.
#[verifier::external_body]
fn is_italic(data: &[u8], index: u32) -> (r: Option<bool>)
    requires
        is_plain_face(data@, index),
    ensures
        r == ttf_is_italic(data@, index),
        r is Some <==> face_error(data@, index) is None,
{
    Some(ttf_parser::Face::from_slice(data, index).ok()?.is_italic())
}

/// `ttf_parser::Face::typographic_ascender`, on the face that
/// `Face::from_slice` finds, in font units. The face lists no table of
/// variations, so the value is the one that stands in the data; for a
/// variable face it would be varied, by arithmetic on numbers of the font
/// that may leave their range.
#[verifier::external_body]
fn typographic_ascender(data: &[u8], index: u32) -> (r: Option<i16>)
    requires
        is_plain_face(data@, index),
    ensures
        r == ttf_typographic_ascender(data@, index),
{
    ttf_parser::Face::from_slice(data, index).ok()?.typographic_ascender()
}

/// `ttf_parser::Face::typographic_descender`, on the face that
/// `Face::from_slice` finds, in font units. The face lists no table of
/// variations, as for the ascender.
#[verifier::external_body]
fn typographic_descender(data: &[u8], index: u32) -> (r: Option<i16>)
    requires
        is_plain_face(data@, index),
    ensures
        r == ttf_typographic_descender(data@, index),
{
    ttf_parser::Face::from_slice(data, index).ok()?.typographic_descender()
}

/// `ttf_parser::Face::capital_height`, on the face that `Face::from_slice`
/// finds, in font units. The face lists no table of variations, as for the
/// ascender.
#[verifier::external_body]
fn capital_height(data: &[u8], index: u32) -> (r: Option<i16>)
    requires
        is_plain_face(data@, index),
    ensures
        r == ttf_capital_height(data@, index),
{
    ttf_parser::Face::from_slice(data, index).ok()?.capital_height()
}

/// `ttf_parser::Face::weight` and `Weight::to_number`, on the face that
/// `Face::from_slice` finds: the face's weight as a number. Every face has a
/// weight.
#[verifier::external_body]
fn weight(data: &[u8], index: u32) -> (r: Option<u16>)
    requires
        is_plain_face(data@, index),
    ensures
        r == ttf_weight(data@, index),
        r is Some <==> face_error(data@, index) is None,
{
    Some(ttf_parser::Face::from_slice(data, index).ok()?.weight().to_number())
}

/// `ttf_parser::Face::number_of_glyphs`, on the face that `Face::from_slice`
/// finds. Every face has a number of glyphs, which is never zero.
#[verifier::external_body]
fn number_of_glyphs(data: &[u8], index: u32) -> (r: Option<u16>)
    requires
        is_plain_face(data@, index),
    ensures
        r == ttf_number_of_glyphs(data@, index),
        r is Some <==> face_error(data@, index) is None,
        r matches Some(number) ==> number >= 1,
{
    Some(ttf_parser::Face::from_slice(data, index).ok()?.number_of_glyphs())
}

/// `ttf_parser::Face::glyph_hor_advance`, on the face that `Face::from_slice`
/// finds: the horizontal advance of a glyph, in font units. The face lists no
/// table of variations, as for the ascender.
#[verifier::external_body]
fn glyph_hor_advance(data: &[u8], index: u32, glyph: u16) -> (r: Option<u16>)
    requires
        is_plain_face(data@, index),
    ensures
        r == ttf_glyph_hor_advance(data@, index, glyph),
{
    ttf_parser::Face::from_slice(data, index).ok()?.glyph_hor_advance(ttf_parser::GlyphId(glyph))
}

/// `ttf_parser::Face::glyph_index`, on the face that `Face::from_slice`
/// finds: the glyph that the face has for a character.
#[verifier::external_body]
fn glyph_index(data: &[u8], index: u32, c: char) -> (r: Option<u16>)
    requires
        is_plain_face(data@, index),
    ensures
        r == ttf_glyph_index(data@, index, c),
{
    ttf_parser::Face::from_slice(data, index).ok()?.glyph_index(c).map(|glyph| glyph.0)
}

/// `ttf_parser::Face::character_mapping_subtables` and
/// `cmap::Subtable::codepoints`, on the face that `Face::from_slice` finds:
/// the code points that the character mapping subtable at `table` lists, in
/// its order. There is no subtable at or behind the first one that cannot be
/// read.
#[verifier::external_body]
fn codepoints(data: &[u8], index: u32, table: u16) -> (r: Option<Vec<u32>>)
    requires
        is_plain_face(data@, index),
    ensures
        list_of(r) == ttf_codepoints(data@, index, table),
{
    let face = ttf_parser::Face::from_slice(data, index).ok()?;
    let subtable = face.character_mapping_subtables().nth(usize::from(table))?;
    let mut listed = Vec::new();
    subtable.codepoints(|codepoint| note(&mut listed, codepoint));
    Some(listed)
}

/// Puts a code point behind those that were noted before.
fn note(listed: &mut Vec<u32>, codepoint: u32)
    ensures
        final(listed)@ == old(listed)@.push(codepoint),
{
    listed.push(codepoint);
}

/// Whether a number is the code of a character: at most 0x10FFFF and no
/// surrogate.
pub open spec fn is_char_code(code: u32) -> bool {
    code <= 0x10FFFF && !(0xD800 <= code <= 0xDFFF)
}

/// `char::from_u32`: the character with the given code, which there is
/// exactly if the number is the code of a character.
pub assume_specification[ char::from_u32 ](code: u32) -> (r: Option<char>)
    ensures
        is_char_code(code) ==> r == Some(code as char),
        !is_char_code(code) ==> r is None,
;

/// A box by its four edges.
#[derive(Debug, PartialEq, Eq)]
pub struct FontBox<T> {
    pub x_min: T,
    pub y_min: T,
    pub x_max: T,
    pub y_max: T,
}

impl<T: Copy> Clone for FontBox<T> {
    fn clone(&self) -> (r: Self)
        ensures
            r == *self,
    {
        *self
    }
}

impl<T: Copy> Copy for FontBox<T> {

}

/// What was read of a face.
#[derive(Debug, PartialEq, Eq)]
pub struct FaceMetrics {
    /// The text of the first name record that holds the PostScript name in a
    /// Unicode encoding, if there is such a record and its text can be read.
    pub post_script_name: Option<String>,
    /// The number of font units in one em.
    pub units_per_em: Option<u16>,
    /// The box that encloses every glyph, in font units.
    pub bounding_box: FontBox<i16>,
    /// Whether all glyphs have the same width.
    pub monospaced: bool,
    /// Whether the face is marked as italic.
    pub italic: bool,
    /// The typographic ascender, in font units.
    pub ascender: Option<i16>,
    /// The typographic descender, in font units.
    pub descender: Option<i16>,
    /// The height of capital letters, in font units.
    pub capital_height: Option<i16>,
    /// The weight as a number.
    pub weight: u16,
    /// The horizontal advance of each glyph, in font units.
    pub advances: Vec<Option<u16>>,
    /// The glyphs of the characters that the face maps, each with its
    /// character.
    pub mapping: Vec<(u16, char)>,
}

/// The flags of a font descriptor.
#[derive(Clone, Copy, Debug, PartialEq, Eq, Structural)]
pub struct FontFlags {
    pub serif: bool,
    pub fixed_pitch: bool,
    pub italic: bool,
    pub symbolic: bool,
    pub small_cap: bool,
}

/// What a document says of a font. Lengths are in glyph units, of which an
/// em has a thousand.
#[derive(Debug, PartialEq, Eq)]
pub struct FontDescription {
    /// The name under which the font is embedded.
    pub base_font: String,
    /// The flags of the font descriptor.
    pub flags: FontFlags,
    /// The box that encloses every glyph.
    pub bounding_box: FontBox<i32>,
    /// The ascent.
    pub ascent: i32,
    /// The descent.
    pub descent: i32,
    /// The height of capital letters.
    pub cap_height: i32,
    /// The weight as a number, from which a writer derives the stem width.
    pub weight: u16,
    /// The width of each glyph.
    pub widths: Vec<i32>,
    /// The glyphs of the characters that the face maps, each with its
    /// character.
    pub mapping: Vec<(u16, char)>,
}

/// A length of `value` font units in glyph units, for a font with
/// `units_per_em` font units in an em: a thousand times the length in ems,
/// rounded to the nearest whole number, a half away from zero.
pub open spec fn spec_to_glyph_unit(value: int, units_per_em: int) -> int {
    let scaled = GLYPH_UNITS_PER_EM * value;
    if scaled >= 0 {
        (2 * scaled + units_per_em) / (2 * units_per_em)
    } else {
        -((2 * (-scaled) + units_per_em) / (2 * units_per_em))
    }
}

/// Converts a length in font units to glyph units.
pub fn to_glyph_unit(value: i32, units_per_em: u16) -> (r: i32)
    requires
        units_per_em > 0,
        -0x10000 <= value <= 0x10000,
    ensures
        r == spec_to_glyph_unit(value as int, units_per_em as int),
{
    let scaled: i64 = GLYPH_UNITS_PER_EM * (value as i64);
    let units: i64 = units_per_em as i64;
    if scaled >= 0 {
        let q = (2 * scaled + units) / (2 * units);
        assert(q <= 2 * scaled + units) by (nonlinear_arith)
            requires
                q == (2 * scaled + units) / (2 * units),
                units >= 1,
                scaled >= 0,
        ;
        q as i32
    } else {
        let q = (2 * (-scaled) + units) / (2 * units);
        assert(0 <= q <= 2 * (-scaled) + units) by (nonlinear_arith)
            requires
                q == (2 * (-scaled) + units) / (2 * units),
                units >= 1,
                scaled < 0,
        ;
        (-q) as i32
    }
}

impl FaceMetrics {
    /// The units per em that lengths are measured in: the face's own or,
    /// where it has none, the default.
    pub open spec fn spec_units(&self) -> u16 {
        match self.units_per_em {
            Some(units) => units,
            None => DEFAULT_UNITS_PER_EM,
        }
    }

    /// The name of the face: its PostScript name or, where none was read,
    /// `unknown`.
    pub open spec fn spec_name(&self) -> Seq<char> {
        match self.post_script_name {
            Some(name) => name@,
            None => "unknown"@,
        }
    }

    /// The name under which the face is embedded.
    pub open spec fn spec_base_font(&self) -> Seq<char> {
        "ABCDEF+"@ + self.spec_name()
    }

    /// A length of the face in glyph units.
    pub open spec fn spec_scaled(&self, value: int) -> int {
        spec_to_glyph_unit(value, self.spec_units() as int)
    }

    /// The flags of the face: it counts as a serif face if its name holds
    /// `Serif`, and always as symbolic and as having small capitals.
    pub open spec fn spec_flags(&self) -> FontFlags {
        FontFlags {
            serif: has_infix(encode_utf8(self.spec_name()), encode_utf8("Serif"@)),
            fixed_pitch: self.monospaced,
            italic: self.italic,
            symbolic: true,
            small_cap: true,
        }
    }

    /// The ascent in font units: the typographic ascender, or zero.
    pub open spec fn spec_ascender(&self) -> i16 {
        match self.ascender {
            Some(ascender) => ascender,
            None => 0,
        }
    }

    /// The descent in font units: the typographic descender, or zero.
    pub open spec fn spec_descender(&self) -> i16 {
        match self.descender {
            Some(descender) => descender,
            None => 0,
        }
    }

    /// The height of capital letters in font units, for which the ascent
    /// stands in where the face states none.
    pub open spec fn spec_capital_height(&self) -> i16 {
        match self.capital_height {
            Some(height) => height,
            None => self.spec_ascender(),
        }
    }

    /// The width of the glyph at `glyph` in glyph units; a glyph without an
    /// advance has the width zero.
    pub open spec fn spec_width(&self, glyph: int) -> int {
        match self.advances@[glyph] {
            Some(advance) => self.spec_scaled(advance as int),
            None => self.spec_scaled(0),
        }
    }

    /// Whether the units per em, if the face states them, are not zero.
    pub open spec fn measurable(&self) -> bool {
        self.units_per_em != Some(0u16)
    }

    /// Whether `description` is what a document says of the face: its name
    /// behind six letters and a plus sign, its flags, its lengths in glyph
    /// units, the width of each glyph, its weight and its mapping as they
    /// are.
    pub open spec fn describes(&self, description: FontDescription) -> bool {
        &&& description.base_font@ == self.spec_base_font()
        &&& description.flags == self.spec_flags()
        &&& description.bounding_box == (FontBox {
            x_min: self.spec_scaled(self.bounding_box.x_min as int) as i32,
            y_min: self.spec_scaled(self.bounding_box.y_min as int) as i32,
            x_max: self.spec_scaled(self.bounding_box.x_max as int) as i32,
            y_max: self.spec_scaled(self.bounding_box.y_max as int) as i32,
        })
        &&& description.ascent == self.spec_scaled(self.spec_ascender() as int)
        &&& description.descent == self.spec_scaled(self.spec_descender() as int)
        &&& description.cap_height == self.spec_scaled(self.spec_capital_height() as int)
        &&& description.weight == self.weight
        &&& description.widths@.len() == self.advances@.len()
        &&& forall|glyph: int|
            0 <= glyph < self.advances@.len() ==> #[trigger] description.widths@[glyph]
                == self.spec_width(glyph)
        &&& description.mapping@ == self.mapping@
    }

    /// What a document says of the face.
    pub fn describe(self) -> (r: FontDescription)
        requires
            self.measurable(),
        ensures
            self.describes(r),
    {
        let name: &str = match &self.post_script_name {
            Some(name) => name.as_str(),
            None => "unknown",
        };
        let mut base_font = "ABCDEF+".to_owned();
        base_font.push_str(name);
        let units = match self.units_per_em {
            Some(units) => units,
            None => DEFAULT_UNITS_PER_EM,
        };
        let bounding_box = FontBox {
            x_min: to_glyph_unit(self.bounding_box.x_min as i32, units),
            y_min: to_glyph_unit(self.bounding_box.y_min as i32, units),
            x_max: to_glyph_unit(self.bounding_box.x_max as i32, units),
            y_max: to_glyph_unit(self.bounding_box.y_max as i32, units),
        };
        let flags = FontFlags {
            serif: contains_text(name, "Serif"),
            fixed_pitch: self.monospaced,
            italic: self.italic,
            symbolic: true,
            small_cap: true,
        };
        let ascender = match self.ascender {
            Some(ascender) => ascender,
            None => 0,
        };
        let descender = match self.descender {
            Some(descender) => descender,
            None => 0,
        };
        let capital_height = match self.capital_height {
            Some(height) => height,
            None => ascender,
        };
        let n = self.advances.len();
        let mut widths: Vec<i32> = Vec::new();
        let mut glyph: usize = 0;
        while glyph < n
            invariant
                glyph <= n,
                n == self.advances@.len(),
                units > 0,
                units == self.spec_units(),
                widths@.len() == glyph,
                forall|g: int| 0 <= g < glyph ==> #[trigger] widths@[g] == self.spec_width(g),
            decreases n - glyph,
        {
            let advance = match self.advances[glyph] {
                Some(advance) => advance,
                None => 0,
            };
            widths.push(to_glyph_unit(advance as i32, units));
            glyph += 1;
        }
        FontDescription {
            base_font,
            flags,
            bounding_box,
            ascent: to_glyph_unit(ascender as i32, units),
            descent: to_glyph_unit(descender as i32, units),
            cap_height: to_glyph_unit(capital_height as i32, units),
            weight: self.weight,
            widths,
            mapping: self.mapping,
        }
    }
}

/// Whether a name record with this id and this kind of encoding holds a
/// PostScript name that can be read as text.
pub open spec fn is_post_script_name(kind: (u16, bool)) -> bool {
    kind.0 == POST_SCRIPT_NAME && kind.1
}

/// The place of the first name record at or behind `from` that holds a
/// PostScript name in a Unicode encoding, given the id of each record and
/// whether its encoding is a Unicode one.
pub open spec fn first_post_script_name(kinds: Seq<(u16, bool)>, from: int) -> Option<int>
    decreases kinds.len() - from,
{
    if from < 0 || from >= kinds.len() {
        None
    } else if is_post_script_name(kinds[from]) {
        Some(from)
    } else {
        first_post_script_name(kinds, from + 1)
    }
}

/// The place of the first name record that holds a PostScript name in a
/// Unicode encoding, given the id of each record and whether its encoding is
/// a Unicode one.
pub fn find_post_script_name(kinds: &Vec<(u16, bool)>) -> (r: Option<usize>)
    ensures
        match r {
            Some(place) => place < kinds@.len() && is_post_script_name(kinds@[place as int])
                && forall|i: int| 0 <= i < place ==> !is_post_script_name(#[trigger] kinds@[i]),
            None => forall|i: int|
                0 <= i < kinds@.len() ==> !is_post_script_name(#[trigger] kinds@[i]),
        },
        match r {
            Some(place) => first_post_script_name(kinds@, 0) == Some(place as int),
            None => first_post_script_name(kinds@, 0) is None,
        },
{
    let mut place: usize = 0;
    while place < kinds.len()
        invariant
            place <= kinds@.len(),
            forall|i: int| 0 <= i < place ==> !is_post_script_name(#[trigger] kinds@[i]),
            first_post_script_name(kinds@, 0) == first_post_script_name(kinds@, place as int),
        decreases kinds.len() - place,
    {
        let (id, unicode) = kinds[place];
        if id == POST_SCRIPT_NAME && unicode {
            return Some(place);
        }
        place += 1;
    }
    None
}

/// The characters among the code points, in their order.
pub open spec fn chars_of(codes: Seq<u32>) -> Seq<char>
    decreases codes.len(),
{
    if codes.len() == 0 {
        Seq::empty()
    } else if is_char_code(codes.last()) {
        chars_of(codes.drop_last()).push(codes.last() as char)
    } else {
        chars_of(codes.drop_last())
    }
}

/// The characters that the code points stand for. A code point that is not
/// the code of a character is left out.
pub fn characters(codes: &Vec<u32>) -> (r: Vec<char>)
    ensures
        r@ == chars_of(codes@),
{
    let mut chars: Vec<char> = Vec::new();
    let mut i: usize = 0;
    while i < codes.len()
        invariant
            i <= codes@.len(),
            chars@ == chars_of(codes@.take(i as int)),
        decreases codes.len() - i,
    {
        proof {
            let next = codes@.take(i + 1);
            assert(next.drop_last() =~= codes@.take(i as int));
            assert(next.last() == codes@[i as int]);
        }
        match char::from_u32(codes[i]) {
            Some(c) => {
                chars.push(c);
            },
            None => {},
        }
        i += 1;
    }
    assert(codes@.take(codes@.len() as int) =~= codes@);
    chars
}

/// The id and the kind of encoding of each name record of the face from the
/// record `from` on, up to the first record that `ttf_parser` cannot read.
pub open spec fn name_kinds_from(data: Seq<u8>, index: u32, from: int) -> Seq<(u16, bool)>
    decreases 0x10000 - from,
{
    if from < 0 || from > u16::MAX {
        Seq::empty()
    } else {
        match ttf_name_kind(data, index, from as u16) {
            Some(kind) => seq![kind] + name_kinds_from(data, index, from + 1),
            None => Seq::empty(),
        }
    }
}

/// The text of the first name record of the face that holds a PostScript
/// name in a Unicode encoding, if there is such a record and `ttf_parser`
/// can read its text.
pub open spec fn spec_post_script_name(data: Seq<u8>, index: u32) -> Option<Seq<char>> {
    match first_post_script_name(name_kinds_from(data, index, 0), 0) {
        Some(place) => ttf_name_text(data, index, place as u16),
        None => None,
    }
}

/// The horizontal advance of each glyph of the face.
pub open spec fn spec_advances(data: Seq<u8>, index: u32) -> Seq<Option<u16>> {
    Seq::new(
        match ttf_number_of_glyphs(data, index) {
            Some(number) => number as nat,
            None => 0,
        },
        |glyph: int| ttf_glyph_hor_advance(data, index, glyph as u16),
    )
}

/// The glyphs that the face has for the characters, each with its character.
/// A character without a glyph is left out.
pub open spec fn glyph_pairs(data: Seq<u8>, index: u32, chars: Seq<char>) -> Seq<(u16, char)>
    decreases chars.len(),
{
    if chars.len() == 0 {
        Seq::empty()
    } else {
        match ttf_glyph_index(data, index, chars.last()) {
            Some(glyph) => glyph_pairs(data, index, chars.drop_last()).push((glyph, chars.last())),
            None => glyph_pairs(data, index, chars.drop_last()),
        }
    }
}

/// The glyphs of the characters that the face's character mapping subtables
/// list from the subtable `table` on, each with its character, subtable by
/// subtable up to the first one that `ttf_parser` cannot read.
pub open spec fn mapping_from(data: Seq<u8>, index: u32, table: int) -> Seq<(u16, char)>
    decreases 0x10000 - table,
{
    if table < 0 || table > u16::MAX {
        Seq::empty()
    } else {
        match ttf_codepoints(data, index, table as u16) {
            Some(codes) => glyph_pairs(data, index, chars_of(codes)) + mapping_from(
                data,
                index,
                table + 1,
            ),
            None => Seq::empty(),
        }
    }
}

/// Whether the metrics are what `ttf_parser` gives of the face with the given
/// index in the font data.
pub open spec fn is_read_from(metrics: FaceMetrics, data: Seq<u8>, index: u32) -> bool {
    &&& text_of(metrics.post_script_name) == spec_post_script_name(data, index)
    &&& metrics.units_per_em == ttf_units_per_em(data, index)
    &&& ttf_bounding_box(data, index) == Some(
        (
            metrics.bounding_box.x_min,
            metrics.bounding_box.y_min,
            metrics.bounding_box.x_max,
            metrics.bounding_box.y_max,
        ),
    )
    &&& ttf_is_monospaced(data, index) == Some(metrics.monospaced)
    &&& ttf_is_italic(data, index) == Some(metrics.italic)
    &&& metrics.ascender == ttf_typographic_ascender(data, index)
    &&& metrics.descender == ttf_typographic_descender(data, index)
    &&& metrics.capital_height == ttf_capital_height(data, index)
    &&& ttf_weight(data, index) == Some(metrics.weight)
    &&& metrics.advances@ == spec_advances(data, index)
    &&& metrics.mapping@ == mapping_from(data, index, 0)
}

/// The id and the kind of encoding of each name record of the face, up to
/// the first record that cannot be read.
fn name_kinds(data: &[u8], index: u32) -> (r: Vec<(u16, bool)>)
    requires
        is_plain_face(data@, index),
    ensures
        r@ == name_kinds_from(data@, index, 0),
        r@.len() <= u16::MAX + 1,
{
    let mut kinds: Vec<(u16, bool)> = Vec::new();
    let mut record: u16 = 0;
    loop
        invariant
            is_plain_face(data@, index),
            kinds@.len() == record,
            kinds@ + name_kinds_from(data@, index, record as int) == name_kinds_from(
                data@,
                index,
                0,
            ),
        decreases u16::MAX - record,
    {
        match name_kind(data, index, record) {
            Some(kind) => {
                assert(kinds@.push(kind) + name_kinds_from(data@, index, record + 1) =~= kinds@
                    + name_kinds_from(data@, index, record as int));
                kinds.push(kind);
            },
            None => {
                assert(kinds@ + Seq::<(u16, bool)>::empty() =~= kinds@);
                return kinds;
            },
        }
        if record == u16::MAX {
            assert(kinds@ + Seq::<(u16, bool)>::empty() =~= kinds@);
            return kinds;
        }
        record += 1;
    }
}

/// The first name record of the face that holds a PostScript name in a
/// Unicode encoding, read as text.
fn post_script_name(data: &[u8], index: u32) -> (r: Option<String>)
    requires
        is_plain_face(data@, index),
    ensures
        text_of(r) == spec_post_script_name(data@, index),
{
    let kinds = name_kinds(data, index);
    match find_post_script_name(&kinds) {
        Some(place) => name_text(data, index, place as u16),
        None => None,
    }
}

/// The glyphs of the characters that the face's character mapping subtables
/// list, each with its character, subtable by subtable.
fn character_mapping(data: &[u8], index: u32) -> (r: Vec<(u16, char)>)
    requires
        is_plain_face(data@, index),
    ensures
        r@ == mapping_from(data@, index, 0),
{
    let mut mapping: Vec<(u16, char)> = Vec::new();
    let mut table: u16 = 0;
    loop
        invariant
            is_plain_face(data@, index),
            mapping@ + mapping_from(data@, index, table as int) == mapping_from(data@, index, 0),
        decreases u16::MAX - table,
    {
        match codepoints(data, index, table) {
            Some(listed) => {
                let chars = characters(&listed);
                let ghost before = mapping@;
                let mut i: usize = 0;
                while i < chars.len()
                    invariant
                        is_plain_face(data@, index),
                        i <= chars@.len(),
                        mapping@ == before + glyph_pairs(data@, index, chars@.take(i as int)),
                    decreases chars.len() - i,
                {
                    let c = chars[i];
                    proof {
                        let next = chars@.take(i + 1);
                        assert(next.drop_last() =~= chars@.take(i as int));
                        assert(next.last() == c);
                    }
                    match glyph_index(data, index, c) {
                        Some(glyph) => {
                            mapping.push((glyph, c));
                            assert(mapping@ =~= before + glyph_pairs(
                                data@,
                                index,
                                chars@.take(i + 1),
                            ));
                        },
                        None => {},
                    }
                    i += 1;
                }
                proof {
                    assert(chars@.take(chars@.len() as int) =~= chars@);
                    assert(mapping@ + mapping_from(data@, index, table + 1) =~= before
                        + mapping_from(data@, index, table as int));
                }
            },
            None => {
                assert(mapping@ + Seq::<(u16, char)>::empty() =~= mapping@);
                return mapping;
            },
        }
        if table == u16::MAX {
            assert(mapping@ + Seq::<(u16, char)>::empty() =~= mapping@);
            return mapping;
        }
        table += 1;
    }
}

/// Why the face with the given index in the font data is not read, if it is
/// not: what its table directory shows or, where that shows nothing, what
/// `ttf_parser` finds wrong with the face.
pub open spec fn read_error(data: Seq<u8>, index: u32) -> Option<FaceError> {
    match directory_error(data, index) {
        Some(error) => Some(error),
        None => face_error(data, index),
    }
}

/// Reads from the data of a font what a document has to know of the face
/// with the given index.
///
/// The face is read exactly if it is a plain face, that is one with TrueType
/// outlines and without variations, and `ttf_parser` finds a face in the
/// data; else the reason comes back. What is read is what `ttf_parser` gives
/// of the face. Whatever that is, there is an advance for each glyph, there
/// is at least one glyph, and units per em are at least 16 and at most 16384
/// where they are given.
pub fn read_face(data: &[u8], index: u32) -> (r: Result<FaceMetrics, FaceError>)
    ensures
        r is Ok <==> read_error(data@, index) is None,
        r matches Err(error) ==> read_error(data@, index) == Some(error),
        r matches Err(error) ==> (error.is_parse_error() <==> is_plain_face(data@, index)),
        r matches Ok(metrics) ==> is_read_from(metrics, data@, index),
        r matches Ok(metrics) ==> metrics.measurable() && 1 <= metrics.advances@.len()
            <= u16::MAX && (metrics.units_per_em matches Some(units) ==> 16 <= units <= 16384),
{
    match check_directory(data, index) {
        Some(error) => {
            return Err(error);
        },
        None => {},
    }
    match check_face(data, index) {
        Some(error) => {
            return Err(error);
        },
        None => {},
    }
    let num_glyphs = number_of_glyphs(data, index).unwrap();
    let mut advances: Vec<Option<u16>> = Vec::new();
    let mut glyph: u16 = 0;
    while glyph < num_glyphs
        invariant
            glyph <= num_glyphs,
            advances@.len() == glyph,
            is_plain_face(data@, index),
            forall|g: int|
                0 <= g < glyph ==> #[trigger] advances@[g] == ttf_glyph_hor_advance(
                    data@,
                    index,
                    g as u16,
                ),
        decreases num_glyphs - glyph,
    {
        advances.push(glyph_hor_advance(data, index, glyph));
        glyph += 1;
    }
    assert(advances@ =~= spec_advances(data@, index));
    let (x_min, y_min, x_max, y_max) = global_bounding_box(data, index).unwrap();
    Ok(
        FaceMetrics {
            post_script_name: post_script_name(data, index),
            units_per_em: units_per_em(data, index),
            bounding_box: FontBox { x_min, y_min, x_max, y_max },
            monospaced: is_monospaced(data, index).unwrap(),
            italic: is_italic(data, index).unwrap(),
            ascender: typographic_ascender(data, index),
            descender: typographic_descender(data, index),
            capital_height: capital_height(data, index),
            weight: weight(data, index).unwrap(),
            advances,
            mapping: character_mapping(data, index),
        },
    )
}

/// Reads the face with the given index from the data of a font and says what
/// a document says of it.
///
/// There is a description exactly if the face is a plain face and
/// `ttf_parser` finds a face in the data; else the reason comes back. The
/// description is that of the metrics that are read from the face.
pub fn font_description(data: &[u8], index: u32) -> (r: Result<FontDescription, FaceError>)
    ensures
        r is Ok <==> read_error(data@, index) is None,
        r matches Err(error) ==> read_error(data@, index) == Some(error),
        r matches Err(error) ==> (error.is_parse_error() <==> is_plain_face(data@, index)),
        r matches Ok(description) ==> exists|metrics: FaceMetrics|
            #![trigger is_read_from(metrics, data@, index)]
            is_read_from(metrics, data@, index) && metrics.measurable() && metrics.describes(
                description,
            ),
        r matches Ok(description) ==> 1 <= description.widths@.len() <= u16::MAX,
{
    match read_face(data, index) {
        Ok(metrics) => {
            let ghost read = metrics;
            let description = metrics.describe();
            assert(is_read_from(read, data@, index) && read.describes(description));
            Ok(description)
        },
        Err(error) => Err(error),
    }
}

} // verus!
