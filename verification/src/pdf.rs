//! Planning the export of layouts into PDF documents: which object gets
//! which number, which fonts are embedded, and what is drawn on each page.
//!
//! Everything here is computed without writing a byte. What a writer needs in
//! order to emit the document comes out as plain values.

use std::collections::HashMap;
use vstd::prelude::*;
use crate::geom::{Abs, Point, Size};
use crate::text::Font;

verus! {

broadcast use vstd::std_specs::hash::group_hash_axioms;

/// The number of an object in the document.
pub type Ref = u32;

/// The number of objects that are written for each font.
pub const NUM_OBJECTS_PER_FONT: u32 = 5;

/// A step in the drawing of a page.
#[derive(Debug, PartialEq, Eq)]
pub enum LayoutAction {
    /// Move to an absolute position.
    MoveAbsolute(Point),
    /// Set the font given by its face and size.
    SetFont(Font, Abs),
    /// Write text at the current position.
    WriteText(String),
    /// Visualize a box for debugging purposes.
    DebugBox(Size),
}

/// A finished page: its size and the steps that draw it.
#[derive(Debug, PartialEq, Eq)]
pub struct Layout {
    /// The size of the page.
    pub dimensions: Size,
    /// The steps that draw the page, in order.
    pub actions: Vec<LayoutAction>,
}

/// Indicates which range of object numbers will be used for which contents.
/// Each range is given by its first and its last number.
#[derive(Clone, Copy, Debug, PartialEq, Eq)]
pub struct Offsets {
    pub catalog: Ref,
    pub page_tree: Ref,
    pub pages: (Ref, Ref),
    pub contents: (Ref, Ref),
    pub fonts: (Ref, Ref),
}

/// The number of the last object of a document with that many pages and
/// fonts: the catalog, the page tree, a page and a content object for each
/// page, and the objects of each font.
pub open spec fn object_count(layout_count: int, font_count: int) -> int {
    2 + 2 * layout_count + NUM_OBJECTS_PER_FONT * font_count
}

/// The ranges of object numbers in a document with that many pages and fonts:
/// the catalog comes first, then the page tree, the pages, their contents,
/// and the fonts.
pub open spec fn spec_offsets(layout_count: int, font_count: int) -> Offsets {
    Offsets {
        catalog: 1,
        page_tree: 2,
        pages: (3, (2 + layout_count) as u32),
        contents: ((3 + layout_count) as u32, (2 + 2 * layout_count) as u32),
        fonts: (
            (3 + 2 * layout_count) as u32,
            (2 + 2 * layout_count + NUM_OBJECTS_PER_FONT * font_count) as u32,
        ),
    }
}

/// We need to know in advance which numbers to use for which objects to
/// cross-reference them. Therefore, we calculate them in the beginning.
///
/// There is no such numbering when the last number would not fit.
pub fn calculate_offsets(layout_count: usize, font_count: usize) -> (r: Option<Offsets>)
    ensures
        r is Some <==> object_count(layout_count as int, font_count as int) <= u32::MAX,
        r matches Some(offsets) ==> offsets == spec_offsets(
            layout_count as int,
            font_count as int,
        ),
{
    if layout_count > 0x7fff_ffff || font_count > 0x3333_3333 {
        return None;
    }
    let per_font = NUM_OBJECTS_PER_FONT as u64;
    assert(per_font * font_count <= 5 * 0x3333_3333) by (nonlinear_arith)
        requires
            per_font == 5,
            font_count <= 0x3333_3333,
    ;
    let last: u64 = 2 + 2 * (layout_count as u64) + per_font * (font_count as u64);
    if last > u32::MAX as u64 {
        return None;
    }
    let count = layout_count as u32;
    let catalog: Ref = 1;
    let page_tree: Ref = catalog + 1;
    let pages: (Ref, Ref) = (page_tree + 1, page_tree + count);
    let contents: (Ref, Ref) = (pages.1 + 1, pages.1 + count);
    let font_offsets: (Ref, Ref) = (contents.1 + 1, last as u32);
    Some(Offsets { catalog, page_tree, pages, contents, fonts: font_offsets })
}

/// The fonts that the steps select, in the order of the steps.
pub open spec fn fonts_selected(actions: Seq<LayoutAction>) -> Seq<Font>
    decreases actions.len(),
{
    if actions.len() == 0 {
        Seq::empty()
    } else {
        match actions.last() {
            LayoutAction::SetFont(font, _) => fonts_selected(actions.drop_last()).push(font),
            _ => fonts_selected(actions.drop_last()),
        }
    }
}

/// The fonts that the pages select, page by page.
pub open spec fn fonts_used(layouts: Seq<Layout>) -> Seq<Font>
    decreases layouts.len(),
{
    if layouts.len() == 0 {
        Seq::empty()
    } else {
        fonts_used(layouts.drop_last()) + fonts_selected(layouts.last().actions@)
    }
}

/// The fonts without the repetitions: each font where it occurs first.
pub open spec fn first_uses(fonts: Seq<Font>) -> Seq<Font>
    decreases fonts.len(),
{
    if fonts.len() == 0 {
        Seq::empty()
    } else {
        let before = first_uses(fonts.drop_last());
        if before.contains(fonts.last()) {
            before
        } else {
            before.push(fonts.last())
        }
    }
}

/// Whether the map sends each of the fonts to its place in the list, and
/// nothing else anywhere.
pub open spec fn indexes(to_pdf: Map<u32, usize>, fonts: Seq<Font>) -> bool {
    &&& forall|i: int| 0 <= i < fonts.len() ==> to_pdf.contains_key(#[trigger] fonts[i].index)
    &&& forall|i: int| 0 <= i < fonts.len() ==> to_pdf[#[trigger] fonts[i].index] == i
    &&& forall|k: u32| #[trigger]
        to_pdf.contains_key(k) ==> 0 <= to_pdf[k] < fonts.len() && fonts[to_pdf[k] as int].index
            == k
}

/// A list that is indexed by a map holds a font exactly if the map has it.
proof fn lemma_indexes_contains(to_pdf: Map<u32, usize>, fonts: Seq<Font>, font: Font)
    requires
        indexes(to_pdf, fonts),
    ensures
        fonts.contains(font) <==> to_pdf.contains_key(font.index),
{
    if to_pdf.contains_key(font.index) {
        let i = to_pdf[font.index] as int;
        assert(fonts[i] == font);
    }
}

/// Assigns a new index to each used face and returns two mappings:
/// - Forwards from the faces to the new indices (hash map)
/// - Backwards from the new indices to the faces (vec)
///
/// The faces are numbered in the order in which the pages first select them.
pub fn remap_fonts(layouts: &Vec<Layout>) -> (r: (HashMap<u32, usize>, Vec<Font>))
    ensures
        r.1@ == first_uses(fonts_used(layouts@)),
        indexes(r.0@, r.1@),
{
    let mut to_pdf: HashMap<u32, usize> = HashMap::new();
    let mut to_face: Vec<Font> = Vec::new();
    // We want to find out which fonts are used at all. To do that, look at each
    // text element to find out which font is uses.
    let mut p: usize = 0;
    while p < layouts.len()
        invariant
            p <= layouts.len(),
            to_face@ == first_uses(fonts_used(layouts@.take(p as int))),
            indexes(to_pdf@, to_face@),
        decreases layouts.len() - p,
    {
        let layout = &layouts[p];
        let ghost before = fonts_used(layouts@.take(p as int));
        let mut a: usize = 0;
        while a < layout.actions.len()
            invariant
                a <= layout.actions.len(),
                to_face@ == first_uses(before + fonts_selected(layout.actions@.take(a as int))),
                indexes(to_pdf@, to_face@),
            decreases layout.actions.len() - a,
        {
            let ghost seen = before + fonts_selected(layout.actions@.take(a as int));
            proof {
                let next = layout.actions@.take(a + 1);
                assert(next.drop_last() =~= layout.actions@.take(a as int));
                assert(next.last() == layout.actions@[a as int]);
            }
            match &layout.actions[a] {
                LayoutAction::SetFont(id, _) => {
                    proof {
                        lemma_indexes_contains(to_pdf@, to_face@, *id);
                        let grown = seen.push(*id);
                        assert(grown.drop_last() =~= seen);
                        assert(before + fonts_selected(layout.actions@.take(a + 1)) =~= grown);
                    }
                    if !to_pdf.contains_key(&id.index) {
                        let next_id = to_face.len();
                        to_face.push(*id);
                        to_pdf.insert(id.index, next_id);
                    }
                },
                _ => {},
            }
            a += 1;
        }
        proof {
            let next = layouts@.take(p + 1);
            assert(next.drop_last() =~= layouts@.take(p as int));
            assert(next.last() == layouts@[p as int]);
            assert(layout.actions@.take(layout.actions@.len() as int) =~= layout.actions@);
        }
        p += 1;
    }
    proof {
        assert(layouts@.take(layouts@.len() as int) =~= layouts@);
    }
    (to_pdf, to_face)
}

/// Every font that is used has a place among the first uses.
pub proof fn lemma_first_uses_complete(fonts: Seq<Font>, i: int)
    requires
        0 <= i < fonts.len(),
    ensures
        first_uses(fonts).contains(fonts[i]),
    decreases fonts.len(),
{
    let before = first_uses(fonts.drop_last());
    if i == fonts.len() - 1 {
        if !before.contains(fonts.last()) {
            assert(before.push(fonts.last()).last() == fonts.last());
        }
    } else {
        lemma_first_uses_complete(fonts.drop_last(), i);
        let at = choose|k: int| 0 <= k < before.len() && before[k] == fonts[i];
        if !before.contains(fonts.last()) {
            assert(before.push(fonts.last())[at] == fonts[i]);
        }
    }
}

/// The fonts that a page selects are among the fonts that the pages use.
pub proof fn lemma_fonts_of_page(layouts: Seq<Layout>, page: int, i: int)
    requires
        0 <= page < layouts.len(),
        0 <= i < fonts_selected(layouts[page].actions@).len(),
    ensures
        fonts_used(layouts).contains(fonts_selected(layouts[page].actions@)[i]),
    decreases layouts.len(),
{
    let front = fonts_used(layouts.drop_last());
    let back = fonts_selected(layouts.last().actions@);
    if page == layouts.len() - 1 {
        assert((front + back)[front.len() + i] == back[i]);
    } else {
        lemma_fonts_of_page(layouts.drop_last(), page, i);
        let font = fonts_selected(layouts[page].actions@)[i];
        let at = choose|k: int| 0 <= k < front.len() && front[k] == font;
        assert((front + back)[at] == font);
    }
}

/// An instruction of a page's content that shows text.
#[derive(Debug, PartialEq, Eq)]
pub enum TextOp {
    /// Select the font with this number among the document's fonts, at this
    /// size.
    SetFont { number: u32, size: Abs },
    /// Put the origin of the next text at this point, measured from the
    /// bottom left of the page.
    MoveTo { x: Abs, y: Abs },
    /// Show this text in this face.
    Show { face: Font, text: String },
}

/// What is remembered between the steps that draw a page.
pub struct Pen {
    /// The face that was selected last.
    pub face: Font,
    /// The font size that was selected last.
    pub size: Abs,
    /// The position that was asked for and not yet moved to.
    pub next_pos: Option<Point>,
}

impl Pen {
    /// The pen before the first step: no face, no size, nowhere to go.
    pub open spec fn start() -> Pen {
        Pen { face: Font { index: u32::MAX }, size: Abs::spec_zero(), next_pos: None }
    }

    /// The pen after a step.
    pub open spec fn after(self, action: LayoutAction) -> Pen {
        match action {
            LayoutAction::MoveAbsolute(pos) => Pen { next_pos: Some(pos), ..self },
            LayoutAction::SetFont(face, size) => Pen { face, size, ..self },
            LayoutAction::WriteText(_) => Pen { next_pos: None, ..self },
            LayoutAction::DebugBox(_) => self,
        }
    }

    /// The pen after all of the steps.
    pub open spec fn after_all(actions: Seq<LayoutAction>) -> Pen
        decreases actions.len(),
    {
        if actions.len() == 0 {
            Pen::start()
        } else {
            Pen::after_all(actions.drop_last()).after(actions.last())
        }
    }

    /// The instructions that a step gives rise to on a page of the given
    /// height: a font is selected by its number, which is one more than its
    /// index; text is shown in the selected face, after a move if a position
    /// is waiting. Positions are turned upside down, and down by the font
    /// size, because the page is measured from the bottom.
    pub open spec fn emit(self, action: LayoutAction, to_pdf: Map<u32, usize>, height: Abs) -> Seq<
        TextOp,
    > {
        match action {
            LayoutAction::MoveAbsolute(_) => Seq::empty(),
            LayoutAction::SetFont(face, size) => seq![
                TextOp::SetFont { number: (to_pdf[face.index] + 1) as u32, size },
            ],
            LayoutAction::WriteText(text) => match self.next_pos {
                Some(pos) => seq![
                    TextOp::MoveTo {
                        x: pos.x,
                        y: height.spec_minus(pos.y).spec_minus(self.size),
                    },
                    TextOp::Show { face: self.face, text },
                ],
                None => seq![TextOp::Show { face: self.face, text }],
            },
            LayoutAction::DebugBox(_) => Seq::empty(),
        }
    }
}

/// The instructions of the content of a page that is drawn by these steps.
pub open spec fn page_ops(actions: Seq<LayoutAction>, to_pdf: Map<u32, usize>, height: Abs) -> Seq<
    TextOp,
>
    decreases actions.len(),
{
    if actions.len() == 0 {
        Seq::empty()
    } else {
        page_ops(actions.drop_last(), to_pdf, height) + Pen::after_all(actions.drop_last()).emit(
            actions.last(),
            to_pdf,
            height,
        )
    }
}

/// A page object of the document.
#[derive(Clone, Copy, Debug, PartialEq, Eq)]
pub struct PageObject {
    /// The number of the page object.
    pub id: Ref,
    /// The number of the page tree that the page belongs to.
    pub parent: Ref,
    /// The number of the object that holds the page's content.
    pub content: Ref,
    /// The size of the page.
    pub media_box: Size,
}

/// The numbers of the objects that are written for one font.
#[derive(Clone, Copy, Debug, PartialEq, Eq)]
pub struct FontObjects {
    /// The base font object, which references the CID font.
    pub base: Ref,
    /// The CID font, which references the font descriptor.
    pub cid: Ref,
    /// The font descriptor, which holds the global information about the
    /// font.
    pub descriptor: Ref,
    /// The map from glyphs to characters.
    pub cmap: Ref,
    /// The font's data.
    pub file: Ref,
}

/// The data relevant to the export of one document.
#[derive(Debug)]
pub struct PdfPlan<'a> {
    layouts: &'a Vec<Layout>,
    /// Since we cross-reference pages and faces with their numbers already in
    /// the document catalog, we need to know exactly which number is used for
    /// what from the beginning. Thus, we compute a range for each category of
    /// object and store these here.
    offsets: Offsets,
    /// The index of each used face among the document's fonts.
    to_pdf: HashMap<u32, usize>,
    /// The used faces, each at its index.
    to_face: Vec<Font>,
}

impl<'a> PdfPlan<'a> {
    #[verifier::type_invariant]
    spec fn well_formed(self) -> bool {
        &&& self.to_face@ == first_uses(fonts_used(self.layouts@))
        &&& indexes(self.to_pdf@, self.to_face@)
        &&& object_count(self.layouts@.len() as int, self.to_face@.len() as int) <= u32::MAX
        &&& self.offsets == spec_offsets(
            self.layouts@.len() as int,
            self.to_face@.len() as int,
        )
    }

    /// The pages that are exported.
    pub closed spec fn layouts(&self) -> Seq<Layout> {
        self.layouts@
    }

    /// The index of each used face among the document's fonts.
    pub closed spec fn to_pdf(&self) -> Map<u32, usize> {
        self.to_pdf@
    }

    /// The number of fonts of a document with these pages.
    pub open spec fn font_count(layouts: Seq<Layout>) -> nat {
        first_uses(fonts_used(layouts)).len()
    }

    /// Prepare the export: number the fonts that the pages use and give every
    /// object of the document its number.
    ///
    /// There is no plan when the objects are too many to be numbered.
    pub fn new(layouts: &'a Vec<Layout>) -> (r: Option<PdfPlan<'a>>)
        ensures
            r is Some <==> object_count(
                layouts@.len() as int,
                PdfPlan::font_count(layouts@) as int,
            ) <= u32::MAX,
            r matches Some(plan) ==> plan.layouts() == layouts@ && indexes(
                plan.to_pdf(),
                first_uses(fonts_used(layouts@)),
            ),
    {
        let (to_pdf, to_face) = remap_fonts(layouts);
        match calculate_offsets(layouts.len(), to_face.len()) {
            Some(offsets) => Some(PdfPlan { layouts, offsets, to_pdf, to_face }),
            None => None,
        }
    }

    /// The ranges of object numbers of the document.
    pub fn offsets(&self) -> (r: Offsets)
        ensures
            r == spec_offsets(
                self.layouts().len() as int,
                PdfPlan::font_count(self.layouts()) as int,
            ),
    {
        proof {
            use_type_invariant(self);
        }
        self.offsets
    }

    /// The faces that the document embeds, each at its index: the faces
    /// that the pages select, in the order in which they first do.
    pub fn fonts(&self) -> (r: &Vec<Font>)
        ensures
            r@ == first_uses(fonts_used(self.layouts())),
            indexes(self.to_pdf(), r@),
    {
        proof {
            use_type_invariant(self);
        }
        &self.to_face
    }

    /// The number of pages of the document.
    pub fn page_count(&self) -> (r: usize)
        ensures
            r == self.layouts().len(),
    {
        self.layouts.len()
    }

    /// The font resources of the page tree: for each font its number, which
    /// is one more than its index, and the number of its first object.
    pub fn font_resources(&self) -> (r: Vec<(u32, Ref)>)
        ensures
            r@.len() == PdfPlan::font_count(self.layouts()),
            forall|i: int|
                0 <= i < r@.len() ==> #[trigger] r@[i] == (
                    (i + 1) as u32,
                    (3 + 2 * self.layouts().len() + NUM_OBJECTS_PER_FONT * i) as u32,
                ),
    {
        proof {
            use_type_invariant(self);
        }
        let start = self.offsets.fonts.0;
        let n = self.to_face.len();
        let mut fonts: Vec<(u32, Ref)> = Vec::new();
        let mut i: usize = 0;
        while i < n
            invariant
                i <= n,
                n == self.to_face@.len(),
                start == 3 + 2 * self.layouts@.len(),
                object_count(self.layouts@.len() as int, n as int) <= u32::MAX,
                fonts@.len() == i,
                forall|k: int|
                    0 <= k < i ==> #[trigger] fonts@[k] == (
                        (k + 1) as u32,
                        (3 + 2 * self.layouts@.len() + NUM_OBJECTS_PER_FONT * k) as u32,
                    ),
            decreases n - i,
        {
            let k = i as u32;
            fonts.push((k + 1, start + NUM_OBJECTS_PER_FONT * k));
            i += 1;
        }
        fonts
    }

    /// The numbers of the objects of the font with the given index.
    pub fn font_objects(&self, index: usize) -> (r: FontObjects)
        requires
            index < PdfPlan::font_count(self.layouts()),
        ensures
            r.base == 3 + 2 * self.layouts().len() + NUM_OBJECTS_PER_FONT * index,
            r.cid == r.base + 1,
            r.descriptor == r.base + 2,
            r.cmap == r.base + 3,
            r.file == r.base + 4,
    {
        proof {
            use_type_invariant(self);
        }
        let base = self.offsets.fonts.0 + NUM_OBJECTS_PER_FONT * (index as u32);
        FontObjects { base, cid: base + 1, descriptor: base + 2, cmap: base + 3, file: base + 4 }
    }

    /// The page objects (non-root nodes in the page tree), in the order of
    /// the pages.
    pub fn page_objects(&self) -> (r: Vec<PageObject>)
        ensures
            r@.len() == self.layouts().len(),
            forall|i: int|
                0 <= i < r@.len() ==> #[trigger] r@[i] == (PageObject {
                    id: (3 + i) as u32,
                    parent: 2,
                    content: (3 + self.layouts().len() + i) as u32,
                    media_box: self.layouts()[i].dimensions,
                }),
    {
        proof {
            use_type_invariant(self);
        }
        let n = self.layouts.len();
        let mut pages: Vec<PageObject> = Vec::new();
        let mut i: usize = 0;
        while i < n
            invariant
                i <= n,
                n == self.layouts@.len(),
                2 + 2 * n <= u32::MAX,
                self.offsets.page_tree == 2,
                self.offsets.pages.0 == 3,
                self.offsets.contents.0 == 3 + n,
                pages@.len() == i,
                forall|k: int|
                    0 <= k < i ==> #[trigger] pages@[k] == (PageObject {
                        id: (3 + k) as u32,
                        parent: 2,
                        content: (3 + n + k) as u32,
                        media_box: self.layouts@[k].dimensions,
                    }),
            decreases n - i,
        {
            let k = i as u32;
            pages.push(
                PageObject {
                    id: self.offsets.pages.0 + k,
                    parent: self.offsets.page_tree,
                    content: self.offsets.contents.0 + k,
                    media_box: self.layouts[i].dimensions,
                },
            );
            i += 1;
        }
        pages
    }

    /// The content of the page with the given index.
    pub fn page_operations(&self, index: usize) -> (r: Vec<TextOp>)
        requires
            index < self.layouts().len(),
        ensures
            r@ == page_ops(
                self.layouts()[index as int].actions@,
                self.to_pdf(),
                self.layouts()[index as int].dimensions.y,
            ),
    {
        proof {
            use_type_invariant(self);
        }
        let page = &self.layouts[index];
        let height = page.dimensions.y;
        // Moves and face switches are always cached and only flushed once
        // needed.
        let mut ops: Vec<TextOp> = Vec::new();
        let mut face = Font::new(u32::MAX);
        let mut font_size = Abs::zero();
        let mut next_pos: Option<Point> = None;
        let n = page.actions.len();
        let mut i: usize = 0;
        while i < n
            invariant
                i <= n,
                n == page.actions@.len(),
                index < self.layouts@.len(),
                page == self.layouts@[index as int],
                height == page.dimensions.y,
                self.to_face@ == first_uses(fonts_used(self.layouts@)),
                indexes(self.to_pdf@, self.to_face@),
                object_count(self.layouts@.len() as int, self.to_face@.len() as int)
                    <= u32::MAX,
                (Pen { face, size: font_size, next_pos }) == Pen::after_all(
                    page.actions@.take(i as int),
                ),
                ops@ == page_ops(page.actions@.take(i as int), self.to_pdf@, height),
            decreases n - i,
        {
            proof {
                let next = page.actions@.take(i + 1);
                assert(next.drop_last() =~= page.actions@.take(i as int));
                assert(next.last() == page.actions@[i as int]);
            }
            match &page.actions[i] {
                LayoutAction::MoveAbsolute(pos) => {
                    next_pos = Some(*pos);
                    assert(ops@ + Seq::<TextOp>::empty() =~= ops@);
                },
                LayoutAction::SetFont(id, size) => {
                    proof {
                        let selected = fonts_selected(page.actions@.take(i + 1));
                        assert(selected.last() == *id);
                        lemma_selected_is_prefix(page.actions@, i + 1);
                        lemma_fonts_of_page(self.layouts@, index as int, selected.len() - 1);
                        let used = fonts_used(self.layouts@);
                        let at = choose|k: int| 0 <= k < used.len() && used[k] == *id;
                        lemma_first_uses_complete(used, at);
                        lemma_indexes_contains(self.to_pdf@, self.to_face@, *id);
                    }
                    face = *id;
                    font_size = *size;
                    let place = match self.to_pdf.get(&id.index) {
                        Some(place) => *place,
                        None => 0,
                    };
                    ops.push(TextOp::SetFont { number: place as u32 + 1, size: font_size });
                },
                LayoutAction::WriteText(string) => {
                    match next_pos {
                        Some(pos) => {
                            let x = pos.x;
                            let y = height.minus(pos.y).minus(font_size);
                            ops.push(TextOp::MoveTo { x, y });
                        },
                        None => {},
                    }
                    next_pos = None;
                    ops.push(TextOp::Show { face, text: string.clone() });
                    assert(ops@ =~= page_ops(page.actions@.take(i + 1), self.to_pdf@, height));
                },
                LayoutAction::DebugBox(_) => {
                    assert(ops@ + Seq::<TextOp>::empty() =~= ops@);
                },
            }
            i += 1;
        }
        proof {
            assert(page.actions@.take(n as int) =~= page.actions@);
        }
        ops
    }
}

/// The fonts that the first steps select are the first of the fonts that all
/// the steps select.
proof fn lemma_selected_is_prefix(actions: Seq<LayoutAction>, steps: int)
    requires
        0 <= steps <= actions.len(),
    ensures
        fonts_selected(actions.take(steps)).len() <= fonts_selected(actions).len(),
        forall|k: int|
            0 <= k < fonts_selected(actions.take(steps)).len() ==> fonts_selected(
                actions.take(steps),
            )[k] == fonts_selected(actions)[k],
    decreases actions.len() - steps,
{
    if steps == actions.len() {
        assert(actions.take(steps) =~= actions);
    } else {
        lemma_selected_is_prefix(actions, steps + 1);
        let next = actions.take(steps + 1);
        assert(next.drop_last() =~= actions.take(steps));
    }
}

} // verus!
