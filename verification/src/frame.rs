//! Finished layouts: frames of elements at fixed positions.
//!
//! A frame keeps its elements in a buffer that several frames may share. A
//! frame that is about to change a shared buffer first takes a copy of its
//! own, so a change is never seen through another frame.

use std::sync::Arc;
use vstd::prelude::*;
use vstd::std_specs::iter::IteratorSpec;
use crate::geom::{Abs, Axes, Point, Shape, Size, Transform};
use crate::image::Image;
use crate::meta::{folded, Meta, StyleChain};
use crate::text::{Text, TextModel};

verus! {

/// The largest number of elements with which a frame is still taken apart
/// when it is added to a frame that already has elements.
pub const INLINE_LIMIT: usize = 5;

/// A finished layout with elements at fixed positions.
#[derive(Debug)]
pub struct Frame {
    /// The size of the frame.
    size: Size,
    /// The baseline of the frame measured from the top. If this is `None`, the
    /// frame's implicit baseline is at the bottom.
    baseline: Option<Abs>,
    /// The elements composing this layout.
    elements: Arc<Vec<Item>>,
}

/// An element of a frame together with its position relative to the top left
/// of the frame.
#[derive(Debug)]
pub struct Item {
    /// Where the element is placed.
    pub pos: Point,
    /// What is placed there.
    pub element: Element,
}

/// The building block frames are composed of.
#[derive(Debug)]
pub enum Element {
    /// A group of elements.
    Group(Group),
    /// A run of shaped text.
    Text(Text),
    /// A geometric shape with optional fill and stroke.
    Shape(Shape),
    /// An image and its size.
    Image(Image, Size),
    /// Meta information and the region it applies to.
    Meta(Meta, Size),
}

/// A group of elements with optional clipping.
#[derive(Debug)]
pub struct Group {
    /// The group's frame.
    pub frame: Frame,
    /// A transformation to apply to the group.
    pub transform: Transform,
    /// Whether the frame should be a clipping boundary.
    pub clips: bool,
}

/// What a frame is: its size, its explicit baseline if it has one, and its
/// elements with their positions, in paint order from back to front.
pub struct FrameModel {
    pub size: Size,
    pub baseline: Option<Abs>,
    pub items: Seq<(Point, ElementModel)>,
}

/// What an element is.
pub enum ElementModel {
    Group(GroupModel),
    Text(TextModel),
    Shape(Shape),
    Image(Image, Size),
    Meta(Meta, Size),
}

/// What a group is.
pub struct GroupModel {
    pub frame: FrameModel,
    pub transform: Transform,
    pub clips: bool,
}

/// The model of a frame.
pub closed spec fn frame_model(frame: Frame) -> FrameModel
    decreases frame,
{
    FrameModel {
        size: frame.size,
        baseline: frame.baseline,
        items: Seq::new(
            frame.elements@.len(),
            |i: int|
                if 0 <= i < frame.elements@.len() {
                    (frame.elements@[i].pos, element_model(frame.elements@[i].element))
                } else {
                    arbitrary()
                },
        ),
    }
}

/// The model of an element.
pub open spec fn element_model(element: Element) -> ElementModel
    decreases element,
{
    match element {
        Element::Group(group) => ElementModel::Group(
            GroupModel {
                frame: frame_model(group.frame),
                transform: group.transform,
                clips: group.clips,
            },
        ),
        Element::Text(text) => ElementModel::Text(text@),
        Element::Shape(shape) => ElementModel::Shape(shape),
        Element::Image(image, size) => ElementModel::Image(image, size),
        Element::Meta(meta, size) => ElementModel::Meta(meta, size),
    }
}

/// The models of placed elements, each with its position.
pub open spec fn items_model(items: Seq<Item>) -> Seq<(Point, ElementModel)> {
    Seq::new(items.len(), |i: int| (items[i].pos, element_model(items[i].element)))
}

/// Placed elements, each moved by `offset`.
pub open spec fn shift(items: Seq<(Point, ElementModel)>, offset: Point) -> Seq<
    (Point, ElementModel),
> {
    Seq::new(items.len(), |i: int| (items[i].0.spec_plus(offset), items[i].1))
}

/// One metadata element for each entry of `metas`, each placed at the origin
/// and covering a region of the given size.
pub open spec fn meta_items(metas: Seq<Meta>, size: Size) -> Seq<(Point, ElementModel)> {
    Seq::new(metas.len(), |i: int| (Point::spec_zero(), ElementModel::Meta(metas[i], size)))
}

/// The text of placed elements, in their order.
pub open spec fn items_text(items: Seq<(Point, ElementModel)>) -> Seq<char>
    decreases items, 1int,
{
    if items.len() == 0 {
        Seq::empty()
    } else {
        items_text(items.drop_last()) + element_text(items.last().1)
    }
}

/// The text of an element: the characters of a run of text, the text inside
/// a group, and nothing for anything else.
pub open spec fn element_text(element: ElementModel) -> Seq<char>
    decreases element, 0int,
{
    match element {
        ElementModel::Text(text) => text.chars(),
        ElementModel::Group(group) => items_text(group.frame.items),
        _ => Seq::empty(),
    }
}

impl View for Frame {
    type V = FrameModel;

    closed spec fn view(&self) -> FrameModel {
        frame_model(*self)
    }
}

impl View for Element {
    type V = ElementModel;

    open spec fn view(&self) -> ElementModel {
        element_model(*self)
    }
}

impl View for Group {
    type V = GroupModel;

    open spec fn view(&self) -> GroupModel {
        GroupModel { frame: self.frame@, transform: self.transform, clips: self.clips }
    }
}

impl View for Item {
    type V = (Point, ElementModel);

    open spec fn view(&self) -> (Point, ElementModel) {
        (self.pos, self.element@)
    }
}

impl FrameModel {
    /// The frame of the given size that has no elements and no explicit
    /// baseline.
    pub open spec fn empty(size: Size) -> FrameModel {
        FrameModel { size, baseline: None, items: Seq::empty() }
    }

    /// The frame with other elements in place of its own.
    pub open spec fn with_items(self, items: Seq<(Point, ElementModel)>) -> FrameModel {
        FrameModel { items, ..self }
    }

    /// The baseline measured from the top: the explicit one, or else the
    /// bottom edge.
    pub open spec fn baseline(self) -> Abs {
        match self.baseline {
            Some(baseline) => baseline,
            None => self.size.y,
        }
    }

    /// The frame with `element` added in front of all others.
    pub open spec fn push(self, pos: Point, element: ElementModel) -> FrameModel {
        self.with_items(self.items.push((pos, element)))
    }

    /// The frame with `element` added so that `layer` elements lie behind it.
    pub open spec fn insert(self, layer: int, pos: Point, element: ElementModel) -> FrameModel {
        self.with_items(self.items.insert(layer, (pos, element)))
    }

    /// The frame with `items` added, in their order, so that `layer` of its
    /// own elements lie behind them.
    pub open spec fn insert_all(self, layer: int, items: Seq<(Point, ElementModel)>) -> FrameModel {
        self.with_items(
            self.items.subrange(0, layer) + items + self.items.subrange(
                layer,
                self.items.len() as int,
            ),
        )
    }

    /// The frame with the elements of `child` added at `layer`, each moved by
    /// `pos`.
    pub open spec fn inline(self, layer: int, pos: Point, child: FrameModel) -> FrameModel {
        self.insert_all(layer, shift(child.items, pos))
    }

    /// The group that wraps `child` without transforming or clipping it.
    pub open spec fn plain_group(child: FrameModel) -> ElementModel {
        ElementModel::Group(
            GroupModel { frame: child, transform: Transform::spec_identity(), clips: false },
        )
    }

    /// Whether the elements of `child` are added to this frame one by one
    /// rather than as one group: they are when this frame is empty or the
    /// child has at most [`INLINE_LIMIT`] elements.
    pub open spec fn should_inline(self, child: FrameModel) -> bool {
        self.items.len() == 0 || child.items.len() <= INLINE_LIMIT
    }

    /// The frame with `child` added at `layer`, taken apart or as a group.
    pub open spec fn insert_frame(self, layer: int, pos: Point, child: FrameModel) -> FrameModel {
        if self.should_inline(child) {
            self.inline(layer, pos, child)
        } else {
            self.insert(layer, pos, FrameModel::plain_group(child))
        }
    }

    /// The frame with `child` added in the foreground.
    pub open spec fn push_frame(self, pos: Point, child: FrameModel) -> FrameModel {
        self.insert_frame(self.items.len() as int, pos, child)
    }

    /// The frame with `child` added in the background.
    pub open spec fn prepend_frame(self, pos: Point, child: FrameModel) -> FrameModel {
        self.insert_frame(0, pos, child)
    }

    /// The frame without its elements.
    pub open spec fn clear(self) -> FrameModel {
        self.with_items(Seq::empty())
    }

    /// The frame with its explicit baseline, if it has one, and all of its
    /// elements moved by `offset`.
    pub open spec fn translate(self, offset: Point) -> FrameModel {
        FrameModel {
            size: self.size,
            baseline: match self.baseline {
                Some(baseline) => Some(baseline.spec_plus(offset.y)),
                None => None,
            },
            items: shift(self.items, offset),
        }
    }

    /// How far the content moves when the frame is resized to `target`: on
    /// each axis, as far as its alignment asks for of the space gained.
    pub open spec fn resize_offset(self, target: Size, aligns: Axes) -> Point {
        Point {
            x: aligns.x.spec_position(target.x.spec_minus(self.size.x)),
            y: aligns.y.spec_position(target.y.spec_minus(self.size.y)),
        }
    }

    /// The frame resized to `target`, its content aligned in the new size.
    pub open spec fn resize(self, target: Size, aligns: Axes) -> FrameModel {
        FrameModel { size: target, ..self.translate(self.resize_offset(target, aligns)) }
    }

    /// The frame of the same size and baseline whose only element is a group
    /// at the origin that holds this frame.
    pub open spec fn group(self, transform: Transform, clips: bool) -> FrameModel {
        FrameModel {
            size: self.size,
            baseline: self.baseline,
            items: seq![
                (
                    Point::spec_zero(),
                    ElementModel::Group(GroupModel { frame: self, transform, clips }),
                ),
            ],
        }
    }

    /// The frame with one metadata element for each entry of `metas` added in
    /// the foreground.
    pub open spec fn meta(self, metas: Seq<Meta>) -> FrameModel {
        self.with_items(self.items + meta_items(metas, self.size))
    }

    /// The text inside of the frame and its groups.
    pub open spec fn text(self) -> Seq<char> {
        items_text(self.items)
    }
}

/// `Arc::clone`: another handle to the same value.
#[verifier::external_body]
fn share<T>(arc: &Arc<T>) -> (res: Arc<T>)
    ensures
        res == *arc,
{
    Arc::clone(arc)
}

/// `Arc::make_mut`: access to the value for changing it. The value is the one
/// that was there, or a clone of it where other handles point to it.
#[verifier::external_body]
fn make_mut<T: Clone>(arc: &mut Arc<T>) -> (res: &mut T)
    ensures
        cloned::<T>(**old(arc), *res),
        **final(arc) == *final(res),
{
    Arc::make_mut(arc)
}

/// `Arc::try_unwrap`: the value itself where this is the only handle to it,
/// and else the handle back.
#[verifier::external_body]
fn try_unwrap<T>(arc: Arc<T>) -> (res: Result<T, Arc<T>>)
    ensures
        match res {
            Ok(value) => value == *arc,
            Err(back) => back == arc,
        },
{
    Arc::try_unwrap(arc)
}

/// `Arc::strong_count`: how many handles point to the value at the moment.
#[verifier::external_body]
fn strong_count<T>(arc: &Arc<T>) -> usize {
    Arc::strong_count(arc)
}

/// `Vec::splice` with an empty range: puts `items`, in their order, between
/// the first `at` elements of `sink` and the rest.
#[verifier::external_body]
fn splice_in<T>(sink: &mut Vec<T>, at: usize, items: Vec<T>)
    requires
        at <= old(sink)@.len(),
    ensures
        final(sink)@ == old(sink)@.subrange(0, at as int) + items@ + old(sink)@.subrange(
            at as int,
            old(sink)@.len() as int,
        ),
{
    sink.splice(at..at, items);
}

impl Clone for Frame {
    /// Another frame with the same content, which shares the buffer.
    fn clone(&self) -> (res: Self)
        ensures
            res == *self,
    {
        Frame { size: self.size, baseline: self.baseline, elements: share(&self.elements) }
    }
}

impl Clone for Group {
    fn clone(&self) -> (res: Self)
        ensures
            res == *self,
    {
        Group { frame: self.frame.clone(), transform: self.transform, clips: self.clips }
    }
}

impl Clone for Element {
    fn clone(&self) -> (res: Self)
        ensures
            res@ == self@,
    {
        match self {
            Element::Group(group) => Element::Group(group.clone()),
            Element::Text(text) => Element::Text(text.clone()),
            Element::Shape(shape) => Element::Shape(*shape),
            Element::Image(image, size) => Element::Image(*image, *size),
            Element::Meta(meta, size) => Element::Meta(meta.clone(), *size),
        }
    }
}

impl Clone for Item {
    fn clone(&self) -> (res: Self)
        ensures
            res@ == self@,
    {
        Item { pos: self.pos, element: self.element.clone() }
    }
}

impl Default for Frame {
    /// The empty frame without extent.
    fn default() -> (res: Self)
        ensures
            res@ == FrameModel::empty(Size::spec_zero()),
    {
        Frame::new(Size::zero())
    }
}

impl Group {
    /// Create a new group with default settings.
    pub fn new(frame: Frame) -> (res: Group)
        ensures
            res == (Group { frame, transform: Transform::spec_identity(), clips: false }),
            res@ == (GroupModel {
                frame: frame@,
                transform: Transform::spec_identity(),
                clips: false,
            }),
    {
        Group { frame, transform: Transform::identity(), clips: false }
    }
}

/// A buffer and a clone of it hold the same elements at the same positions.
proof fn lemma_cloned_items(before: &Vec<Item>, after: &Vec<Item>)
    requires
        cloned::<Vec<Item>>(*before, *after),
    ensures
        items_model(after@) == items_model(before@),
{
    if before != after {
        assert(before@.len() == after@.len());
        assert forall|i: int| 0 <= i < before@.len() implies after@[i]@ == before@[i]@ by {
            assert(cloned(before@[i], after@[i]));
        }
        assert(items_model(after@) =~= items_model(before@));
    }
}

/// Constructor, accessors and setters.
impl Frame {
    /// The elements of the frame as they are stored.
    spec fn buffer(&self) -> Seq<Item> {
        self.elements@
    }

    /// The model lists the stored elements in their order.
    proof fn lemma_items(&self)
        ensures
            self@.items == items_model(self.buffer()),
            self@.items.len() == self.buffer().len(),
    {
        assert(self@.items =~= items_model(self.buffer()));
    }

    /// Create a new, empty frame.
    pub fn new(size: Size) -> (res: Frame)
        ensures
            res@ == FrameModel::empty(size),
    {
        let res = Frame { size, baseline: None, elements: Arc::new(Vec::new()) };
        assert(res@.items =~= Seq::empty());
        res
    }

    /// Whether the frame contains no elements.
    pub fn is_empty(&self) -> (res: bool)
        ensures
            res == (self@.items.len() == 0),
    {
        self.elements.is_empty()
    }

    /// The size of the frame.
    pub fn size(&self) -> (res: Size)
        ensures
            res == self@.size,
    {
        self.size
    }

    /// The size of the frame, mutably. What is written through the reference
    /// becomes the frame's size; nothing else changes.
    pub fn size_mut(&mut self) -> (res: &mut Size)
        ensures
            *res == old(self)@.size,
            final(self)@ == (FrameModel { size: *final(res), ..old(self)@ }),
    {
        &mut self.size
    }

    /// Set the size of the frame.
    pub fn set_size(&mut self, size: Size)
        ensures
            final(self)@ == (FrameModel { size, ..old(self)@ }),
    {
        self.size = size;
    }

    /// The width of the frame.
    pub fn width(&self) -> (res: Abs)
        ensures
            res == self@.size.x,
    {
        self.size.x
    }

    /// The height of the frame.
    pub fn height(&self) -> (res: Abs)
        ensures
            res == self@.size.y,
    {
        self.size.y
    }

    /// The baseline of the frame.
    pub fn baseline(&self) -> (res: Abs)
        ensures
            res == self@.baseline(),
    {
        match self.baseline {
            Some(baseline) => baseline,
            None => self.size.y,
        }
    }

    /// Set the frame's baseline from the top.
    pub fn set_baseline(&mut self, baseline: Abs)
        ensures
            final(self)@ == (FrameModel { baseline: Some(baseline), ..old(self)@ }),
    {
        self.baseline = Some(baseline);
    }

    /// An iterator over the elements inside this frame alongside their
    /// positions relative to the top-left of the frame, in paint order.
    pub fn elements(&self) -> (res: core::slice::Iter<'_, Item>)
        ensures
            items_model(IteratorSpec::remaining(&res).unref()) == self@.items,
            IteratorSpec::decrease(&res) is Some,
            IteratorSpec::initial_value_relation(&res, &res),
    {
        proof {
            self.lemma_items();
        }
        let res = self.elements.iter();
        assert(IteratorSpec::remaining(&res).unref() =~= self.elements@);
        res
    }

    /// The layer the next item will be added on. This corresponds to the number
    /// of elements in the frame.
    pub fn layer(&self) -> (res: usize)
        ensures
            res == self@.items.len(),
    {
        self.elements.len()
    }

    /// Add an element at a position in the foreground.
    pub fn push(&mut self, pos: Point, element: Element)
        ensures
            final(self)@ == old(self)@.push(pos, element@),
    {
        let buffer = make_mut(&mut self.elements);
        proof {
            lemma_cloned_items(&*old(self).elements, &*buffer);
        }
        buffer.push(Item { pos, element });
        proof {
            old(self).lemma_items();
            assert(self@.items =~= old(self)@.items.push((pos, element@)));
        }
    }

    /// Insert an element at the given layer in the frame.
    pub fn insert(&mut self, layer: usize, pos: Point, element: Element)
        requires
            layer <= old(self)@.items.len(),
        ensures
            final(self)@ == old(self)@.insert(layer as int, pos, element@),
    {
        proof {
            old(self).lemma_items();
        }
        let buffer = make_mut(&mut self.elements);
        proof {
            lemma_cloned_items(&*old(self).elements, &*buffer);
        }
        buffer.insert(layer, Item { pos, element });
        proof {
            assert(self@.items =~= old(self)@.items.insert(layer as int, (pos, element@)));
        }
    }

    /// Add an element at a position in the background.
    pub fn prepend(&mut self, pos: Point, element: Element)
        ensures
            final(self)@ == old(self)@.insert(0, pos, element@),
    {
        self.insert(0, pos, element);
    }
}

/// Placed elements moved by nothing stay where they are.
pub proof fn lemma_shift_zero(items: Seq<(Point, ElementModel)>)
    ensures
        shift(items, Point::spec_zero()) == items,
{
    assert(shift(items, Point::spec_zero()) =~= items);
}

/// Turns pairs of position and element into placed elements.
fn place_all(elements: Vec<(Point, Element)>) -> (res: Vec<Item>)
    ensures
        res@.len() == elements@.len(),
        forall|i: int|
            0 <= i < elements@.len() ==> (#[trigger] res@[i]).pos == elements@[i].0
                && res@[i].element@ == elements@[i].1@,
{
    let ghost all = elements@;
    let mut res: Vec<Item> = Vec::new();
    for pair in it: elements
        invariant
            it.seq() == all,
            res@.len() == it.index(),
            forall|i: int|
                0 <= i < res@.len() ==> (#[trigger] res@[i]).pos == all[i].0 && res@[i].element@
                    == all[i].1@,
    {
        let (pos, element) = pair;
        res.push(Item { pos, element });
    }
    res
}

/// Insert elements and subframes.
impl Frame {
    /// Add multiple elements at a position in the background.
    ///
    /// The first element of `elements` will be the one that is most in the
    /// background.
    pub fn prepend_multiple(&mut self, elements: Vec<(Point, Element)>)
        ensures
            final(self)@ == old(self)@.insert_all(
                0,
                Seq::new(elements@.len(), |i: int| (elements@[i].0, elements@[i].1@)),
            ),
    {
        let ghost added = Seq::new(elements@.len(), |i: int| (elements@[i].0, elements@[i].1@));
        let items = place_all(elements);
        proof {
            old(self).lemma_items();
            assert(items_model(items@) =~= added);
        }
        let buffer = make_mut(&mut self.elements);
        proof {
            lemma_cloned_items(&*old(self).elements, &*buffer);
        }
        let ghost kept = buffer@;
        splice_in(buffer, 0, items);
        proof {
            assert(items_model(kept) == old(self)@.items);
            assert(self@.items =~= old(self)@.items.subrange(0, 0) + added + old(
                self,
            )@.items.subrange(0, old(self)@.items.len() as int));
        }
    }

    /// Add a frame at a position in the foreground.
    ///
    /// Automatically decides whether to inline the frame or to include it as a
    /// group based on the number of elements in it.
    pub fn push_frame(&mut self, pos: Point, frame: Frame)
        ensures
            final(self)@ == old(self)@.push_frame(pos, frame@),
    {
        if self.should_inline(&frame) {
            let layer = self.layer();
            self.inline(layer, pos, frame);
        } else {
            let layer = self.layer();
            self.insert(layer, pos, Element::Group(Group::new(frame)));
        }
    }

    /// Add a frame at a position in the background.
    pub fn prepend_frame(&mut self, pos: Point, frame: Frame)
        ensures
            final(self)@ == old(self)@.prepend_frame(pos, frame@),
    {
        if self.should_inline(&frame) {
            self.inline(0, pos, frame);
        } else {
            self.prepend(pos, Element::Group(Group::new(frame)));
        }
    }

    /// Whether the given frame should be inlined.
    fn should_inline(&self, frame: &Frame) -> (res: bool)
        ensures
            res == self@.should_inline(frame@),
    {
        self.elements.is_empty() || frame.elements.len() <= INLINE_LIMIT
    }

    /// Inline a frame at the given layer.
    fn inline(&mut self, layer: usize, pos: Point, frame: Frame)
        requires
            layer <= old(self)@.items.len(),
        ensures
            final(self)@ == old(self)@.inline(layer as int, pos, frame@),
    {
        proof {
            old(self).lemma_items();
            frame.lemma_items();
        }
        // Try to just reuse the elements.
        if pos.is_zero() && self.elements.is_empty() {
            self.elements = frame.elements;
            proof {
                lemma_shift_zero(frame@.items);
                assert(self@.items =~= old(self)@.inline(layer as int, pos, frame@).items);
            }
            return ;
        }
        // Take the elements over if nothing else holds them, and else copy
        // them. Either way they move by `pos`.

        let sink = make_mut(&mut self.elements);
        proof {
            lemma_cloned_items(&*old(self).elements, &*sink);
        }
        let ghost kept = sink@;
        let moved = match try_unwrap(frame.elements) {
            Ok(elements) => {
                if pos.is_zero() {
                    proof {
                        lemma_shift_zero(frame@.items);
                    }
                    elements
                } else {
                    move_items(elements, pos)
                }
            },
            Err(shared) => move_copies(&shared, pos),
        };
        assert(items_model(moved@) =~= shift(frame@.items, pos));
        splice_in(sink, layer, moved);
        proof {
            assert(items_model(kept) == old(self)@.items);
            assert(self@.items =~= old(self)@.inline(layer as int, pos, frame@).items);
        }
    }
}

/// Moves each of the placed elements by `offset`, in place.
fn move_items(items: Vec<Item>, offset: Point) -> (res: Vec<Item>)
    ensures
        items_model(res@) == shift(items_model(items@), offset),
{
    let mut items = items;
    let ghost before = items@;
    let n = items.len();
    let mut i: usize = 0;
    while i < n
        invariant
            i <= n,
            n == before.len(),
            items@.len() == n,
            forall|j: int|
                0 <= j < i ==> (#[trigger] items@[j]).pos == before[j].pos.spec_plus(offset)
                    && items@[j].element@ == before[j].element@,
            forall|j: int| i <= j < n ==> items@[j] == before[j],
        decreases n - i,
    {
        let item = &mut items[i];
        item.pos = item.pos.plus(offset);
        i += 1;
    }
    assert(items_model(items@) =~= shift(items_model(before), offset));
    items
}

/// Copies of the placed elements, each moved by `offset`.
fn move_copies(items: &Vec<Item>, offset: Point) -> (res: Vec<Item>)
    ensures
        items_model(res@) == shift(items_model(items@), offset),
{
    let n = items.len();
    let mut res: Vec<Item> = Vec::new();
    let mut i: usize = 0;
    while i < n
        invariant
            i <= n,
            n == items@.len(),
            res@.len() == i,
            forall|j: int|
                0 <= j < i ==> (#[trigger] res@[j]).pos == items@[j].pos.spec_plus(offset)
                    && res@[j].element@ == items@[j].element@,
        decreases n - i,
    {
        let item = &items[i];
        res.push(Item { pos: item.pos.plus(offset), element: item.element.clone() });
        i += 1;
    }
    assert(items_model(res@) =~= shift(items_model(items@), offset));
    res
}

/// Modify the frame.
impl Frame {
    /// Remove all elements from the frame.
    pub fn clear(&mut self)
        ensures
            final(self)@ == old(self)@.clear(),
    {
        if strong_count(&self.elements) == 1 {
            let buffer = make_mut(&mut self.elements);
            buffer.clear();
        } else {
            self.elements = Arc::new(Vec::new());
        }
        assert(self@.items =~= Seq::empty());
    }

    /// Resize the frame to a new size, distributing new space according to the
    /// given alignments.
    pub fn resize(&mut self, target: Size, aligns: Axes)
        ensures
            final(self)@ == old(self)@.resize(target, aligns),
            target == old(self)@.size ==> final(self)@ == old(self)@,
    {
        proof {
            old(self)@.lemma_resize_same(aligns);
        }
        if self.size != target {
            let offset = Point::new(
                aligns.x.position(target.x.minus(self.size.x)),
                aligns.y.position(target.y.minus(self.size.y)),
            );
            self.size = target;
            self.translate(offset);
        }
    }

    /// Move the baseline and contents of the frame by an offset.
    pub fn translate(&mut self, offset: Point)
        ensures
            final(self)@ == old(self)@.translate(offset),
            offset == Point::spec_zero() ==> final(self)@ == old(self)@,
    {
        proof {
            old(self)@.lemma_translate_zero();
            old(self).lemma_items();
        }
        if !offset.is_zero() {
            match self.baseline {
                Some(baseline) => {
                    self.baseline = Some(baseline.plus(offset.y));
                },
                None => {},
            }
            let buffer = make_mut(&mut self.elements);
            proof {
                lemma_cloned_items(&*old(self).elements, &*buffer);
            }
            let ghost before = buffer@;
            let n = buffer.len();
            let mut i: usize = 0;
            while i < n
                invariant
                    i <= n,
                    n == before.len(),
                    buffer@.len() == n,
                    forall|j: int|
                        0 <= j < i ==> (#[trigger] buffer@[j]).pos == before[j].pos.spec_plus(
                            offset,
                        ) && buffer@[j].element@ == before[j].element@,
                    forall|j: int| i <= j < n ==> buffer@[j] == before[j],
                decreases n - i,
            {
                let item = &mut buffer[i];
                item.pos = item.pos.plus(offset);
                i += 1;
            }
            proof {
                assert(items_model(buffer@) =~= shift(items_model(before), offset));
            }
            assert(self@.items =~= shift(old(self)@.items, offset));
        }
    }

    /// Attach the metadata from this style chain to the frame.
    pub fn meta(&mut self, styles: &StyleChain)
        ensures
            final(self)@ == old(self)@.meta(folded(styles@)),
    {
        let metas = styles.meta();
        let ghost all = metas@;
        if metas.len() == 0 {
            // Nothing is added, so a buffer that is shared stays shared.
            assert(self@.items + meta_items(all, self@.size) =~= self@.items);
            return ;
        }
        let size = self.size;
        let buffer = make_mut(&mut self.elements);
        proof {
            lemma_cloned_items(&*old(self).elements, &*buffer);
            old(self).lemma_items();
        }
        let ghost kept = buffer@;
        for meta in it: metas
            invariant
                it.seq() == all,
                buffer@.len() == kept.len() + it.index(),
                forall|k: int| 0 <= k < kept.len() ==> buffer@[k] == kept[k],
                forall|k: int|
                    kept.len() <= k < buffer@.len() ==> (#[trigger] buffer@[k]).pos
                        == Point::spec_zero() && buffer@[k].element@ == ElementModel::Meta(
                        all[k - kept.len()],
                        size,
                    ),
        {
            buffer.push(Item { pos: Point::zero(), element: Element::Meta(meta, size) });
        }
        proof {
            assert(items_model(buffer@) =~= items_model(kept) + meta_items(all, size));
        }
        assert(self@.items =~= old(self)@.items + meta_items(all, size));
    }

    /// Arbitrarily transform the contents of the frame.
    pub fn transform(&mut self, transform: Transform)
        ensures
            final(self)@ == old(self)@.group(transform, false),
    {
        self.group(transform, false);
    }

    /// Clip the contents of a frame to its size.
    pub fn clip(&mut self)
        ensures
            final(self)@ == old(self)@.group(Transform::spec_identity(), true),
    {
        self.group(Transform::identity(), true);
    }

    /// Wrap the frame's contents in a group with the given settings.
    fn group(&mut self, transform: Transform, clips: bool)
        ensures
            final(self)@ == old(self)@.group(transform, clips),
    {
        let mut wrapper = Frame::new(self.size);
        wrapper.baseline = self.baseline;
        let mut inner = Frame::default();
        core::mem::swap(self, &mut inner);
        let mut group = Group::new(inner);
        group.transform = transform;
        group.clips = clips;
        wrapper.push(Point::zero(), Element::Group(group));
        *self = wrapper;
        assert(self@.items =~= old(self)@.group(transform, clips).items);
    }

    /// Recover the text inside of the frame and its children.
    pub fn text(&self) -> (res: String)
        ensures
            res@ == self@.text(),
        decreases self,
    {
        let mut text = String::new();
        let n = self.elements.len();
        let mut i: usize = 0;
        proof {
            self.lemma_items();
        }
        while i < n
            invariant
                i <= n,
                n == self.elements@.len(),
                self@.items == items_model(self.elements@),
                text@ == items_text(self@.items.take(i as int)),
            decreases n - i,
        {
            let ghost done = self@.items.take(i as int);
            let ghost next = self@.items.take(i + 1);
            proof {
                assert(next.drop_last() =~= done);
                assert(next.last() == self@.items[i as int]);
                assert(self@.items[i as int].1 == self.elements@[i as int].element@);
                assert(items_text(next) == items_text(done) + element_text(
                    self.elements@[i as int].element@,
                ));
            }
            match &self.elements[i].element {
                Element::Text(content) => {
                    let m = content.glyphs.len();
                    let mut k: usize = 0;
                    while k < m
                        invariant
                            k <= m,
                            m == content.glyphs@.len(),
                            text@ == items_text(done) + content@.chars().take(k as int),
                        decreases m - k,
                    {
                        text.push(content.glyphs[k].c);
                        assert(content@.chars().take(k + 1) =~= content@.chars().take(
                            k as int,
                        ).push(content.glyphs@[k as int].c));
                        k += 1;
                    }
                    assert(content@.chars().take(m as int) =~= content@.chars());
                },
                Element::Group(group) => {
                    let inner = group.frame.text();
                    text.push_str(inner.as_str());
                },
                _ => {
                    assert(text@ + Seq::<char>::empty() =~= text@);
                },
            }
            i += 1;
        }
        assert(self@.items.take(n as int) =~= self@.items);
        text
    }
}

impl FrameModel {
    /// Moving a frame by nothing leaves it as it is.
    pub proof fn lemma_translate_zero(self)
        ensures
            self.translate(Point::spec_zero()) == self,
    {
        lemma_shift_zero(self.items);
    }

    /// Resizing a frame to the size it has leaves it as it is, whatever the
    /// alignments.
    pub proof fn lemma_resize_same(self, aligns: Axes)
        ensures
            self.resize(self.size, aligns) == self,
    {
        assert(self.resize_offset(self.size, aligns) == Point::spec_zero());
        self.lemma_translate_zero();
    }
}

} // verus!
