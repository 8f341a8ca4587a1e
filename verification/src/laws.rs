//! What holds of frames and metadata whatever the values are.

use vstd::prelude::*;
use crate::frame::{element_text, items_text, shift, ElementModel, FrameModel, INLINE_LIMIT};
use crate::geom::{Abs, Axes, Point, Size, Transform};
use crate::meta::{folded, Meta};

verus! {

/// A small frame that is pushed into a frame is taken apart: the frame gains
/// as many elements as the child has, each moved by the position, and no
/// group.
pub proof fn law_small_frame_is_inlined(parent: FrameModel, pos: Point, child: FrameModel)
    requires
        child.items.len() <= INLINE_LIMIT,
    ensures
        parent.push_frame(pos, child).items.len() == parent.items.len() + child.items.len(),
        parent.push_frame(pos, child).items == parent.items + shift(child.items, pos),
        parent.prepend_frame(pos, child).items == shift(child.items, pos) + parent.items,
{
    assert(parent.push_frame(pos, child).items =~= parent.items + shift(child.items, pos));
    assert(parent.prepend_frame(pos, child).items =~= shift(child.items, pos) + parent.items);
}

/// A frame that is pushed into an empty frame is taken apart, however many
/// elements it has.
pub proof fn law_empty_frame_inlines(parent: FrameModel, pos: Point, child: FrameModel)
    requires
        parent.items.len() == 0,
    ensures
        parent.push_frame(pos, child).items == shift(child.items, pos),
        parent.prepend_frame(pos, child).items == shift(child.items, pos),
{
    assert(parent.push_frame(pos, child).items =~= shift(child.items, pos));
    assert(parent.prepend_frame(pos, child).items =~= shift(child.items, pos));
}

/// A large frame that is pushed into a frame with elements stays whole: the
/// frame gains exactly one element, a group that holds the child unchanged,
/// neither transformed nor clipped.
pub proof fn law_large_frame_is_grouped(parent: FrameModel, pos: Point, child: FrameModel)
    requires
        parent.items.len() > 0,
        child.items.len() > INLINE_LIMIT,
    ensures
        parent.push_frame(pos, child).items.len() == parent.items.len() + 1,
        parent.push_frame(pos, child).items == parent.items.push(
            (pos, FrameModel::plain_group(child)),
        ),
        parent.prepend_frame(pos, child).items == seq![(pos, FrameModel::plain_group(child))]
            + parent.items,
{
    assert(parent.push_frame(pos, child).items =~= parent.items.push(
        (pos, FrameModel::plain_group(child)),
    ));
    assert(parent.prepend_frame(pos, child).items =~= seq![(pos, FrameModel::plain_group(child))]
        + parent.items);
}

/// Moving a frame by nothing changes neither its size nor its baseline nor
/// the position of any element.
pub proof fn law_translate_by_zero(frame: FrameModel)
    ensures
        frame.translate(Point::spec_zero()) == frame,
{
    frame.lemma_translate_zero();
}

/// Moving a frame changes only positions: its size, the number of its
/// elements, and what each element is stay the same.
pub proof fn law_translate_keeps_elements(frame: FrameModel, offset: Point)
    ensures
        frame.translate(offset).size == frame.size,
        frame.translate(offset).items.len() == frame.items.len(),
        forall|i: int|
            0 <= i < frame.items.len() ==> (#[trigger] frame.translate(offset).items[i]).1
                == frame.items[i].1 && frame.translate(offset).items[i].0
                == frame.items[i].0.spec_plus(offset),
{
}

/// Resizing moves every element by the same offset, which on each axis is
/// nothing when aligned at the start, half of the space gained when aligned
/// in the middle, and all of it when aligned at the end.
pub proof fn law_resize_alignment(frame: FrameModel, target: Size, aligns: Axes)
    ensures
        frame.resize(target, aligns).size == target,
        frame.resize(target, aligns).items == shift(
            frame.items,
            frame.resize_offset(target, aligns),
        ),
        aligns.x is Left || aligns.x is Top ==> frame.resize_offset(target, aligns).x
            == Abs::spec_zero(),
        aligns.x is Center || aligns.x is Horizon ==> frame.resize_offset(target, aligns).x
            == target.x.spec_minus(frame.size.x).spec_half(),
        aligns.x is Right || aligns.x is Bottom ==> frame.resize_offset(target, aligns).x
            == target.x.spec_minus(frame.size.x),
        aligns.y is Left || aligns.y is Top ==> frame.resize_offset(target, aligns).y
            == Abs::spec_zero(),
        aligns.y is Center || aligns.y is Horizon ==> frame.resize_offset(target, aligns).y
            == target.y.spec_minus(frame.size.y).spec_half(),
        aligns.y is Right || aligns.y is Bottom ==> frame.resize_offset(target, aligns).y
            == target.y.spec_minus(frame.size.y),
{
}

/// A frame without an explicit baseline has its baseline at its bottom edge.
pub proof fn law_baseline_default(frame: FrameModel)
    requires
        frame.baseline is None,
    ensures
        frame.baseline() == frame.size.y,
{
}

/// A frame whose baseline was set to `h` and which was then moved down by `d`
/// has its baseline at the sum of `h` and `d`.
pub proof fn law_baseline_moves(frame: FrameModel, h: Abs, d: Abs)
    ensures
        (FrameModel { baseline: Some(h), ..frame }).translate(
            Point { x: Abs::spec_zero(), y: d },
        ).baseline() == h.spec_plus(d),
{
}

/// Folding the metadata of an inner scope with that of an outer scope puts
/// the inner entries first and keeps all outer entries behind them.
pub proof fn law_fold_order(inner: Seq<Meta>, outer: Seq<Meta>)
    ensures
        folded(seq![inner, outer]) == inner + outer,
{
    let scopes = seq![inner, outer];
    assert(scopes.drop_first() =~= seq![outer]);
    assert(seq![outer].drop_first() =~= Seq::<Seq<Meta>>::empty());
    assert(folded(seq![outer]) =~= outer) by {
        assert(folded(seq![outer]) == seq![outer].first() + folded(seq![outer].drop_first()));
    }
    assert(folded(scopes) == scopes.first() + folded(scopes.drop_first()));
}

/// Opening a further scope inside a chain puts its metadata in front of the
/// folded metadata of the chain.
pub proof fn law_fold_inner_first(inner: Seq<Meta>, chain: Seq<Seq<Meta>>)
    ensures
        folded(seq![inner] + chain) == inner + folded(chain),
{
    let scopes = seq![inner] + chain;
    assert(scopes.first() == inner);
    assert(scopes.drop_first() =~= chain);
}

/// Wrapping the content of a frame in a group, to transform or to clip it,
/// keeps the size and the baseline, leaves the content itself unchanged
/// inside the group, and keeps its text.
pub proof fn law_group_keeps_content(frame: FrameModel, transform: Transform, clips: bool)
    ensures
        frame.group(transform, clips).size == frame.size,
        frame.group(transform, clips).baseline == frame.baseline,
        frame.group(transform, clips).items.len() == 1,
        frame.group(transform, clips).items[0].1 matches ElementModel::Group(group)
            && group.frame == frame && group.transform == transform && group.clips == clips,
        frame.group(transform, clips).text() == frame.text(),
{
    let items = frame.group(transform, clips).items;
    assert(items.drop_last() =~= Seq::empty());
    assert(items_text(items) == items_text(items.drop_last()) + element_text(items.last().1));
    assert(items_text(Seq::<(Point, ElementModel)>::empty()) =~= Seq::<char>::empty());
    assert(Seq::<char>::empty() + frame.text() =~= frame.text());
}

} // verus!
