use docframe::frame::{Element, Frame, Group, Item, INLINE_LIMIT};
use docframe::geom::{
    Abs, Align, Axes, Color, Em, Geometry, Paint, Point, Ratio, Shape, Size, Transform,
};
use docframe::image::Image;
use docframe::lang::Lang;
use docframe::meta::{Content, Destination, Meta, StableId, StyleChain};
use docframe::text::{Font, Glyph, Text};

fn pt(x: i32, y: i32) -> Point {
    Point::new(Abs::pt(x), Abs::pt(y))
}

fn size(x: i32, y: i32) -> Size {
    Size::new(Abs::pt(x), Abs::pt(y))
}

fn image(id: u32) -> Element {
    Element::Image(Image::new(id), size(1, 1))
}

fn text(chars: &str) -> Element {
    let glyphs = chars
        .chars()
        .map(|c| Glyph { id: c as u16, x_advance: Em::raw(500), x_offset: Em::zero(), c })
        .collect();
    Element::Text(Text {
        font: Font::new(0),
        size: Abs::pt(10),
        fill: Paint::Solid(Color::rgb(0, 0, 0)),
        lang: Lang::english(),
        glyphs,
    })
}

/// A frame of size 10 by 10 with `n` images, the `i`-th at (i, 2 i).
fn frame_of(n: u32) -> Frame {
    let mut frame = Frame::new(size(10, 10));
    for i in 0..n {
        frame.push(pt(i as i32, 2 * i as i32), image(i));
    }
    frame
}

fn image_ids(frame: &Frame) -> Vec<u32> {
    frame
        .elements()
        .map(|item| match &item.element {
            Element::Image(image, _) => image.id,
            _ => u32::MAX,
        })
        .collect()
}

fn positions(frame: &Frame) -> Vec<Point> {
    frame.elements().map(|item| item.pos).collect()
}

#[test]
fn new_frame_is_empty() {
    let frame = Frame::new(size(50, 20));
    assert!(frame.is_empty());
    assert_eq!(frame.layer(), 0);
    assert_eq!(frame.size(), size(50, 20));
    assert_eq!(frame.width(), Abs::pt(50));
    assert_eq!(frame.height(), Abs::pt(20));
    assert_eq!(frame.elements().count(), 0);
    assert_eq!(frame.text(), "");
}

#[test]
fn default_frame_is_empty_and_without_extent() {
    let frame = Frame::default();
    assert!(frame.is_empty());
    assert_eq!(frame.size(), Size::zero());
    assert_eq!(frame.baseline(), Abs::zero());
}

#[test]
fn baseline_defaults_to_the_height() {
    let mut frame = Frame::new(size(50, 20));
    assert_eq!(frame.baseline(), Abs::pt(20));
    frame.set_size(size(50, 30));
    assert_eq!(frame.baseline(), Abs::pt(30));
}

#[test]
fn set_baseline_then_translate_moves_the_baseline() {
    let mut frame = Frame::new(size(50, 20));
    frame.set_baseline(Abs::pt(7));
    assert_eq!(frame.baseline(), Abs::pt(7));
    frame.translate(pt(0, 4));
    assert_eq!(frame.baseline(), Abs::pt(11));
    frame.translate(pt(3, 0));
    assert_eq!(frame.baseline(), Abs::pt(11));
    frame.translate(pt(0, -20));
    assert_eq!(frame.baseline(), Abs::pt(-9));
}

#[test]
fn translate_leaves_an_implicit_baseline_at_the_bottom() {
    let mut frame = frame_of(1);
    frame.translate(pt(0, 4));
    assert_eq!(frame.baseline(), Abs::pt(10));
    assert_eq!(positions(&frame), vec![pt(0, 4)]);
}

#[test]
fn size_can_be_changed_in_place() {
    let mut frame = frame_of(2);
    frame.size_mut().x = Abs::pt(99);
    assert_eq!(frame.size(), size(99, 10));
    *frame.size_mut() = size(1, 2);
    assert_eq!(frame.size(), size(1, 2));
    assert_eq!(frame.layer(), 2);
    frame.set_size(size(5, 6));
    assert_eq!(frame.size(), size(5, 6));
    assert_eq!(image_ids(&frame), vec![0, 1]);
}

#[test]
fn push_adds_in_the_foreground() {
    let mut frame = frame_of(2);
    frame.push(pt(7, 7), image(9));
    assert_eq!(image_ids(&frame), vec![0, 1, 9]);
    assert_eq!(positions(&frame), vec![pt(0, 0), pt(1, 2), pt(7, 7)]);
    assert_eq!(frame.layer(), 3);
    assert!(!frame.is_empty());
}

#[test]
fn prepend_adds_in_the_background() {
    let mut frame = frame_of(2);
    frame.prepend(pt(7, 7), image(9));
    assert_eq!(image_ids(&frame), vec![9, 0, 1]);
    assert_eq!(positions(&frame), vec![pt(7, 7), pt(0, 0), pt(1, 2)]);
}

#[test]
fn insert_adds_at_the_layer() {
    let mut frame = frame_of(3);
    frame.insert(1, pt(7, 7), image(9));
    assert_eq!(image_ids(&frame), vec![0, 9, 1, 2]);
    frame.insert(4, pt(8, 8), image(10));
    assert_eq!(image_ids(&frame), vec![0, 9, 1, 2, 10]);
    frame.insert(0, pt(8, 8), image(11));
    assert_eq!(image_ids(&frame), vec![11, 0, 9, 1, 2, 10]);
}

#[test]
fn prepend_multiple_keeps_the_order_given() {
    let mut frame = frame_of(2);
    frame.prepend_multiple(vec![(pt(5, 5), image(7)), (pt(6, 6), image(8)), (pt(7, 7), image(9))]);
    assert_eq!(image_ids(&frame), vec![7, 8, 9, 0, 1]);
    assert_eq!(positions(&frame), vec![pt(5, 5), pt(6, 6), pt(7, 7), pt(0, 0), pt(1, 2)]);
    frame.prepend_multiple(vec![]);
    assert_eq!(image_ids(&frame), vec![7, 8, 9, 0, 1]);
}

#[test]
fn prepend_multiple_into_an_empty_frame() {
    let mut frame = Frame::new(size(1, 1));
    frame.prepend_multiple(vec![(pt(5, 5), image(7)), (pt(6, 6), image(8))]);
    assert_eq!(image_ids(&frame), vec![7, 8]);
}

#[test]
fn small_child_is_inlined_into_a_frame_with_elements() {
    for n in 0..=INLINE_LIMIT as u32 {
        let mut parent = frame_of(2);
        let child = frame_of(n);
        parent.push_frame(pt(100, 100), child);
        assert_eq!(parent.layer(), 2 + n as usize);
        assert!(parent.elements().all(|item| !matches!(item.element, Element::Group(_))));
        let mut expected = vec![0, 1];
        expected.extend(0..n);
        assert_eq!(image_ids(&parent), expected);
        for (i, item) in parent.elements().skip(2).enumerate() {
            assert_eq!(item.pos, pt(100 + i as i32, 100 + 2 * i as i32));
        }
    }
}

#[test]
fn large_child_is_grouped_in_a_frame_with_elements() {
    let mut parent = frame_of(2);
    let mut child = frame_of(6);
    child.set_baseline(Abs::pt(3));
    parent.push_frame(pt(100, 100), child);
    assert_eq!(parent.layer(), 3);
    let last = parent.elements().last().unwrap();
    assert_eq!(last.pos, pt(100, 100));
    match &last.element {
        Element::Group(group) => {
            assert_eq!(group.frame.layer(), 6);
            assert_eq!(image_ids(&group.frame), vec![0, 1, 2, 3, 4, 5]);
            assert_eq!(positions(&group.frame)[5], pt(5, 10));
            assert_eq!(group.frame.size(), size(10, 10));
            assert_eq!(group.frame.baseline(), Abs::pt(3));
            assert!(group.transform.is_identity());
            assert!(!group.clips);
        }
        _ => panic!("expected a group"),
    }
    assert_eq!(image_ids(&parent)[..2], [0, 1]);
}

#[test]
fn large_child_is_inlined_into_an_empty_frame() {
    let mut parent = Frame::new(size(10, 10));
    parent.push_frame(pt(1, 1), frame_of(8));
    assert_eq!(parent.layer(), 8);
    assert_eq!(image_ids(&parent), (0..8).collect::<Vec<_>>());
    assert_eq!(positions(&parent)[3], pt(4, 7));
    let mut parent = Frame::new(size(10, 10));
    parent.prepend_frame(Point::zero(), frame_of(8));
    assert_eq!(parent.layer(), 8);
    assert_eq!(positions(&parent)[3], pt(3, 6));
}

#[test]
fn inlining_keeps_size_and_baseline_of_the_parent() {
    let mut parent = Frame::new(size(10, 10));
    parent.set_baseline(Abs::pt(4));
    let mut child = Frame::new(size(77, 77));
    child.set_baseline(Abs::pt(70));
    child.push(pt(1, 1), image(1));
    parent.push_frame(Point::zero(), child);
    assert_eq!(parent.size(), size(10, 10));
    assert_eq!(parent.baseline(), Abs::pt(4));
    assert_eq!(parent.layer(), 1);
}

#[test]
fn prepend_frame_inlines_in_the_background() {
    let mut parent = frame_of(2);
    parent.prepend_frame(pt(100, 100), frame_of(3));
    assert_eq!(image_ids(&parent), vec![0, 1, 2, 0, 1]);
    assert_eq!(
        positions(&parent),
        vec![pt(100, 100), pt(101, 102), pt(102, 104), pt(0, 0), pt(1, 2)]
    );
}

#[test]
fn prepend_frame_groups_in_the_background() {
    let mut parent = frame_of(2);
    parent.prepend_frame(pt(100, 100), frame_of(6));
    assert_eq!(parent.layer(), 3);
    let first = parent.elements().next().unwrap();
    assert_eq!(first.pos, pt(100, 100));
    assert!(matches!(&first.element, Element::Group(group) if group.frame.layer() == 6));
    assert_eq!(image_ids(&parent)[1..], [0, 1]);
}

#[test]
fn inlining_at_the_origin_keeps_positions() {
    let mut parent = frame_of(1);
    parent.push_frame(Point::zero(), frame_of(3));
    assert_eq!(positions(&parent), vec![pt(0, 0), pt(0, 0), pt(1, 2), pt(2, 4)]);
}

#[test]
fn inlining_a_shared_child_leaves_the_other_owner_alone() {
    let child = frame_of(3);
    let keep = child.clone();
    let mut parent = frame_of(1);
    parent.push_frame(pt(10, 10), child);
    assert_eq!(positions(&parent), vec![pt(0, 0), pt(10, 10), pt(11, 12), pt(12, 14)]);
    assert_eq!(positions(&keep), vec![pt(0, 0), pt(1, 2), pt(2, 4)]);
    let mut parent = frame_of(1);
    parent.push_frame(Point::zero(), keep.clone());
    assert_eq!(positions(&parent), vec![pt(0, 0), pt(0, 0), pt(1, 2), pt(2, 4)]);
    assert_eq!(image_ids(&keep), vec![0, 1, 2]);
}

#[test]
fn adopting_a_buffer_shares_it_without_harm() {
    let child = frame_of(3);
    let keep = child.clone();
    let mut parent = Frame::new(size(5, 5));
    parent.push_frame(Point::zero(), child);
    assert_eq!(image_ids(&parent), vec![0, 1, 2]);
    parent.push(pt(9, 9), image(9));
    parent.translate(pt(1, 1));
    assert_eq!(image_ids(&parent), vec![0, 1, 2, 9]);
    assert_eq!(image_ids(&keep), vec![0, 1, 2]);
    assert_eq!(positions(&keep), vec![pt(0, 0), pt(1, 2), pt(2, 4)]);
}

#[test]
fn push_on_one_owner_is_not_seen_by_the_other() {
    let mut a = frame_of(2);
    let b = a.clone();
    a.push(pt(5, 5), image(7));
    assert_eq!(image_ids(&a), vec![0, 1, 7]);
    assert_eq!(image_ids(&b), vec![0, 1]);
    assert_eq!(b.size(), size(10, 10));
}

#[test]
fn clear_on_one_owner_is_not_seen_by_the_other() {
    let mut a = frame_of(2);
    let b = a.clone();
    a.clear();
    assert!(a.is_empty());
    assert_eq!(image_ids(&b), vec![0, 1]);
    assert_eq!(positions(&b), vec![pt(0, 0), pt(1, 2)]);
    assert_eq!(b.size(), size(10, 10));
}

#[test]
fn translate_on_one_owner_is_not_seen_by_the_other() {
    let mut a = frame_of(2);
    let b = a.clone();
    a.translate(pt(3, 3));
    assert_eq!(positions(&a), vec![pt(3, 3), pt(4, 5)]);
    assert_eq!(positions(&b), vec![pt(0, 0), pt(1, 2)]);
    assert_eq!(b.size(), size(10, 10));
}

#[test]
fn insert_resize_and_group_on_one_owner_are_not_seen_by_the_other() {
    let mut a = frame_of(2);
    let b = a.clone();
    let c = a.clone();
    a.insert(1, pt(5, 5), image(7));
    a.prepend_multiple(vec![(pt(6, 6), image(8))]);
    a.resize(size(20, 20), Axes::new(Align::Right, Align::Bottom));
    a.clip();
    assert_eq!(a.layer(), 1);
    assert_eq!(image_ids(&b), vec![0, 1]);
    assert_eq!(positions(&b), vec![pt(0, 0), pt(1, 2)]);
    assert_eq!(b.size(), size(10, 10));
    assert_eq!(image_ids(&c), vec![0, 1]);
}

#[test]
fn clear_keeps_size_and_baseline() {
    let mut frame = frame_of(3);
    frame.set_baseline(Abs::pt(2));
    frame.clear();
    assert!(frame.is_empty());
    assert_eq!(frame.size(), size(10, 10));
    assert_eq!(frame.baseline(), Abs::pt(2));
    frame.push(pt(1, 1), image(5));
    assert_eq!(image_ids(&frame), vec![5]);
}

#[test]
fn translate_by_zero_changes_nothing() {
    let mut frame = frame_of(3);
    frame.set_baseline(Abs::pt(2));
    let shared = frame.clone();
    frame.translate(Point::zero());
    assert_eq!(frame.size(), size(10, 10));
    assert_eq!(frame.baseline(), Abs::pt(2));
    assert_eq!(positions(&frame), vec![pt(0, 0), pt(1, 2), pt(2, 4)]);
    assert_eq!(positions(&shared), vec![pt(0, 0), pt(1, 2), pt(2, 4)]);
}

#[test]
fn translate_moves_every_element() {
    let mut frame = frame_of(3);
    frame.translate(pt(-1, 5));
    assert_eq!(positions(&frame), vec![pt(-1, 5), pt(0, 7), pt(1, 9)]);
    assert_eq!(image_ids(&frame), vec![0, 1, 2]);
    assert_eq!(frame.size(), size(10, 10));
}

#[test]
fn translate_does_not_reach_into_groups() {
    let mut frame = frame_of(1);
    frame.push_frame(pt(1, 1), frame_of(6));
    frame.translate(pt(10, 10));
    let last = frame.elements().last().unwrap();
    assert_eq!(last.pos, pt(11, 11));
    match &last.element {
        Element::Group(group) => assert_eq!(positions(&group.frame)[1], pt(1, 2)),
        _ => panic!("expected a group"),
    }
}

#[test]
fn resize_centered_moves_by_half_of_the_space_gained() {
    let mut frame = frame_of(3);
    frame.resize(size(20, 20), Axes::new(Align::Center, Align::Horizon));
    assert_eq!(frame.size(), size(20, 20));
    assert_eq!(positions(&frame), vec![pt(5, 5), pt(6, 7), pt(7, 9)]);
}

#[test]
fn resize_at_the_start_moves_nothing() {
    let mut frame = frame_of(3);
    frame.resize(size(20, 20), Axes::new(Align::Left, Align::Top));
    assert_eq!(frame.size(), size(20, 20));
    assert_eq!(positions(&frame), vec![pt(0, 0), pt(1, 2), pt(2, 4)]);
}

#[test]
fn resize_at_the_end_moves_by_the_space_gained() {
    let mut frame = frame_of(3);
    frame.resize(size(20, 20), Axes::new(Align::Right, Align::Bottom));
    assert_eq!(frame.size(), size(20, 20));
    assert_eq!(positions(&frame), vec![pt(10, 10), pt(11, 12), pt(12, 14)]);
}

#[test]
fn resize_aligns_each_axis_on_its_own() {
    let mut frame = frame_of(2);
    frame.set_baseline(Abs::pt(8));
    frame.resize(size(30, 14), Axes::new(Align::Right, Align::Horizon));
    assert_eq!(frame.size(), size(30, 14));
    assert_eq!(positions(&frame), vec![pt(20, 2), pt(21, 4)]);
    assert_eq!(frame.baseline(), Abs::pt(10));
}

#[test]
fn resize_to_a_smaller_size_moves_backwards() {
    let mut frame = frame_of(1);
    frame.resize(size(4, 6), Axes::new(Align::Center, Align::Bottom));
    assert_eq!(frame.size(), size(4, 6));
    assert_eq!(positions(&frame), vec![pt(-3, -4)]);
}

#[test]
fn resize_to_the_same_size_changes_nothing() {
    let mut frame = frame_of(2);
    frame.set_baseline(Abs::pt(8));
    frame.resize(size(10, 10), Axes::new(Align::Right, Align::Bottom));
    assert_eq!(frame.size(), size(10, 10));
    assert_eq!(frame.baseline(), Abs::pt(8));
    assert_eq!(positions(&frame), vec![pt(0, 0), pt(1, 2)]);
}

#[test]
fn clip_wraps_everything_in_a_clipping_group() {
    let mut frame = frame_of(3);
    frame.set_baseline(Abs::pt(8));
    frame.clip();
    assert_eq!(frame.layer(), 1);
    assert_eq!(frame.size(), size(10, 10));
    assert_eq!(frame.baseline(), Abs::pt(8));
    let only = frame.elements().next().unwrap();
    assert_eq!(only.pos, Point::zero());
    match &only.element {
        Element::Group(group) => {
            assert!(group.clips);
            assert!(group.transform.is_identity());
            assert_eq!(image_ids(&group.frame), vec![0, 1, 2]);
            assert_eq!(group.frame.size(), size(10, 10));
            assert_eq!(group.frame.baseline(), Abs::pt(8));
        }
        _ => panic!("expected a group"),
    }
}

#[test]
fn transform_wraps_everything_in_a_transformed_group() {
    let mut frame = frame_of(2);
    let t = Transform::scale(Ratio::raw(2_000_000), Ratio::raw(3_000_000));
    frame.transform(t);
    assert_eq!(frame.layer(), 1);
    match &frame.elements().next().unwrap().element {
        Element::Group(group) => {
            assert!(!group.clips);
            assert_eq!(group.transform, t);
            assert_eq!(image_ids(&group.frame), vec![0, 1]);
        }
        _ => panic!("expected a group"),
    }
}

#[test]
fn later_elements_land_outside_the_group() {
    let mut frame = frame_of(2);
    frame.clip();
    frame.push(pt(3, 3), image(9));
    assert_eq!(frame.layer(), 2);
    let kinds: Vec<bool> =
        frame.elements().map(|item| matches!(item.element, Element::Group(_))).collect();
    assert_eq!(kinds, vec![true, false]);
}

#[test]
fn an_empty_frame_can_be_grouped() {
    let mut frame = Frame::new(size(3, 3));
    frame.clip();
    assert_eq!(frame.layer(), 1);
    assert!(matches!(
        &frame.elements().next().unwrap().element,
        Element::Group(group) if group.frame.is_empty() && group.clips
    ));
}

#[test]
fn group_new_has_default_settings() {
    let group = Group::new(frame_of(2));
    assert!(group.transform.is_identity());
    assert!(!group.clips);
    assert_eq!(group.frame.layer(), 2);
    let copy = group.clone();
    assert_eq!(image_ids(&copy.frame), vec![0, 1]);
}

#[test]
fn text_is_read_in_paint_order_and_through_groups() {
    let mut inner = Frame::new(size(10, 10));
    inner.push(pt(0, 0), text("wor"));
    inner.push(pt(0, 0), image(1));
    inner.push(pt(0, 0), text("ld"));
    let mut deep = Frame::new(size(10, 10));
    deep.push(pt(0, 0), text("!"));
    inner.push(pt(0, 0), Element::Group(Group::new(deep)));
    let mut frame = Frame::new(size(10, 10));
    frame.push(pt(0, 0), text("hello "));
    frame.push(
        pt(0, 0),
        Element::Shape(Shape { geometry: Geometry::Rect(size(1, 1)), fill: None, stroke: None }),
    );
    frame.push(pt(0, 0), Element::Group(Group::new(inner)));
    frame.push(pt(0, 0), text("?"));
    assert_eq!(frame.text(), "hello world!?");
    frame.clip();
    assert_eq!(frame.text(), "hello world!?");
    frame.translate(pt(1, 1));
    assert_eq!(frame.text(), "hello world!?");
}

#[test]
fn text_reads_the_first_character_of_each_cluster() {
    let mut frame = Frame::new(size(10, 10));
    frame.push(pt(0, 0), text("äß→"));
    frame.prepend(pt(0, 0), text("é"));
    assert_eq!(frame.text(), "éäß→");
}

#[test]
fn meta_attaches_one_element_for_each_entry() {
    let a = Meta::Link(Destination::Url("https://a.example".to_string()));
    let b = Meta::Node(StableId { hash: 7, index: 1 }, Content { id: 3 });
    let styles = StyleChain::new().chain(vec![b.clone()]).chain(vec![a.clone()]);
    let mut frame = frame_of(1);
    frame.meta(&styles);
    assert_eq!(frame.layer(), 3);
    let items: Vec<&Item> = frame.elements().collect();
    assert!(matches!(items[0].element, Element::Image(..)));
    assert_eq!(items[1].pos, Point::zero());
    assert_eq!(items[2].pos, Point::zero());
    match (&items[1].element, &items[2].element) {
        (Element::Meta(first, s1), Element::Meta(second, s2)) => {
            assert_eq!(first, &a);
            assert_eq!(second, &b);
            assert_eq!(*s1, size(10, 10));
            assert_eq!(*s2, size(10, 10));
        }
        _ => panic!("expected two metadata elements"),
    }
}

#[test]
fn meta_of_an_empty_chain_attaches_nothing() {
    let mut frame = frame_of(2);
    frame.meta(&StyleChain::new());
    assert_eq!(frame.layer(), 2);
    frame.meta(&StyleChain::new().chain(vec![]));
    assert_eq!(frame.layer(), 2);
}

#[test]
fn meta_survives_grouping_and_moving() {
    let link = Meta::Link(Destination::Url("https://a.example".to_string()));
    let mut frame = frame_of(1);
    frame.meta(&StyleChain::new().chain(vec![link.clone()]));
    frame.translate(pt(2, 2));
    frame.resize(size(12, 12), Axes::new(Align::Center, Align::Horizon));
    frame.clip();
    let group = match &frame.elements().next().unwrap().element {
        Element::Group(group) => group,
        _ => panic!("expected a group"),
    };
    let metas: Vec<&Meta> = group
        .frame
        .elements()
        .filter_map(|item| match &item.element {
            Element::Meta(meta, _) => Some(meta),
            _ => None,
        })
        .collect();
    assert_eq!(metas, vec![&link]);
}

#[test]
fn clone_of_an_element_is_the_same_element() {
    let element = text("abc");
    let copy = element.clone();
    match (&element, &copy) {
        (Element::Text(a), Element::Text(b)) => assert_eq!(a, b),
        _ => panic!("expected text"),
    }
    let item = Item { pos: pt(1, 2), element: image(4) };
    let copy = item.clone();
    assert_eq!(copy.pos, pt(1, 2));
    assert!(matches!(copy.element, Element::Image(image, _) if image.id == 4));
}

#[test]
fn end_to_end() {
    let mut f1 = Frame::new(size(50, 20));
    f1.push(Point::zero(), text("a"));
    let mut f2 = Frame::new(size(100, 100));

    f2.push_frame(Point::zero(), f1.clone());
    assert_eq!(f2.layer(), 1);
    let first = f2.elements().next().unwrap();
    assert_eq!(first.pos, Point::zero());
    assert!(matches!(first.element, Element::Text(_)));

    f2.push_frame(pt(0, 20), f1.clone());
    assert_eq!(f2.layer(), 2);
    let second = f2.elements().nth(1).unwrap();
    assert_eq!(second.pos, pt(0, 20));
    assert!(matches!(second.element, Element::Text(_)));

    f2.clip();
    assert_eq!(f2.layer(), 1);
    assert_eq!(f2.size(), size(100, 100));
    match &f2.elements().next().unwrap().element {
        Element::Group(group) => {
            assert!(group.clips);
            assert_eq!(group.frame.layer(), 2);
            assert_eq!(positions(&group.frame), vec![Point::zero(), pt(0, 20)]);
            assert_eq!(group.frame.text(), "aa");
        }
        _ => panic!("expected a group"),
    }
    assert_eq!(f1.layer(), 1);
    assert_eq!(f1.size(), size(50, 20));
}

#[test]
fn meta_of_an_empty_chain_leaves_a_shared_frame_as_it_is() {
    let mut frame = frame_of(2);
    let shared = frame.clone();
    frame.meta(&StyleChain::new());
    frame.meta(&StyleChain::new().chain(vec![]).chain(vec![]));
    assert_eq!(image_ids(&frame), vec![0, 1]);
    assert_eq!(image_ids(&shared), vec![0, 1]);
    assert_eq!(frame.size(), size(10, 10));
}
