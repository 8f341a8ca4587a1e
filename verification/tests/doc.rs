use docframe::doc::{Document, Fragment};
use docframe::frame::{Element, Frame};
use docframe::geom::{Abs, Point, Size};
use docframe::image::Image;

fn frame(width: i32) -> Frame {
    let mut frame = Frame::new(Size::new(Abs::pt(width), Abs::pt(1)));
    frame.push(Point::zero(), Element::Image(Image::new(width as u32), Size::zero()));
    frame
}

#[test]
fn fragment_of_one_frame() {
    let fragment = Fragment::frame(frame(3));
    assert_eq!(fragment.len(), 1);
    assert_eq!(fragment.into_frame().width(), Abs::pt(3));
}

#[test]
fn fragment_of_many_frames() {
    let fragment = Fragment::frames(vec![frame(1), frame(2), frame(3)]);
    assert_eq!(fragment.len(), 3);
    let widths: Vec<Abs> = fragment.iter().map(|f| f.width()).collect();
    assert_eq!(widths, vec![Abs::pt(1), Abs::pt(2), Abs::pt(3)]);
    let frames = fragment.into_frames();
    assert_eq!(frames.len(), 3);
    assert_eq!(frames[2].width(), Abs::pt(3));
}

#[test]
fn fragment_without_frames() {
    let fragment = Fragment::frames(vec![]);
    assert_eq!(fragment.len(), 0);
    assert_eq!(fragment.iter().count(), 0);
    assert!(fragment.into_frames().is_empty());
}

#[test]
fn fragment_frames_can_be_changed_in_place() {
    let mut fragment = Fragment::frames(vec![frame(1), frame(2)]);
    for f in fragment.iter_mut() {
        f.set_baseline(Abs::pt(9));
    }
    fragment.iter_mut()[1].clear();
    assert_eq!(fragment.len(), 2);
    let frames = fragment.into_frames();
    assert_eq!(frames[0].baseline(), Abs::pt(9));
    assert_eq!(frames[0].layer(), 1);
    assert_eq!(frames[1].baseline(), Abs::pt(9));
    assert_eq!(frames[1].layer(), 0);
}

#[test]
fn fragment_clone_shares_without_harm() {
    let mut fragment = Fragment::frames(vec![frame(1)]);
    let copy = fragment.clone();
    fragment.iter_mut()[0].clear();
    assert_eq!(copy.into_frame().layer(), 1);
    assert_eq!(fragment.into_frame().layer(), 0);
}

#[test]
fn default_document_is_empty() {
    let doc = Document::default();
    assert!(doc.pages.is_empty());
    assert!(doc.title.is_none());
    assert!(doc.author.is_none());
}

#[test]
fn document_holds_pages_in_order() {
    let doc = Document {
        pages: vec![frame(1), frame(2)],
        title: Some("Title".to_string()),
        author: None,
    };
    let copy = doc.clone();
    assert_eq!(copy.pages.len(), 2);
    assert_eq!(copy.pages[1].width(), Abs::pt(2));
    assert_eq!(copy.title.as_deref(), Some("Title"));
    assert_eq!(copy.author, None);
}

#[test]
fn fragment_can_be_walked_by_value_and_by_reference() {
    let fragment = Fragment::frames(vec![frame(1), frame(2)]);
    let mut widths = Vec::new();
    for f in &fragment {
        widths.push(f.width());
    }
    assert_eq!(widths, vec![Abs::pt(1), Abs::pt(2)]);
    let mut layers = 0;
    for f in fragment {
        layers += f.layer();
    }
    assert_eq!(layers, 2);
}
