use docframe::geom::{Abs, Point, Size};
use docframe::pdf::{
    calculate_offsets, remap_fonts, FontObjects, Layout, LayoutAction, Offsets, PageObject,
    PdfPlan, TextOp,
};
use docframe::text::Font;

fn size(x: i32, y: i32) -> Size {
    Size::new(Abs::pt(x), Abs::pt(y))
}

fn pt(x: i32, y: i32) -> Point {
    Point::new(Abs::pt(x), Abs::pt(y))
}

fn set(font: u32, pts: i32) -> LayoutAction {
    LayoutAction::SetFont(Font::new(font), Abs::pt(pts))
}

fn write(text: &str) -> LayoutAction {
    LayoutAction::WriteText(text.to_string())
}

fn page(height: i32, actions: Vec<LayoutAction>) -> Layout {
    Layout { dimensions: size(100, height), actions }
}

fn layouts() -> Vec<Layout> {
    vec![
        page(
            200,
            vec![
                LayoutAction::MoveAbsolute(pt(10, 20)),
                set(7, 12),
                write("one"),
                write("two"),
                LayoutAction::DebugBox(size(1, 1)),
                set(3, 10),
                LayoutAction::MoveAbsolute(pt(1, 1)),
                LayoutAction::MoveAbsolute(pt(30, 40)),
                write("three"),
            ],
        ),
        page(300, vec![]),
        page(400, vec![write("early"), set(7, 8), set(9, 9), LayoutAction::MoveAbsolute(pt(0, 0)), write("late")]),
    ]
}

#[test]
fn offsets_of_an_empty_document() {
    assert_eq!(
        calculate_offsets(0, 0),
        Some(Offsets { catalog: 1, page_tree: 2, pages: (3, 2), contents: (3, 2), fonts: (3, 2) })
    );
}

#[test]
fn offsets_follow_one_another() {
    assert_eq!(
        calculate_offsets(3, 2),
        Some(Offsets { catalog: 1, page_tree: 2, pages: (3, 5), contents: (6, 8), fonts: (9, 18) })
    );
    assert_eq!(
        calculate_offsets(1, 0),
        Some(Offsets { catalog: 1, page_tree: 2, pages: (3, 3), contents: (4, 4), fonts: (5, 4) })
    );
    assert_eq!(
        calculate_offsets(0, 1),
        Some(Offsets { catalog: 1, page_tree: 2, pages: (3, 2), contents: (3, 2), fonts: (3, 7) })
    );
}

#[test]
fn offsets_end_where_numbers_end() {
    assert_eq!(calculate_offsets(usize::MAX, 0), None);
    assert_eq!(calculate_offsets(0, usize::MAX), None);
    assert_eq!(calculate_offsets(0x7fff_ffff, 0), None);
    assert_eq!(calculate_offsets(0x7fff_fffe, 1), None);
    assert_eq!(
        calculate_offsets(0x7fff_fffe, 0),
        Some(Offsets {
            catalog: 1,
            page_tree: 2,
            pages: (3, 0x8000_0000),
            contents: (0x8000_0001, 0xffff_fffe),
            fonts: (0xffff_ffff, 0xffff_fffe)
        })
    );
    assert_eq!(calculate_offsets(4, 0x3333_3331).unwrap().fonts, (11, 0xffff_ffff));
    assert_eq!(calculate_offsets(4, 0x3333_3332), None);
    assert_eq!(calculate_offsets(0, 0x3333_3333), None);
    assert_eq!(calculate_offsets(0, 0x3333_3334), None);
}

#[test]
fn fonts_are_numbered_in_the_order_of_their_first_use() {
    let (to_pdf, to_face) = remap_fonts(&layouts());
    assert_eq!(to_face, vec![Font::new(7), Font::new(3), Font::new(9)]);
    assert_eq!(to_pdf.len(), 3);
    assert_eq!(to_pdf[&7], 0);
    assert_eq!(to_pdf[&3], 1);
    assert_eq!(to_pdf[&9], 2);
}

#[test]
fn no_fonts_without_pages_that_select_one() {
    let (to_pdf, to_face) = remap_fonts(&vec![]);
    assert!(to_pdf.is_empty());
    assert!(to_face.is_empty());
    let (to_pdf, to_face) = remap_fonts(&vec![page(1, vec![write("x")])]);
    assert!(to_pdf.is_empty());
    assert!(to_face.is_empty());
}

#[test]
fn plan_numbers_every_object() {
    let layouts = layouts();
    let plan = PdfPlan::new(&layouts).unwrap();
    assert_eq!(plan.page_count(), 3);
    assert_eq!(plan.fonts(), &vec![Font::new(7), Font::new(3), Font::new(9)]);
    assert_eq!(
        plan.offsets(),
        Offsets { catalog: 1, page_tree: 2, pages: (3, 5), contents: (6, 8), fonts: (9, 23) }
    );
    assert_eq!(plan.font_resources(), vec![(1, 9), (2, 14), (3, 19)]);
    assert_eq!(
        plan.font_objects(0),
        FontObjects { base: 9, cid: 10, descriptor: 11, cmap: 12, file: 13 }
    );
    assert_eq!(
        plan.font_objects(2),
        FontObjects { base: 19, cid: 20, descriptor: 21, cmap: 22, file: 23 }
    );
    assert_eq!(
        plan.page_objects(),
        vec![
            PageObject { id: 3, parent: 2, content: 6, media_box: size(100, 200) },
            PageObject { id: 4, parent: 2, content: 7, media_box: size(100, 300) },
            PageObject { id: 5, parent: 2, content: 8, media_box: size(100, 400) },
        ]
    );
}

#[test]
fn plan_of_an_empty_document() {
    let layouts = vec![];
    let plan = PdfPlan::new(&layouts).unwrap();
    assert_eq!(plan.page_count(), 0);
    assert!(plan.fonts().is_empty());
    assert!(plan.font_resources().is_empty());
    assert!(plan.page_objects().is_empty());
}

#[test]
fn page_content_moves_only_before_the_next_text() {
    let layouts = layouts();
    let plan = PdfPlan::new(&layouts).unwrap();
    assert_eq!(
        plan.page_operations(0),
        vec![
            TextOp::SetFont { number: 1, size: Abs::pt(12) },
            TextOp::MoveTo { x: Abs::pt(10), y: Abs::pt(200 - 20 - 12) },
            TextOp::Show { face: Font::new(7), text: "one".to_string() },
            TextOp::Show { face: Font::new(7), text: "two".to_string() },
            TextOp::SetFont { number: 2, size: Abs::pt(10) },
            TextOp::MoveTo { x: Abs::pt(30), y: Abs::pt(200 - 40 - 10) },
            TextOp::Show { face: Font::new(3), text: "three".to_string() },
        ]
    );
    assert_eq!(plan.page_operations(1), vec![]);
}

#[test]
fn page_content_before_a_font_is_selected() {
    let layouts = layouts();
    let plan = PdfPlan::new(&layouts).unwrap();
    assert_eq!(
        plan.page_operations(2),
        vec![
            TextOp::Show { face: Font::new(u32::MAX), text: "early".to_string() },
            TextOp::SetFont { number: 1, size: Abs::pt(8) },
            TextOp::SetFont { number: 3, size: Abs::pt(9) },
            TextOp::MoveTo { x: Abs::zero(), y: Abs::pt(400 - 9) },
            TextOp::Show { face: Font::new(9), text: "late".to_string() },
        ]
    );
}
