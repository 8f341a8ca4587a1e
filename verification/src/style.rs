//! Styles for pages.

use vstd::prelude::*;
use crate::geom::{Abs, Ratio, Size};

verus! {

/// A length that is either absolute or a share of some other length.
#[derive(Clone, Copy, Debug, PartialEq, Eq, Structural)]
pub enum ScaleLength {
    /// A fixed length.
    Absolute(Abs),
    /// A share of the length it is measured against.
    Scaled(Ratio),
}

impl ScaleLength {
    /// The length that this is when measured against `entity`.
    pub open spec fn spec_scaled(self, entity: Abs) -> Abs {
        match self {
            ScaleLength::Absolute(length) => length,
            ScaleLength::Scaled(share) => share.spec_of(entity),
        }
    }

    /// Resolves to an absolute length, measured against `entity`.
    #[verifier::when_used_as_spec(spec_scaled)]
    pub fn scaled(self, entity: Abs) -> (r: Abs)
        ensures
            r == self.spec_scaled(entity),
    {
        match self {
            ScaleLength::Absolute(length) => length,
            ScaleLength::Scaled(share) => share.of(entity),
        }
    }
}

/// A value for each of the four sides of a box.
#[derive(Debug, PartialEq, Eq)]
pub struct Value4<T> {
    /// The left extent.
    pub left: T,
    /// The top extent.
    pub top: T,
    /// The right extent.
    pub right: T,
    /// The bottom extent.
    pub bottom: T,
}

impl<T: Copy> Clone for Value4<T> {
    fn clone(&self) -> (r: Self)
        ensures
            r == *self,
    {
        *self
    }
}

impl<T: Copy> Copy for Value4<T> {

}

impl<T: Copy> Value4<T> {
    /// A box with the four given sides.
    pub fn new(left: T, top: T, right: T, bottom: T) -> (r: Value4<T>)
        ensures
            r == (Value4 { left, top, right, bottom }),
    {
        Value4 { left, top, right, bottom }
    }

    /// A box with all four sides set to the same value.
    pub fn with_all(value: T) -> (r: Value4<T>)
        ensures
            r == (Value4 { left: value, top: value, right: value, bottom: value }),
    {
        Value4 { left: value, top: value, right: value, bottom: value }
    }
}

/// The absolute margins of a page.
pub type Margins = Value4<Abs>;

/// Paper classes define default margins for a class of related papers.
#[derive(Clone, Copy, Debug, PartialEq, Eq, Hash, Structural)]
pub enum PaperClass {
    Custom,
    Base,
    US,
    Newspaper,
    Book,
}

impl PaperClass {
    /// The default margins of the class, each a share of the page's extent
    /// on its axis.
    pub open spec fn spec_default_margins(self) -> Value4<ScaleLength> {
        match self {
            PaperClass::Custom | PaperClass::Base => Value4 {
                left: ScaleLength::Scaled(Ratio { raw: 119000 }),
                top: ScaleLength::Scaled(Ratio { raw: 84200 }),
                right: ScaleLength::Scaled(Ratio { raw: 119000 }),
                bottom: ScaleLength::Scaled(Ratio { raw: 84200 }),
            },
            PaperClass::US => Value4 {
                left: ScaleLength::Scaled(Ratio { raw: 176000 }),
                top: ScaleLength::Scaled(Ratio { raw: 109200 }),
                right: ScaleLength::Scaled(Ratio { raw: 176000 }),
                bottom: ScaleLength::Scaled(Ratio { raw: 91000 }),
            },
            PaperClass::Newspaper => Value4 {
                left: ScaleLength::Scaled(Ratio { raw: 45500 }),
                top: ScaleLength::Scaled(Ratio { raw: 58700 }),
                right: ScaleLength::Scaled(Ratio { raw: 45500 }),
                bottom: ScaleLength::Scaled(Ratio { raw: 29400 }),
            },
            PaperClass::Book => Value4 {
                left: ScaleLength::Scaled(Ratio { raw: 120000 }),
                top: ScaleLength::Scaled(Ratio { raw: 85200 }),
                right: ScaleLength::Scaled(Ratio { raw: 150000 }),
                bottom: ScaleLength::Scaled(Ratio { raw: 96500 }),
            },
        }
    }

    /// The default margins for this page class.
    #[verifier::when_used_as_spec(spec_default_margins)]
    pub fn default_margins(self) -> (r: Value4<ScaleLength>)
        ensures
            r == self.spec_default_margins(),
    {
        match self {
            PaperClass::Custom | PaperClass::Base => shares(119000, 84200, 119000, 84200),
            PaperClass::US => shares(176000, 109200, 176000, 91000),
            PaperClass::Newspaper => shares(45500, 58700, 45500, 29400),
            PaperClass::Book => shares(120000, 85200, 150000, 96500),
        }
    }
}

/// Four shares, given in millionths.
fn shares(left: i64, top: i64, right: i64, bottom: i64) -> (r: Value4<ScaleLength>)
    ensures
        r == (Value4 {
            left: ScaleLength::Scaled(Ratio { raw: left }),
            top: ScaleLength::Scaled(Ratio { raw: top }),
            right: ScaleLength::Scaled(Ratio { raw: right }),
            bottom: ScaleLength::Scaled(Ratio { raw: bottom }),
        }),
{
    Value4 {
        left: ScaleLength::Scaled(Ratio::raw(left)),
        top: ScaleLength::Scaled(Ratio::raw(top)),
        right: ScaleLength::Scaled(Ratio::raw(right)),
        bottom: ScaleLength::Scaled(Ratio::raw(bottom)),
    }
}

/// Specification of a paper.
#[derive(Clone, Copy, Debug, PartialEq, Eq, Structural)]
pub struct Paper {
    /// The kind of paper, which defines the default margins.
    pub class: PaperClass,
    /// The width of the paper.
    pub width: Abs,
    /// The height of the paper.
    pub height: Abs,
}

impl Paper {
    /// The paper of the A4 format: 210 by 297 millimeters.
    pub open spec fn spec_a4() -> Paper {
        Paper { class: PaperClass::Base, width: Abs::spec_mm(210), height: Abs::spec_mm(297) }
    }

    /// The paper of the A4 format.
    #[verifier::when_used_as_spec(spec_a4)]
    pub fn a4() -> (r: Paper)
        ensures
            r == Paper::spec_a4(),
    {
        Paper { class: PaperClass::Base, width: Abs::mm(210), height: Abs::mm(297) }
    }

    /// The size of the paper.
    pub fn size(self) -> (r: Size)
        ensures
            r == (Size { x: self.width, y: self.height }),
    {
        Size::new(self.width, self.height)
    }
}

/// Defines the size and margins of a page.
#[derive(Clone, Copy, Debug, PartialEq, Eq)]
pub struct PageStyle {
    /// The class of this page.
    pub class: PaperClass,
    /// The width and height of the page.
    pub dimensions: Size,
    /// The amount of white space on each side. If a side is set to `None`, the
    /// default for the paper class is used.
    pub margins: Value4<Option<ScaleLength>>,
}

/// The margin that is in force on a side: the one that was set or, where none
/// was, the default one, measured against the page's extent on the axis.
pub open spec fn resolved(set: Option<ScaleLength>, default: ScaleLength, extent: Abs) -> Abs {
    match set {
        Some(margin) => margin.spec_scaled(extent),
        None => default.spec_scaled(extent),
    }
}

impl PageStyle {
    /// The absolute margins of the page.
    pub open spec fn spec_margins(&self) -> Margins {
        let default = self.class.spec_default_margins();
        Value4 {
            left: resolved(self.margins.left, default.left, self.dimensions.x),
            top: resolved(self.margins.top, default.top, self.dimensions.y),
            right: resolved(self.margins.right, default.right, self.dimensions.x),
            bottom: resolved(self.margins.bottom, default.bottom, self.dimensions.y),
        }
    }

    /// The default page style for the given paper.
    pub fn new(paper: Paper) -> (r: PageStyle)
        ensures
            r == (PageStyle {
                class: paper.class,
                dimensions: Size { x: paper.width, y: paper.height },
                margins: Value4 { left: None, top: None, right: None, bottom: None },
            }),
    {
        PageStyle {
            class: paper.class,
            dimensions: paper.size(),
            margins: Value4::with_all(None),
        }
    }

    /// The absolute margins.
    #[verifier::when_used_as_spec(spec_margins)]
    pub fn margins(&self) -> (r: Margins)
        ensures
            r == self.spec_margins(),
    {
        let dims = self.dimensions;
        let default = self.class.default_margins();
        Value4 {
            left: side(self.margins.left, default.left, dims.x),
            top: side(self.margins.top, default.top, dims.y),
            right: side(self.margins.right, default.right, dims.x),
            bottom: side(self.margins.bottom, default.bottom, dims.y),
        }
    }
}

fn side(set: Option<ScaleLength>, default: ScaleLength, extent: Abs) -> (r: Abs)
    ensures
        r == resolved(set, default, extent),
{
    match set {
        Some(margin) => margin.scaled(extent),
        None => default.scaled(extent),
    }
}

impl Default for PageStyle {
    /// The style of a page of A4 paper.
    fn default() -> (r: PageStyle)
        ensures
            r == (PageStyle {
                class: PaperClass::Base,
                dimensions: Size { x: Abs::spec_mm(210), y: Abs::spec_mm(297) },
                margins: Value4 { left: None, top: None, right: None, bottom: None },
            }),
    {
        PageStyle::new(Paper::a4())
    }
}

} // verus!
