//! Images that are placed in frames.

use vstd::prelude::*;
use crate::strings::same_text;
use crate::frame::{Element, ElementModel, Frame, FrameModel};
use crate::geom::{Align, Axes, Point, Size, Transform};

verus! {

/// A reference to a loaded image: its index in the store of images.
#[derive(Clone, Copy, Debug, PartialEq, Eq, Hash, Structural)]
pub struct Image {
    pub id: u32,
}

impl Image {
    /// The image with the given index in the image store.
    pub fn new(id: u32) -> (r: Image)
        ensures
            r.id == id,
    {
        Image { id }
    }
}

/// How an image should adjust itself to a given area.
#[derive(Clone, Copy, Debug, PartialEq, Eq, Hash, Structural)]
pub enum ImageFit {
    /// The image should be fully contained in the area.
    Contain,
    /// The image should completely cover the area.
    Cover,
    /// The image should be stretched so that it exactly fills the area.
    Stretch,
}

impl Default for ImageFit {
    fn default() -> (r: Self)
        ensures
            r == ImageFit::Contain,
    {
        ImageFit::Contain
    }
}

impl ImageFit {
    /// The message with which [`ImageFit::from_str`] rejects its input.
    pub open spec fn spec_error() -> Seq<char> {
        "expected \"contain\", \"cover\" or \"stretch\""@
    }

    /// The fit that a name stands for, if it is the name of one.
    pub open spec fn spec_named(name: Seq<char>) -> Option<ImageFit> {
        if name == "contain"@ {
            Some(ImageFit::Contain)
        } else if name == "cover"@ {
            Some(ImageFit::Cover)
        } else if name == "stretch"@ {
            Some(ImageFit::Stretch)
        } else {
            None
        }
    }

    /// Reads a fit from its name: `contain`, `cover` or `stretch`.
    pub fn from_str(name: &str) -> (r: Result<ImageFit, &'static str>)
        ensures
            match ImageFit::spec_named(name@) {
                Some(fit) => r == Ok::<ImageFit, &'static str>(fit),
                None => r matches Err(msg) && msg@ == ImageFit::spec_error(),
            },
    {
        if same_text(name, "contain") {
            Ok(ImageFit::Contain)
        } else if same_text(name, "cover") {
            Ok(ImageFit::Cover)
        } else if same_text(name, "stretch") {
            Ok(ImageFit::Stretch)
        } else {
            Err("expected \"contain\", \"cover\" or \"stretch\"")
        }
    }
}

/// An image node.
#[derive(Clone, Copy, Debug, PartialEq, Eq, Hash, Structural)]
pub struct ImageNode {
    /// The id of the image file.
    pub id: Image,
    /// How the image should adjust itself to a given area.
    pub fit: ImageFit,
}

impl ImageNode {
    /// The frame that [`ImageNode::layout`] builds: the image alone in a
    /// frame of its fitted size, that frame resized to the canvas with the
    /// image in its middle, and, for the fit that covers, all of it clipped
    /// to the canvas.
    pub open spec fn spec_layout(self, size: Size, canvas: Size) -> FrameModel {
        let placed = FrameModel::empty(size).push(
            Point::spec_zero(),
            ElementModel::Image(self.id, size),
        ).resize(canvas, Axes { x: Align::Center, y: Align::Horizon });
        if self.fit is Cover {
            placed.group(Transform::spec_identity(), true)
        } else {
            placed
        }
    }

    /// Lays the image out in a canvas, given the size that the fitted image
    /// has.
    pub fn layout(&self, size: Size, canvas: Size) -> (frame: Frame)
        ensures
            frame@ == self.spec_layout(size, canvas),
    {
        // First, place the image in a frame of exactly its size and then resize
        // the frame to the canvas size, center aligning the image in the
        // process.
        let mut frame = Frame::new(size);
        frame.push(Point::zero(), Element::Image(self.id, size));
        frame.resize(canvas, Axes::new(Align::Center, Align::Horizon));
        // Create a clipping group if the fit mode is "cover".
        if self.fit == ImageFit::Cover {
            frame.clip();
        }
        frame
    }
}

} // verus!
