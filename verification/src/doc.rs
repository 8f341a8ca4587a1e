//! Finished documents.

use vstd::prelude::*;
use vstd::std_specs::iter::IteratorSpec;
use crate::frame::Frame;

verus! {

/// A finished document with metadata and page frames.
#[derive(Debug)]
pub struct Document {
    /// The page frames.
    pub pages: Vec<Frame>,
    /// The document's title.
    pub title: Option<String>,
    /// The document's author.
    pub author: Option<String>,
}

impl Default for Document {
    /// The document without pages, title and author.
    fn default() -> (res: Self)
        ensures
            res.pages@ == Seq::<Frame>::empty(),
            res.title is None,
            res.author is None,
    {
        Document { pages: Vec::new(), title: None, author: None }
    }
}

impl Clone for Document {
    fn clone(&self) -> (res: Self)
        ensures
            res.pages@ == self.pages@,
            res.title == self.title,
            res.author == self.author,
    {
        let pages = self.pages.clone();
        assert(pages@ =~= self.pages@);
        Document { pages, title: self.title.clone(), author: self.author.clone() }
    }
}

/// A partial layout result.
#[derive(Debug)]
pub struct Fragment(Vec<Frame>);

impl View for Fragment {
    type V = Seq<Frame>;

    /// The frames of the fragment, in order.
    closed spec fn view(&self) -> Seq<Frame> {
        self.0@
    }
}

impl Clone for Fragment {
    fn clone(&self) -> (res: Self)
        ensures
            res@ == self@,
    {
        let frames = self.0.clone();
        assert(frames@ =~= self.0@);
        Fragment(frames)
    }
}

impl Fragment {
    /// Create a fragment from a single frame.
    pub fn frame(frame: Frame) -> (res: Fragment)
        ensures
            res@ == seq![frame],
    {
        let mut frames: Vec<Frame> = Vec::new();
        frames.push(frame);
        assert(frames@ =~= seq![frame]);
        Fragment(frames)
    }

    /// Create a fragment from multiple frames.
    pub fn frames(frames: Vec<Frame>) -> (res: Fragment)
        ensures
            res@ == frames@,
    {
        Fragment(frames)
    }

    /// The number of frames in the fragment.
    pub fn len(&self) -> (res: usize)
        ensures
            res == self@.len(),
    {
        self.0.len()
    }

    /// Extract the first and only frame.
    pub fn into_frame(self) -> (res: Frame)
        requires
            self@.len() == 1,
        ensures
            res == self@[0],
    {
        let mut frames = self.0;
        frames.remove(0)
    }

    /// Extract the frames.
    pub fn into_frames(self) -> (res: Vec<Frame>)
        ensures
            res@ == self@,
    {
        self.0
    }

    /// Iterate over the contained frames.
    pub fn iter(&self) -> (res: core::slice::Iter<'_, Frame>)
        ensures
            IteratorSpec::remaining(&res) == self@.as_ref(),
            IteratorSpec::decrease(&res) is Some,
            IteratorSpec::initial_value_relation(&res, &res),
    {
        self.0.iter()
    }

    /// The contained frames, for changing them in place.
    pub fn iter_mut(&mut self) -> (res: &mut [Frame])
        ensures
            res@ == old(self)@,
            final(self)@ == final(res)@,
    {
        self.0.as_mut_slice()
    }
}

impl IntoIterator for Fragment {
    type Item = Frame;

    type IntoIter = std::vec::IntoIter<Frame>;

    fn into_iter(self) -> (res: std::vec::IntoIter<Frame>)
        ensures
            IteratorSpec::remaining(&res) == self@,
            IteratorSpec::decrease(&res) is Some,
            IteratorSpec::initial_value_relation(&res, &res),
    {
        self.0.into_iter()
    }
}

impl<'a> IntoIterator for &'a Fragment {
    type Item = &'a Frame;

    type IntoIter = core::slice::Iter<'a, Frame>;

    fn into_iter(self) -> (res: core::slice::Iter<'a, Frame>)
        ensures
            IteratorSpec::remaining(&res) == self@.as_ref(),
            IteratorSpec::decrease(&res) is Some,
            IteratorSpec::initial_value_relation(&res, &res),
    {
        self.0.iter()
    }
}

} // verus!
