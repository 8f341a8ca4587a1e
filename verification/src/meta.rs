//! Meta information that is attached to regions of a frame, and the style
//! scopes it is collected from.

use vstd::prelude::*;
use crate::geom::{Abs, Point};

verus! {

/// A whole number that is at least one, such as a page number or the level
/// of a heading.
#[derive(Clone, Copy, Debug, PartialEq, Eq, PartialOrd, Ord, Hash, Structural)]
pub struct Positive {
    value: usize,
}

impl View for Positive {
    type V = usize;

    closed spec fn view(&self) -> usize {
        self.value
    }
}

impl Positive {
    #[verifier::type_invariant]
    spec fn nonzero(self) -> bool {
        self.value >= 1
    }

    /// The number one.
    pub fn one() -> (r: Positive)
        ensures
            r@ == 1,
    {
        Positive { value: 1 }
    }

    /// The number `value`, unless it is zero.
    pub fn new(value: usize) -> (r: Option<Positive>)
        ensures
            r is Some <==> value != 0,
            r matches Some(p) ==> p@ == value,
    {
        if value == 0 {
            None
        } else {
            Some(Positive { value })
        }
    }

    /// The number as a primitive type.
    pub fn get(self) -> (r: usize)
        ensures
            r == self@,
            r >= 1,
    {
        proof {
            use_type_invariant(self);
        }
        self.value
    }
}

/// A physical location in a document.
#[derive(Clone, Copy, Debug, PartialEq, Eq, Hash, Structural)]
pub struct Location {
    /// The page, starting at 1.
    pub page: Positive,
    /// The exact coordinates on the page (from the top left, as usual).
    pub pos: Point,
}

/// A value in a user-facing dictionary.
#[derive(Clone, Copy, Debug, PartialEq, Eq, Structural)]
pub enum Value {
    /// An integer.
    Int(i64),
    /// A length.
    Length(Abs),
}

/// A user-facing record of keys and values, in the order of insertion.
#[derive(Debug)]
pub struct Dict {
    entries: Vec<(String, Value)>,
}

impl View for Dict {
    type V = Seq<(Seq<char>, Value)>;

    closed spec fn view(&self) -> Seq<(Seq<char>, Value)> {
        Seq::new(self.entries@.len(), |i: int| (self.entries@[i].0@, self.entries@[i].1))
    }
}

impl Dict {
    /// A dictionary without entries.
    pub fn new() -> (r: Dict)
        ensures
            r@ == Seq::<(Seq<char>, Value)>::empty(),
    {
        let r = Dict { entries: Vec::new() };
        assert(r@ =~= Seq::empty());
        r
    }

    /// Adds an entry behind those that are there.
    pub fn push(&mut self, key: &str, value: Value)
        ensures
            final(self)@ == old(self)@.push((key@, value)),
    {
        self.entries.push((key.to_owned(), value));
        assert(self@ =~= old(self)@.push((key@, value)));
    }

    /// The number of entries.
    pub fn len(&self) -> (n: usize)
        ensures
            n == self@.len(),
    {
        self.entries.len()
    }

    /// The key of the entry at `index`.
    pub fn key(&self, index: usize) -> (k: &str)
        requires
            index < self@.len(),
        ensures
            k@ == self@[index as int].0,
    {
        self.entries[index].0.as_str()
    }

    /// The value of the entry at `index`.
    pub fn value(&self, index: usize) -> (v: Value)
        requires
            index < self@.len(),
        ensures
            v == self@[index as int].1,
    {
        self.entries[index].1
    }
}

impl Location {
    /// The entries of the dictionary that [`Location::encode`] builds: the
    /// page number as an integer, then both coordinates as lengths.
    pub open spec fn spec_encode(self) -> Seq<(Seq<char>, Value)> {
        seq![
            ("page"@, Value::Int(self.page@ as i64)),
            ("x"@, Value::Length(self.pos.x)),
            ("y"@, Value::Length(self.pos.y)),
        ]
    }

    /// Encode into a user-facing dictionary.
    pub fn encode(&self) -> (d: Dict)
        ensures
            d@ == self.spec_encode(),
    {
        let mut d = Dict::new();
        d.push("page", Value::Int(#[verifier::truncate] (self.page.get() as i64)));
        d.push("x", Value::Length(self.pos.x));
        d.push("y", Value::Length(self.pos.y));
        assert(d@ =~= self.spec_encode());
        d
    }
}

/// A link destination.
#[derive(Debug, PartialEq, Eq, Hash)]
pub enum Destination {
    /// A link to a point on a page.
    Internal(Location),
    /// A link to a URL.
    Url(String),
}

impl Clone for Destination {
    fn clone(&self) -> (res: Self)
        ensures
            res == *self,
    {
        match self {
            Destination::Internal(location) => Destination::Internal(*location),
            Destination::Url(url) => Destination::Url(url.clone()),
        }
    }
}

/// An identifier for a piece of content that stays the same across layout
/// runs.
#[derive(Clone, Copy, Debug, PartialEq, Eq, Hash, Structural)]
pub struct StableId {
    pub hash: u128,
    pub index: usize,
}

/// A reference to a piece of source content.
#[derive(Clone, Copy, Debug, PartialEq, Eq, Hash, Structural)]
pub struct Content {
    pub id: u64,
}

/// Meta information that isn't visible or renderable.
#[derive(Debug, PartialEq, Eq, Hash)]
pub enum Meta {
    /// An internal or external link.
    Link(Destination),
    /// An identifiable piece of content that produces something within the
    /// area this metadata is attached to.
    Node(StableId, Content),
}

impl Clone for Meta {
    fn clone(&self) -> (res: Self)
        ensures
            res == *self,
    {
        match self {
            Meta::Link(destination) => Meta::Link(destination.clone()),
            Meta::Node(id, content) => Meta::Node(*id, *content),
        }
    }
}

/// A value that combines with the value of an enclosing scope.
pub trait Fold {
    /// The type of the folded output.
    type Output;

    /// Fold this inner value with an outer folded value.
    fn fold(self, outer: Self::Output) -> Self::Output;
}

impl Fold for Vec<Meta> {
    type Output = Vec<Meta>;

    /// The inner entries, then the outer ones.
    fn fold(self, outer: Vec<Meta>) -> (r: Vec<Meta>)
        ensures
            r@ == self@ + outer@,
    {
        let mut folded = self;
        let mut outer = outer;
        folded.append(&mut outer);
        folded
    }
}

/// The metadata of a chain of scopes, each list in front of the lists of the
/// scopes that enclose it. The chain is given innermost scope first.
pub open spec fn folded(scopes: Seq<Seq<Meta>>) -> Seq<Meta>
    decreases scopes.len(),
{
    if scopes.len() == 0 {
        Seq::empty()
    } else {
        scopes.first() + folded(scopes.drop_first())
    }
}

/// A chain of nested style scopes with the metadata that each one sets.
#[derive(Debug)]
pub struct StyleChain {
    /// The metadata of each scope, outermost scope first.
    scopes: Vec<Vec<Meta>>,
}

impl View for StyleChain {
    type V = Seq<Seq<Meta>>;

    /// The metadata lists of the scopes, innermost scope first.
    closed spec fn view(&self) -> Seq<Seq<Meta>> {
        Seq::new(
            self.scopes@.len(),
            |i: int| self.scopes@[self.scopes@.len() - 1 - i]@,
        )
    }
}

/// A copy of a list of metadata.
fn copy_metas(metas: &Vec<Meta>) -> (r: Vec<Meta>)
    ensures
        r@ == metas@,
{
    let mut copy: Vec<Meta> = Vec::new();
    let mut i: usize = 0;
    while i < metas.len()
        invariant
            i <= metas.len(),
            copy@ == metas@.take(i as int),
        decreases metas.len() - i,
    {
        copy.push(metas[i].clone());
        assert(copy@ =~= metas@.take(i + 1));
        i += 1;
    }
    assert(metas@.take(metas.len() as int) =~= metas@);
    copy
}

impl StyleChain {
    /// The chain without any scope.
    pub fn new() -> (r: StyleChain)
        ensures
            r@ == Seq::<Seq<Meta>>::empty(),
    {
        let r = StyleChain { scopes: Vec::new() };
        assert(r@ =~= Seq::empty());
        r
    }

    /// Opens a scope inside all scopes of the chain, with its metadata.
    pub fn chain(self, inner: Vec<Meta>) -> (r: StyleChain)
        ensures
            r@ == seq![inner@] + self@,
    {
        let mut scopes = self.scopes;
        scopes.push(inner);
        let r = StyleChain { scopes };
        assert(r@ =~= seq![inner@] + self@);
        r
    }

    /// The number of scopes in the chain.
    pub fn depth(&self) -> (n: usize)
        ensures
            n == self@.len(),
    {
        self.scopes.len()
    }

    /// The metadata that is in force in the innermost scope: the lists of all
    /// scopes folded together, inner before outer.
    pub fn meta(&self) -> (r: Vec<Meta>)
        ensures
            r@ == folded(self@),
    {
        let n = self.scopes.len();
        let mut acc: Vec<Meta> = Vec::new();
        let mut i: usize = 0;
        while i < n
            invariant
                i <= n,
                n == self.scopes@.len(),
                acc@ == folded(self@.subrange(n - i, n as int)),
            decreases n - i,
        {
            let ghost rest = self@.subrange(n - i, n as int);
            let ghost next = self@.subrange(n - i - 1, n as int);
            let scope = copy_metas(&self.scopes[i]);
            acc = scope.fold(acc);
            proof {
                assert(next.first() == self.scopes@[i as int]@);
                assert(next.drop_first() =~= rest);
            }
            i += 1;
        }
        assert(self@.subrange(0, n as int) =~= self@);
        acc
    }
}

/// Standard semantic roles.
#[derive(Clone, Copy, Debug, PartialEq, Eq, Structural)]
pub enum Role {
    /// A paragraph.
    Paragraph,
    /// A heading of the given level and whether it should be part of the
    /// outline.
    Heading { level: Positive, outlined: bool },
    /// A generic block-level subdivision.
    GenericBlock,
    /// A generic inline subdivision.
    GenericInline,
    /// A list and whether it is ordered.
    List { ordered: bool },
    /// A list item. Must have a list parent.
    ListItem,
    /// The label of a list item. Must have a list item parent.
    ListLabel,
    /// The body of a list item. Must have a list item parent.
    ListItemBody,
    /// A mathematical formula.
    Formula,
    /// A table.
    Table,
    /// A table row. Must have a table parent.
    TableRow,
    /// A table cell. Must have a table row parent.
    TableCell,
    /// A code fragment.
    Code,
    /// A page header.
    Header,
    /// A page footer.
    Footer,
    /// A page background.
    Background,
    /// A page foreground.
    Foreground,
}

} // verus!
