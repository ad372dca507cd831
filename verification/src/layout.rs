//! Content and the layout nodes that directives build from it.

use vstd::prelude::*;
use crate::color::Paint;
use crate::geom::{Align, Dir, Fractional, GenAxis, Linear, Sides, Spec};
use crate::style::Style;

verus! {

/// A piece of content.
#[derive(Debug, PartialEq, Eq)]
pub enum Node {
    /// A run of text.
    Text(String),
    /// Whitespace between words.
    Space,
    /// A forced line break.
    Linebreak,
    /// A paragraph break.
    Parbreak,
    /// A page break.
    Pagebreak,
    /// Spacing of a given amount along an axis of the text flow.
    Spacing(GenAxis, Linear),
    /// A layout node that sits in a line of text.
    Inline(PackedNode),
    /// A layout node that stands as a block of its own.
    Block(PackedNode),
    /// Several pieces of content, one after the other.
    Sequence(Vec<Node>),
}

/// A node in block form, ready to be measured and placed.
#[derive(Debug, PartialEq, Eq)]
pub enum PackedNode {
    /// Content to be flowed, with the style it was lowered against.
    Flow(Box<Node>, Style),
    /// A shape with optional content.
    Shape(Box<ShapeNode>),
    /// Padded content.
    Pad(Box<PadNode>),
    /// Children stacked along an axis.
    Stack(StackNode),
    /// Children arranged in a grid.
    Grid(GridNode),
}

/// The kinds of shape.
#[derive(Clone, Copy, Debug, PartialEq, Eq, Structural)]
pub enum ShapeKind {
    Rect,
}

/// A shape, sized and filled, around optional content.
#[derive(Debug, PartialEq, Eq)]
pub struct ShapeNode {
    pub shape: ShapeKind,
    pub width: Option<Linear>,
    pub height: Option<Linear>,
    pub fill: Option<Paint>,
    pub child: Option<PackedNode>,
}

/// Content with padding on its four sides.
#[derive(Debug, PartialEq, Eq)]
pub struct PadNode {
    pub padding: Sides<Linear>,
    pub child: PackedNode,
}

/// One child of a stack.
#[derive(Debug, PartialEq, Eq)]
pub enum StackChild {
    /// Spacing between two other children.
    Spacing(Linear),
    /// A node, with the alignment it was given when the stack was built.
    Any(PackedNode, Align),
}

/// Children stacked along an axis.
#[derive(Debug, PartialEq, Eq)]
pub struct StackNode {
    pub dir: Dir,
    pub children: Vec<StackChild>,
}

/// How one row or column of a grid is sized.
#[derive(Clone, Copy, Debug, PartialEq, Eq, Structural)]
pub enum TrackSizing {
    /// As large as its content.
    Auto,
    /// A share of the available extent plus a fixed length.
    Linear(Linear),
    /// A weighted share of what the other tracks leave.
    Fractional(Fractional),
}

/// Children arranged in a grid.
#[derive(Debug, PartialEq, Eq)]
pub struct GridNode {
    /// The sizing of the columns and of the rows.
    pub tracks: Spec<Vec<TrackSizing>>,
    /// The sizing of the gutter between columns and between rows.
    pub gutter: Spec<Vec<TrackSizing>>,
    /// The children, in the order in which they fill the cells.
    pub children: Vec<PackedNode>,
}

/// What a stack holds, as mathematical values.
pub struct StackView {
    pub dir: Dir,
    pub children: Seq<StackChild>,
}

impl View for StackNode {
    type V = StackView;

    open spec fn view(&self) -> StackView {
        StackView { dir: self.dir, children: self.children@ }
    }
}

/// What a grid holds, as mathematical values.
pub struct GridView {
    pub columns: Seq<TrackSizing>,
    pub rows: Seq<TrackSizing>,
    pub column_gutter: Seq<TrackSizing>,
    pub row_gutter: Seq<TrackSizing>,
    pub children: Seq<PackedNode>,
}

impl View for GridNode {
    type V = GridView;

    open spec fn view(&self) -> GridView {
        GridView {
            columns: self.tracks.x@,
            rows: self.tracks.y@,
            column_gutter: self.gutter.x@,
            row_gutter: self.gutter.y@,
            children: self.children@,
        }
    }
}

impl Node {
    /// Whether this is a sequence without any piece in it.
    pub open spec fn is_empty(self) -> bool {
        self matches Node::Sequence(pieces) && pieces@.len() == 0
    }

    /// The block form of content under a style: a block stays what it is,
    /// anything else becomes a flow that remembers the style.
    pub open spec fn spec_to_block(self, style: Style) -> PackedNode {
        match self {
            Node::Block(packed) => packed,
            other => PackedNode::Flow(Box::new(other), style),
        }
    }

    /// Content without anything in it.
    pub fn empty() -> (r: Node)
        ensures
            r.is_empty(),
    {
        Node::Sequence(Vec::new())
    }

    /// Content that holds a layout node in a line of text.
    pub fn inline(packed: PackedNode) -> (r: Node)
        ensures
            r == Node::Inline(packed),
    {
        Node::Inline(packed)
    }

    /// Content that holds a layout node as a block of its own.
    pub fn block(packed: PackedNode) -> (r: Node)
        ensures
            r == Node::Block(packed),
    {
        Node::Block(packed)
    }

    /// Lowers content to block form under the given style.
    pub fn to_block(self, style: &Style) -> (r: PackedNode)
        ensures
            r == self.spec_to_block(*style),
    {
        match self {
            Node::Block(packed) => packed,
            other => PackedNode::Flow(Box::new(other), *style),
        }
    }
}

impl View for Node {
    type V = Node;

    open spec fn view(&self) -> Node {
        *self
    }
}

impl View for TrackSizing {
    type V = TrackSizing;

    open spec fn view(&self) -> TrackSizing {
        *self
    }
}

} // verus!
