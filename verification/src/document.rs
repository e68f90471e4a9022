//! The in-memory vector document the compositor produces: rectangle,
//! text, line, path and group nodes with exact coordinates.
//!
//! Coordinates and lengths are in milli-pixels. Every node kind has a
//! mathematical mirror (`...V`) over `int` and `Seq`, reached through the
//! `View` trait; the mirrors are what contracts speak of.

use vstd::prelude::*;

use crate::color::Color;
use crate::markers::{TextAnchor, TextSize};

verus! {

/// One instruction of a polyline drawing program. Coordinates are
/// absolute, distances relative, all in milli-pixels.
#[derive(Debug, Clone, Copy, PartialEq, Eq, Structural)]
pub enum PathCommand {
    /// Moves the pen to `(x, y)` without drawing.
    Move { x: i64, y: i64 },
    /// Draws horizontally by `dx`.
    HorizontalBy { dx: i64 },
    /// Draws vertically by `dy`.
    VerticalBy { dy: i64 },
    /// Draws vertically to the absolute height `y`.
    VerticalTo { y: i64 },
}

/// The mathematical value of a path command.
pub ghost enum PathCommandV {
    Move { x: int, y: int },
    HorizontalBy { dx: int },
    VerticalBy { dy: int },
    VerticalTo { y: int },
}

impl View for PathCommand {
    type V = PathCommandV;

    open spec fn view(&self) -> PathCommandV {
        match *self {
            PathCommand::Move { x, y } => PathCommandV::Move { x: x as int, y: y as int },
            PathCommand::HorizontalBy { dx } => PathCommandV::HorizontalBy { dx: dx as int },
            PathCommand::VerticalBy { dy } => PathCommandV::VerticalBy { dy: dy as int },
            PathCommand::VerticalTo { y } => PathCommandV::VerticalTo { y: y as int },
        }
    }
}

/// The view of a command sequence.
pub open spec fn commands_view(s: Seq<PathCommand>) -> Seq<PathCommandV> {
    s.map_values(|c: PathCommand| c@)
}

/// A full-bleed background rectangle, drawn without a stroke.
#[derive(Debug, Clone, Copy, PartialEq)]
pub struct RectNode {
    pub fill: Color,
}

/// The mathematical value of a text node.
pub ghost struct TextNodeV {
    pub content: Seq<char>,
    pub color: Color,
    pub size: TextSize,
    pub anchor: TextAnchor,
    pub dx: int,
    pub dy: int,
}

/// A text node: content, fill color, size category, anchor, and a
/// translation in milli-pixels.
#[derive(Debug, Clone, PartialEq)]
pub struct TextNode {
    pub content: String,
    pub color: Color,
    pub size: TextSize,
    pub anchor: TextAnchor,
    pub dx: i64,
    pub dy: i64,
}

impl View for TextNode {
    type V = TextNodeV;

    open spec fn view(&self) -> TextNodeV {
        TextNodeV {
            content: self.content@,
            color: self.color,
            size: self.size,
            anchor: self.anchor,
            dx: self.dx as int,
            dy: self.dy as int,
        }
    }
}

/// The mathematical value of a line node.
pub ghost struct LineNodeV {
    pub x1: int,
    pub y1: int,
    pub x2: int,
    pub y2: int,
    pub color: Color,
    pub width: int,
    pub dash: Option<(int, int)>,
    pub rounded: bool,
}

/// A straight line segment: endpoints in milli-pixels, stroke color and
/// width, an optional dash pattern (dash length and gap, in milli-pixels),
/// and rounded caps when asked for.
#[derive(Debug, Clone, Copy, PartialEq)]
pub struct LineNode {
    pub x1: i64,
    pub y1: i64,
    pub x2: i64,
    pub y2: i64,
    pub color: Color,
    pub width: i64,
    pub dash: Option<(i64, i64)>,
    pub rounded: bool,
}

impl View for LineNode {
    type V = LineNodeV;

    open spec fn view(&self) -> LineNodeV {
        LineNodeV {
            x1: self.x1 as int,
            y1: self.y1 as int,
            x2: self.x2 as int,
            y2: self.y2 as int,
            color: self.color,
            width: self.width as int,
            dash: match self.dash {
                Some((on, off)) => Some((on as int, off as int)),
                None => None,
            },
            rounded: self.rounded,
        }
    }
}

/// The mathematical value of a path node.
pub ghost struct PathNodeV {
    pub color: Color,
    pub width: int,
    pub rounded: bool,
    pub dx: int,
    pub dy: int,
    pub commands: Seq<PathCommandV>,
}

/// A polyline node: stroke color and width in milli-pixels, no fill, a
/// translation, and the drawing program itself.
#[derive(Debug, Clone, PartialEq)]
pub struct PathNode {
    pub color: Color,
    pub width: i64,
    pub rounded: bool,
    pub dx: i64,
    pub dy: i64,
    pub commands: Vec<PathCommand>,
}

impl View for PathNode {
    type V = PathNodeV;

    open spec fn view(&self) -> PathNodeV {
        PathNodeV {
            color: self.color,
            width: self.width as int,
            rounded: self.rounded,
            dx: self.dx as int,
            dy: self.dy as int,
            commands: commands_view(self.commands@),
        }
    }
}

/// The mathematical value of a node.
pub ghost enum NodeV {
    Rect { fill: Color },
    Text(TextNodeV),
    Line(LineNodeV),
    Path(PathNodeV),
    Group(GroupV),
}

/// The mathematical value of a group.
pub ghost struct GroupV {
    pub dx: int,
    pub dy: int,
    pub nodes: Seq<NodeV>,
}

/// One node of the document tree.
#[derive(Debug, PartialEq)]
pub enum Node {
    Rect(RectNode),
    Text(TextNode),
    Line(LineNode),
    Path(PathNode),
    Group(Group),
}

/// A group of nodes, translated as one, in milli-pixels.
#[derive(Debug, PartialEq)]
pub struct Group {
    pub dx: i64,
    pub dy: i64,
    pub nodes: Vec<Node>,
}

/// The view of one node.
pub open spec fn node_view(n: Node) -> NodeV
    decreases n,
{
    match n {
        Node::Rect(r) => NodeV::Rect { fill: r.fill },
        Node::Text(t) => NodeV::Text(t@),
        Node::Line(l) => NodeV::Line(l@),
        Node::Path(p) => NodeV::Path(p@),
        Node::Group(g) => NodeV::Group(
            GroupV { dx: g.dx as int, dy: g.dy as int, nodes: nodes_view(g.nodes@) },
        ),
    }
}

/// The view of a sequence of nodes.
pub open spec fn nodes_view(s: Seq<Node>) -> Seq<NodeV>
    decreases s,
{
    if s.len() == 0 {
        Seq::empty()
    } else {
        nodes_view(s.drop_last()).push(node_view(s.last()))
    }
}

impl View for Node {
    type V = NodeV;

    open spec fn view(&self) -> NodeV {
        node_view(*self)
    }
}

impl View for Group {
    type V = GroupV;

    open spec fn view(&self) -> GroupV {
        GroupV { dx: self.dx as int, dy: self.dy as int, nodes: nodes_view(self.nodes@) }
    }
}

/// Views distribute over `push`.
pub broadcast proof fn lemma_nodes_view_push(s: Seq<Node>, n: Node)
    ensures
        #[trigger] nodes_view(s.push(n)) == nodes_view(s).push(node_view(n)),
{
    assert(s.push(n).drop_last() =~= s);
    assert(s.push(n).last() == n);
}

/// The mathematical value of a document.
pub ghost struct DocumentV {
    pub width: int,
    pub height: int,
    pub nodes: Seq<NodeV>,
}

/// A finished vector document: an explicit view box of `width` by
/// `height` milli-pixels, and the nodes drawn inside it, in paint order.
#[derive(Debug, PartialEq)]
pub struct Document {
    pub width: i64,
    pub height: i64,
    pub nodes: Vec<Node>,
}

impl View for Document {
    type V = DocumentV;

    open spec fn view(&self) -> DocumentV {
        DocumentV {
            width: self.width as int,
            height: self.height as int,
            nodes: nodes_view(self.nodes@),
        }
    }
}

/// Something that can be translated to a new offset.
pub trait Transformable where Self: core::marker::Sized {
    /// The node as it is after a move to `(x, y)`.
    spec fn spec_translated(self, x: int, y: int) -> Self;

    /// Moves the node to the offset `(x, y)`, in milli-pixels.
    fn translate(self, x: i64, y: i64) -> (r: Self)
        ensures
            r == self.spec_translated(x as int, y as int),
    ;
}

impl Transformable for Group {
    open spec fn spec_translated(self, x: int, y: int) -> Group {
        Group { dx: x as i64, dy: y as i64, ..self }
    }

    fn translate(self, x: i64, y: i64) -> (r: Self) {
        Group { dx: x, dy: y, ..self }
    }
}

impl Transformable for PathNode {
    open spec fn spec_translated(self, x: int, y: int) -> PathNode {
        PathNode { dx: x as i64, dy: y as i64, ..self }
    }

    fn translate(self, x: i64, y: i64) -> (r: Self) {
        PathNode { dx: x, dy: y, ..self }
    }
}

impl Transformable for TextNode {
    open spec fn spec_translated(self, x: int, y: int) -> TextNode {
        TextNode { dx: x as i64, dy: y as i64, ..self }
    }

    fn translate(self, x: i64, y: i64) -> (r: Self) {
        TextNode { dx: x, dy: y, ..self }
    }
}

/// Something with a stroke or fill color.
pub trait Colored where Self: core::marker::Sized {
    /// The node as it is after coloring.
    spec fn spec_colored(self, color: Color) -> Self;

    /// Colors the node. Supports the builder pattern.
    fn with_color(self, color: Color) -> (r: Self)
        ensures
            r == self.spec_colored(color),
    ;
}

impl Colored for LineNode {
    open spec fn spec_colored(self, color: Color) -> LineNode {
        LineNode { color, ..self }
    }

    fn with_color(self, color: Color) -> (r: Self) {
        LineNode { color, ..self }
    }
}

impl Colored for TextNode {
    open spec fn spec_colored(self, color: Color) -> TextNode {
        TextNode { color, ..self }
    }

    fn with_color(self, color: Color) -> (r: Self) {
        TextNode { color, ..self }
    }
}

impl Colored for PathNode {
    open spec fn spec_colored(self, color: Color) -> PathNode {
        PathNode { color, ..self }
    }

    fn with_color(self, color: Color) -> (r: Self) {
        PathNode { color, ..self }
    }
}

/// Text that can be anchored.
pub trait Aligned where Self: core::marker::Sized {
    /// The node as it is after anchoring.
    spec fn spec_aligned(self, anchor: TextAnchor) -> Self;

    /// Anchors the node's text. Supports the builder pattern.
    fn align_to(self, anchor: TextAnchor) -> (r: Self)
        ensures
            r == self.spec_aligned(anchor),
    ;
}

impl Aligned for TextNode {
    open spec fn spec_aligned(self, anchor: TextAnchor) -> TextNode {
        TextNode { anchor, ..self }
    }

    fn align_to(self, anchor: TextAnchor) -> (r: Self) {
        TextNode { anchor, ..self }
    }
}

/// Something with a stroke width.
pub trait Thick where Self: core::marker::Sized {
    /// The node as it is after the width change.
    spec fn spec_with_size(self, size: int) -> Self;

    /// Sets the stroke width, in milli-pixels. Supports the builder
    /// pattern.
    fn with_size(self, size: i64) -> (r: Self)
        ensures
            r == self.spec_with_size(size as int),
    ;
}

impl Thick for LineNode {
    open spec fn spec_with_size(self, size: int) -> LineNode {
        LineNode { width: size as i64, ..self }
    }

    fn with_size(self, size: i64) -> (r: Self) {
        LineNode { width: size, ..self }
    }
}

/// Something whose stroke can be dashed.
pub trait Dashed where Self: core::marker::Sized {
    /// The node as it is after dashing.
    spec fn spec_dashed(self, on: int, off: int) -> Self;

    /// Dashes the stroke: `on` milli-pixels of dash, `off` of gap.
    /// Supports the builder pattern.
    fn dash(self, on: i64, off: i64) -> (r: Self)
        ensures
            r == self.spec_dashed(on as int, off as int),
    ;
}

impl Dashed for LineNode {
    open spec fn spec_dashed(self, on: int, off: int) -> LineNode {
        LineNode { dash: Some((on as i64, off as i64)), ..self }
    }

    fn dash(self, on: i64, off: i64) -> (r: Self) {
        LineNode { dash: Some((on, off)), ..self }
    }
}

/// Something whose stroke caps and joins can be rounded.
pub trait Rounded where Self: core::marker::Sized {
    /// The node as it is after rounding.
    spec fn spec_rounded(self) -> Self;

    /// Rounds the stroke's caps and joins. Supports the builder pattern.
    fn rounded(self) -> (r: Self)
        ensures
            r == self.spec_rounded(),
    ;
}

impl Rounded for LineNode {
    open spec fn spec_rounded(self) -> LineNode {
        LineNode { rounded: true, ..self }
    }

    fn rounded(self) -> (r: Self) {
        LineNode { rounded: true, ..self }
    }
}

impl Rounded for PathNode {
    open spec fn spec_rounded(self) -> PathNode {
        PathNode { rounded: true, ..self }
    }

    fn rounded(self) -> (r: Self) {
        PathNode { rounded: true, ..self }
    }
}

} // verus!
