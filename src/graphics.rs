//! Terminal graphics: what the service returns for the terminal to draw.
use vstd::prelude::*;

verus! {

/// Color, as red, green and blue components.
pub type Color = (u64, u64, u64);

/// (Update message's) request for graphics.
#[derive(Clone, Copy, Debug, PartialEq, Eq, Hash)]
pub enum Request {
    Nothing,
    All(Dim),
    Last(Dim),
}

/// Dimension.
#[derive(Clone, Copy, Debug, PartialEq, Eq, Hash, Structural)]
pub struct Dim {
    pub width: u64,
    pub height: u64,
}

/// Position.
#[derive(Clone, Copy, Debug, PartialEq, Eq, Hash, Structural)]
pub struct Pos {
    pub x: u64,
    pub y: u64,
}

/// Rectangle.
#[derive(Clone, Copy, Debug, PartialEq, Eq, Hash, Structural)]
pub struct Rect {
    pub pos: Pos,
    pub dim: Dim,
}

impl Rect {
    pub fn new(x: u64, y: u64, w: u64, h: u64) -> (r: Rect)
        ensures
            r == (Rect { pos: Pos { x, y }, dim: Dim { width: w, height: h } }),
    {
        Rect { pos: Pos { x, y }, dim: Dim { width: w, height: h } }
    }
}

/// A node of the scene graph: its rectangle (relative to its parent), fill and children.
#[derive(Debug, PartialEq, Eq, Hash)]
pub struct Node {
    pub rect: Rect,
    pub fill: Fill,
    pub elms: Elms,
}

/// Fill.
#[derive(Clone, Copy, Debug, PartialEq, Eq, Hash)]
pub enum Fill {
    /// Outline of the given color, with a border width.
    Open(Color, u64),
    Closed(Color),
    Empty,
}

/// Element.
#[derive(Debug, PartialEq, Eq, Hash)]
pub enum Elm {
    Rect(Rect, Fill),
    Node(Box<Node>),
}

/// Elements.
pub type Elms = Vec<Elm>;

/// Named elements.
pub type NamedElms = Vec<(String, Elm)>;

/// Output.
#[derive(Debug, PartialEq, Eq, Hash)]
pub enum Out {
    Draw(Elm),
    Redraw(NamedElms),
}

/// Result of a service call: graphics to draw, or an error with an optional message.
#[derive(Debug, PartialEq, Eq, Hash)]
pub enum Result {
    Drawn(Out),
    Failed(Option<String>),
}

} // verus!
