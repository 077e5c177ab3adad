//! Rectangles and circles: geometry, colour, containment and the fill command
//! each one emits.
use vstd::prelude::*;

use crate::node::Node;

verus! {

/// A colour with four 8-bit channels.
#[derive(Clone, Copy, Debug, PartialEq, Eq, Structural)]
pub struct Rgba {
    pub r: u8,
    pub g: u8,
    pub b: u8,
    pub a: u8,
}

/// One fill command for the renderer. Only the position of a shape's node is
/// applied; its rotation and scale are not.
#[derive(Clone, Copy, Debug, PartialEq, Eq, Structural)]
pub enum DrawCommand {
    FillRect { x: i32, y: i32, width: i32, height: i32, color: Rgba },
    FillCircle { cx: i32, cy: i32, radius: i32, color: Rgba },
}

/// An axis-aligned rectangle whose top-left corner is the node's position.
#[derive(Clone, Copy, Debug, PartialEq, Eq, Structural)]
pub struct IrRectangle {
    pub node: Node,
    pub width: i32,
    pub height: i32,
    pub color: Rgba,
}

/// A circle centred on the node's position.
#[derive(Clone, Copy, Debug, PartialEq, Eq, Structural)]
pub struct IrCircle {
    pub node: Node,
    pub radius: i32,
    pub color: Rgba,
}

/// Either kind of shape.
#[derive(Clone, Copy, Debug, PartialEq, Eq, Structural)]
pub enum Shape {
    Rectangle(IrRectangle),
    Circle(IrCircle),
}

impl IrRectangle {
    /// Whether `(px, py)` lies in `[x, x + width] × [y, y + height]`, edges
    /// included; rotation and scale are not applied.
    pub open spec fn contains_spec(self, px: int, py: int) -> bool {
        &&& self.node.x <= px <= self.node.x + self.width
        &&& self.node.y <= py <= self.node.y + self.height
    }

    /// The fill command for this rectangle at its node's position.
    pub open spec fn draw_spec(self) -> DrawCommand {
        DrawCommand::FillRect {
            x: self.node.x,
            y: self.node.y,
            width: self.width,
            height: self.height,
            color: self.color,
        }
    }

    pub fn new(x: i32, y: i32, width: i32, height: i32, color: Rgba) -> (r: IrRectangle)
        ensures
            r.node == Node::new_spec(x, y),
            r.width == width,
            r.height == height,
            r.color == color,
    {
        IrRectangle { node: Node::new(x, y), width, height, color }
    }

    pub fn contains(&self, px: i32, py: i32) -> (r: bool)
        ensures
            r == self.contains_spec(px as int, py as int),
    {
        let x = self.node.x as i64;
        let y = self.node.y as i64;
        let px = px as i64;
        let py = py as i64;
        px >= x && px <= x + self.width as i64 && py >= y && py <= y + self.height as i64
    }

    pub fn draw(&self) -> (r: DrawCommand)
        ensures
            r == self.draw_spec(),
    {
        DrawCommand::FillRect {
            x: self.node.x,
            y: self.node.y,
            width: self.width,
            height: self.height,
            color: self.color,
        }
    }

    pub fn node(&self) -> (r: &Node)
        ensures
            *r == self.node,
    {
        &self.node
    }
}

impl IrCircle {
    /// Whether the distance from the centre to `(px, py)` is at most the
    /// radius, the boundary included. A negative radius contains nothing.
    pub open spec fn contains_spec(self, px: int, py: int) -> bool {
        let dx = self.node.x - px;
        let dy = self.node.y - py;
        &&& self.radius >= 0
        &&& dx * dx + dy * dy <= self.radius * self.radius
    }

    /// The fill command for this circle at its node's position.
    pub open spec fn draw_spec(self) -> DrawCommand {
        DrawCommand::FillCircle {
            cx: self.node.x,
            cy: self.node.y,
            radius: self.radius,
            color: self.color,
        }
    }

    pub fn new(x: i32, y: i32, radius: i32, color: Rgba) -> (r: IrCircle)
        ensures
            r.node == Node::new_spec(x, y),
            r.radius == radius,
            r.color == color,
    {
        IrCircle { node: Node::new(x, y), radius, color }
    }

    pub fn contains(&self, px: i32, py: i32) -> (r: bool)
        ensures
            r == self.contains_spec(px as int, py as int),
    {
        let dx = self.node.x as i128 - px as i128;
        let dy = self.node.y as i128 - py as i128;
        let r = self.radius as i128;
        proof {
            assert(0 <= dx * dx <= 0x1_0000_0000_0000_0000) by (nonlinear_arith)
                requires -0x1_0000_0000 <= dx <= 0x1_0000_0000;
            assert(0 <= dy * dy <= 0x1_0000_0000_0000_0000) by (nonlinear_arith)
                requires -0x1_0000_0000 <= dy <= 0x1_0000_0000;
            assert(0 <= r * r <= 0x1_0000_0000_0000_0000) by (nonlinear_arith)
                requires -0x1_0000_0000 <= r <= 0x1_0000_0000;
        }
        r >= 0 && dx * dx + dy * dy <= r * r
    }

    pub fn draw(&self) -> (r: DrawCommand)
        ensures
            r == self.draw_spec(),
    {
        DrawCommand::FillCircle {
            cx: self.node.x,
            cy: self.node.y,
            radius: self.radius,
            color: self.color,
        }
    }

    pub fn node(&self) -> (r: &Node)
        ensures
            *r == self.node,
    {
        &self.node
    }
}

impl Shape {
    /// The node of either kind of shape.
    pub open spec fn node_spec(self) -> Node {
        match self {
            Shape::Rectangle(s) => s.node,
            Shape::Circle(s) => s.node,
        }
    }

    /// This shape with its node replaced by `n`.
    pub open spec fn with_node(self, n: Node) -> Shape {
        match self {
            Shape::Rectangle(s) => Shape::Rectangle(IrRectangle { node: n, ..s }),
            Shape::Circle(s) => Shape::Circle(IrCircle { node: n, ..s }),
        }
    }

    /// Containment by the rule of the shape's kind.
    pub open spec fn contains_spec(self, px: int, py: int) -> bool {
        match self {
            Shape::Rectangle(s) => s.contains_spec(px, py),
            Shape::Circle(s) => s.contains_spec(px, py),
        }
    }

    /// The fill command of the shape's kind.
    pub open spec fn draw_spec(self) -> DrawCommand {
        match self {
            Shape::Rectangle(s) => s.draw_spec(),
            Shape::Circle(s) => s.draw_spec(),
        }
    }

    pub fn contains(&self, px: i32, py: i32) -> (r: bool)
        ensures
            r == self.contains_spec(px as int, py as int),
    {
        match self {
            Shape::Rectangle(s) => s.contains(px, py),
            Shape::Circle(s) => s.contains(px, py),
        }
    }

    pub fn draw(&self) -> (r: DrawCommand)
        ensures
            r == self.draw_spec(),
    {
        match self {
            Shape::Rectangle(s) => s.draw(),
            Shape::Circle(s) => s.draw(),
        }
    }

    pub fn node(&self) -> (r: &Node)
        ensures
            *r == self.node_spec(),
    {
        match self {
            Shape::Rectangle(s) => &s.node,
            Shape::Circle(s) => &s.node,
        }
    }

    /// This shape with its node replaced by `n`; geometry and colour are kept.
    pub fn set_node(&mut self, n: Node)
        ensures
            *final(self) == old(self).with_node(n),
    {
        match self {
            Shape::Rectangle(s) => s.node = n,
            Shape::Circle(s) => s.node = n,
        }
    }
}

} // verus!
