//! The per-shape transform: position, scale, rotation and an optional
//! attachment to another shape.
use vstd::prelude::*;

use crate::fixed::{clamp_i32, clamp_to_i32, floor_div, turned_x, turned_y, UNIT};

verus! {

/// A rotation held as its cosine and sine, each in units of `1 / UNIT`.
#[derive(Clone, Copy, Debug, PartialEq, Eq, Structural)]
pub struct Rotation {
    pub cos: i32,
    pub sin: i32,
}

impl Rotation {
    /// The rotation by zero radians.
    pub fn identity() -> (r: Rotation)
        ensures
            r.cos == UNIT,
            r.sin == 0,
    {
        Rotation { cos: UNIT, sin: 0 }
    }
}

/// An attachment to the shape with index `target`. `(offset_x, offset_y)` is
/// the offset from that shape recorded when the attachment was made, in its
/// unrotated, unscaled frame. Only the index is stored, never a reference.
#[derive(Clone, Copy, Debug, PartialEq, Eq, Structural)]
pub struct Attachment {
    pub target: usize,
    pub offset_x: i64,
    pub offset_y: i64,
}

/// Position, scale and rotation of one shape, and the shape it follows, if any.
#[derive(Clone, Copy, Debug, PartialEq, Eq, Structural)]
pub struct Node {
    pub x: i32,
    pub y: i32,
    /// Horizontal scale, in units of `1 / UNIT`.
    pub scale_x: i32,
    /// Vertical scale, in units of `1 / UNIT`.
    pub scale_y: i32,
    pub rotation: Rotation,
    pub following: Option<Attachment>,
}

/// The absolute position that an attachment with offset `(dx, dy)` gives
/// against `target`: the offset scaled by the target's scale, turned by its
/// rotation, added to its position, and saturated to the range of `i32`.
pub open spec fn attached_position(target: Node, dx: int, dy: int) -> (int, int) {
    (
        clamp_i32(target.x + turned_x(dx, dy, target.scale_x as int, target.scale_y as int,
            target.rotation.cos as int, target.rotation.sin as int)),
        clamp_i32(target.y + turned_y(dx, dy, target.scale_x as int, target.scale_y as int,
            target.rotation.cos as int, target.rotation.sin as int)),
    )
}

impl Node {
    /// The node after one `update_transform` against `target`: unchanged when
    /// not attached; otherwise placed at the attached position and given the
    /// target's rotation and scale.
    pub open spec fn updated(self, target: Node) -> Node {
        match self.following {
            Some(a) => Node {
                x: attached_position(target, a.offset_x as int, a.offset_y as int).0 as i32,
                y: attached_position(target, a.offset_x as int, a.offset_y as int).1 as i32,
                scale_x: target.scale_x,
                scale_y: target.scale_y,
                rotation: target.rotation,
                following: self.following,
            },
            None => self,
        }
    }

    /// The node after `start_following(target, target_index)`: the offset
    /// from the target is recorded, then one update is made against it.
    pub open spec fn attached(self, target: Node, target_index: usize) -> Node {
        Node {
            following: Some(
                Attachment {
                    target: target_index,
                    offset_x: (self.x - target.x) as i64,
                    offset_y: (self.y - target.y) as i64,
                },
            ),
            ..self
        }.updated(target)
    }

    /// A node at `(x, y)` with unit scale, no rotation and no attachment.
    pub open spec fn new_spec(x: i32, y: i32) -> Node {
        Node {
            x,
            y,
            scale_x: UNIT,
            scale_y: UNIT,
            rotation: Rotation { cos: UNIT, sin: 0 },
            following: None,
        }
    }

    /// A node at `(x, y)` with unit scale, no rotation and no attachment.
    pub fn new(x: i32, y: i32) -> (r: Node)
        ensures
            r == Node::new_spec(x, y),
    {
        Node {
            x,
            y,
            scale_x: UNIT,
            scale_y: UNIT,
            rotation: Rotation::identity(),
            following: None,
        }
    }

    /// Attaches this node to `other`, the node of the shape at `target_index`,
    /// keeping the current displacement from it, and updates once against it.
    pub fn start_following(&mut self, other: &Node, target_index: usize)
        ensures
            *final(self) == old(self).attached(*other, target_index),
            final(self).following == Some(
                Attachment {
                    target: target_index,
                    offset_x: (old(self).x - other.x) as i64,
                    offset_y: (old(self).y - other.y) as i64,
                },
            ),
    {
        let dx = self.x as i64 - other.x as i64;
        let dy = self.y as i64 - other.y as i64;
        self.following = Some(Attachment { target: target_index, offset_x: dx, offset_y: dy });
        self.update_transform(other);
    }

    /// Recomputes this node from `target` when attached: see `updated`.
    pub fn update_transform(&mut self, target: &Node)
        ensures
            *final(self) == old(self).updated(*target),
    {
        if let Some(a) = self.following {
            let dx = a.offset_x;
            let dy = a.offset_y;
            let sx = target.scale_x as i128;
            let sy = target.scale_y as i128;
            let c = target.rotation.cos as i128;
            let s = target.rotation.sin as i128;
            proof {
                lemma_product_bound(dx as int, sx as int, c as int);
                lemma_product_bound(dy as int, sy as int, s as int);
                lemma_product_bound(dx as int, sx as int, s as int);
                lemma_product_bound(dy as int, sy as int, c as int);
            }
            let ax = dx as i128 * sx * c;
            let bx = dy as i128 * sy * s;
            let ay = dx as i128 * sx * s;
            let by = dy as i128 * sy * c;
            let unit = UNIT as i128;
            let turn_x = floor_div(ax - bx, unit * unit);
            let turn_y = floor_div(ay + by, unit * unit);
            proof {
                lemma_turn_bound(ax - bx, unit * unit);
                lemma_turn_bound(ay + by, unit * unit);
            }
            self.x = clamp_to_i32(target.x as i128 + turn_x);
            self.y = clamp_to_i32(target.y as i128 + turn_y);
            self.rotation = target.rotation;
            self.scale_x = target.scale_x;
            self.scale_y = target.scale_y;
        }
    }

    /// Ends the attachment; position, scale and rotation stay as they are.
    pub fn unfollow(&mut self)
        ensures
            *final(self) == (Node { following: None, ..*old(self) }),
    {
        self.following = None;
    }
}

/// After `start_following`, a node records its displacement from the target
/// and sits at the target's position plus that offset scaled and turned by the
/// target's transform, with the target's rotation and scale; once the target
/// has changed in any way, another `update_transform` again places the node at
/// the same recorded offset against the changed target and gives it exactly
/// that target's rotation and scale.
pub proof fn lemma_attachment(a: Node, b: Node, target_index: usize, b2: Node)
    ensures
        ({
            let a1 = a.attached(b, target_index);
            let dx = a.x - b.x;
            let dy = a.y - b.y;
            let a2 = a1.updated(b2);
            &&& a1.following == Some(
                Attachment { target: target_index, offset_x: dx as i64, offset_y: dy as i64 },
            )
            &&& (a1.x as int, a1.y as int) == attached_position(b, dx, dy)
            &&& a1.rotation == b.rotation
            &&& a1.scale_x == b.scale_x
            &&& a1.scale_y == b.scale_y
            &&& (a2.x as int, a2.y as int) == attached_position(b2, dx, dy)
            &&& a2.rotation == b2.rotation
            &&& a2.scale_x == b2.scale_x
            &&& a2.scale_y == b2.scale_y
            &&& a2.following == a1.following
        }),
{
}

/// An `i64` times two `i32` values stays within `2^125` in magnitude, and
/// the first product within `2^94`.
proof fn lemma_product_bound(a: int, b: int, c: int)
    requires
        i64::MIN <= a <= i64::MAX,
        i32::MIN <= b <= i32::MAX,
        i32::MIN <= c <= i32::MAX,
    ensures
        -0x4000_0000_0000_0000_0000_0000 <= a * b <= 0x4000_0000_0000_0000_0000_0000,
        -0x2000_0000_0000_0000_0000_0000_0000_0000 <= a * b * c
            <= 0x2000_0000_0000_0000_0000_0000_0000_0000,
{
    let ab = a * b;
    assert(-0x4000_0000_0000_0000_0000_0000 <= ab <= 0x4000_0000_0000_0000_0000_0000) by (nonlinear_arith)
        requires
            -0x8000_0000_0000_0000 <= a <= 0x8000_0000_0000_0000,
            -0x8000_0000 <= b <= 0x8000_0000,
            ab == a * b;
    assert(-0x2000_0000_0000_0000_0000_0000_0000_0000 <= ab * c
        <= 0x2000_0000_0000_0000_0000_0000_0000_0000) by (nonlinear_arith)
        requires
            -0x4000_0000_0000_0000_0000_0000 <= ab <= 0x4000_0000_0000_0000_0000_0000,
            -0x8000_0000 <= c <= 0x8000_0000;
}

/// Dividing a value of magnitude at most `2^126` by `UNIT * UNIT` leaves one
/// of magnitude at most `2^94`.
proof fn lemma_turn_bound(v: int, d: int)
    requires
        -0x4000_0000_0000_0000_0000_0000_0000_0000 <= v <= 0x4000_0000_0000_0000_0000_0000_0000_0000,
        d == UNIT * UNIT,
    ensures
        -0x4000_0000_0000_0000_0000_0000 <= v / d <= 0x4000_0000_0000_0000_0000_0000,
{
    assert(d == 0x1_0000_0000);
    vstd::arithmetic::div_mod::lemma_div_is_ordered(v, 0x4000_0000_0000_0000_0000_0000_0000_0000, d);
    vstd::arithmetic::div_mod::lemma_div_is_ordered(-0x4000_0000_0000_0000_0000_0000_0000_0000, v, d);
    vstd::arithmetic::div_mod::lemma_div_by_multiple(0x4000_0000_0000_0000_0000_0000, d);
    vstd::arithmetic::div_mod::lemma_fundamental_div_mod_converse(
        -0x4000_0000_0000_0000_0000_0000_0000_0000, d, -0x4000_0000_0000_0000_0000_0000, 0);
}

} // verus!
