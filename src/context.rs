//! The scene registry: an ordered collection of shapes addressed by stable
//! index, with hit-testing, the drag session and attachment wiring.
use vstd::prelude::*;

use crate::fixed::{clamp_i32, clamp_to_i32};
use crate::handle::{SceneError, ShapeHandle};
use crate::node::Node;

use crate::shape::{DrawCommand, IrCircle, IrRectangle, Rgba, Shape};

verus! {

/// The shapes of a scene in insertion order (which is also draw order and
/// hit-test priority), the shape being dragged, if any, and the pointer
/// position the drag last moved from.
pub struct VelloContext {
    shapes: Vec<Shape>,
    selected_shape: Option<usize>,
    drag_start_x: i32,
    drag_start_y: i32,
    epoch: u64,
}

impl View for VelloContext {
    type V = Seq<Shape>;

    closed spec fn view(&self) -> Seq<Shape> {
        self.shapes@
    }
}

/// Whether `id` is the first index of `shapes` whose shape contains `(px, py)`.
pub open spec fn is_first_hit(shapes: Seq<Shape>, px: int, py: int, id: int) -> bool {
    &&& 0 <= id < shapes.len()
    &&& shapes[id].contains_spec(px, py)
    &&& forall|j: int| 0 <= j < id ==> !(#[trigger] shapes[j].contains_spec(px, py))
}

/// Whether no shape of `shapes` contains `(px, py)`.
pub open spec fn no_hit(shapes: Seq<Shape>, px: int, py: int) -> bool {
    forall|j: int| 0 <= j < shapes.len() ==> !(#[trigger] shapes[j].contains_spec(px, py))
}

/// `n` moved by `(dx, dy)`, saturating at the range of `i32`.
pub open spec fn translated(n: Node, dx: int, dy: int) -> Node {
    Node { x: clamp_i32(n.x + dx) as i32, y: clamp_i32(n.y + dy) as i32, ..n }
}

impl VelloContext {
    /// The shape being dragged, if any.
    pub closed spec fn selected(self) -> Option<usize> {
        self.selected_shape
    }

    /// The pointer position the current drag last moved from.
    pub closed spec fn anchor(self) -> (int, int) {
        (self.drag_start_x as int, self.drag_start_y as int)
    }

    /// The epoch that this registry stamps on the handles it issues.
    pub closed spec fn epoch_spec(self) -> u64 {
        self.epoch
    }

    /// A selected shape always exists.
    pub open spec fn wf(self) -> bool {
        self.selected() matches Some(i) ==> i < self@.len()
    }

    /// `next` is `self` with the shapes replaced by `shapes`.
    pub open spec fn same_but_shapes(self, next: Self, shapes: Seq<Shape>) -> bool {
        &&& next@ == shapes
        &&& next.selected() == self.selected()
        &&& next.anchor() == self.anchor()
        &&& next.epoch_spec() == self.epoch_spec()
    }

    /// What `add_rectangle` or `add_circle` does: `s` is appended and the
    /// returned handle names its index.
    pub open spec fn add_spec(self, s: Shape, next: Self, h: ShapeHandle) -> bool {
        &&& self.same_but_shapes(next, self@.push(s))
        &&& h.id_spec() == self@.len()
        &&& h.epoch_spec() == self.epoch_spec()
    }

    /// What `handle_mouse_down(x, y)` does: the first shape containing the
    /// point becomes selected and the point becomes the anchor; when no shape
    /// contains it, nothing is selected and the anchor stays.
    pub open spec fn mouse_down_spec(self, x: int, y: int, next: Self) -> bool {
        &&& next@ == self@
        &&& next.epoch_spec() == self.epoch_spec()
        &&& match next.selected() {
            Some(i) => is_first_hit(self@, x, y, i as int) && next.anchor() == (x, y),
            None => no_hit(self@, x, y) && next.anchor() == self.anchor(),
        }
    }

    /// What `handle_mouse_move(x, y)` does: the selected shape moves by the
    /// pointer's displacement from the anchor, and the anchor follows the
    /// pointer; with nothing selected, nothing changes.
    pub open spec fn mouse_move_spec(self, x: int, y: int, next: Self) -> bool {
        match self.selected() {
            Some(i) => {
                &&& next@ == self@.update(
                    i as int,
                    self@[i as int].with_node(
                        translated(self@[i as int].node_spec(), x - self.anchor().0, y - self.anchor().1),
                    ),
                )
                &&& next.selected() == self.selected()
                &&& next.anchor() == (x, y)
                &&& next.epoch_spec() == self.epoch_spec()
            },
            None => next == self,
        }
    }

    /// What `handle_mouse_up` does: the drag session ends.
    pub open spec fn mouse_up_spec(self, next: Self) -> bool {
        &&& next@ == self@
        &&& next.selected() is None
        &&& next.anchor() == self.anchor()
        &&& next.epoch_spec() == self.epoch_spec()
    }

    /// What `attach(follower, target)` does when both ids exist.
    pub open spec fn attach_spec(self, follower: int, target: int, next: Self) -> bool {
        self.same_but_shapes(
            next,
            self@.update(
                follower,
                self@[follower].with_node(
                    self@[follower].node_spec().attached(self@[target].node_spec(), target as usize),
                ),
            ),
        )
    }

    /// What `detach(follower)` does when the id exists.
    pub open spec fn detach_spec(self, follower: int, next: Self) -> bool {
        self.same_but_shapes(
            next,
            self@.update(
                follower,
                self@[follower].with_node(Node { following: None, ..self@[follower].node_spec() }),
            ),
        )
    }

    /// What `update_follower(follower)` does when the id exists: the follower
    /// is recomputed against its target; nothing changes when it follows
    /// nothing or its target does not exist.
    pub open spec fn update_follower_spec(self, follower: int, next: Self) -> bool {
        let n = self@[follower].node_spec();
        match n.following {
            Some(a) => if a.target < self@.len() {
                self.same_but_shapes(
                    next,
                    self@.update(follower, self@[follower].with_node(n.updated(self@[a.target as int].node_spec()))),
                )
            } else {
                next == self
            },
            None => next == self,
        }
    }

    /// An empty registry, with nothing selected, that no `ContextSlot` holds.
    pub fn new() -> (r: VelloContext)
        ensures
            r.wf(),
            r@ == Seq::<Shape>::empty(),
            r.selected() is None,
            r.anchor() == (0int, 0int),
            r.epoch_spec() == 0,
    {
        VelloContext::with_epoch(0)
    }

    pub(crate) fn with_epoch(epoch: u64) -> (r: VelloContext)
        ensures
            r.wf(),
            r@ == Seq::<Shape>::empty(),
            r.selected() is None,
            r.anchor() == (0int, 0int),
            r.epoch_spec() == epoch,
    {
        VelloContext {
            shapes: Vec::new(),
            selected_shape: None,
            drag_start_x: 0,
            drag_start_y: 0,
            epoch,
        }
    }

    /// The number of shapes.
    pub fn len(&self) -> (r: usize)
        ensures
            r == self@.len(),
    {
        self.shapes.len()
    }

    /// The shape with index `id`, if there is one.
    pub fn shape(&self, id: usize) -> (r: Option<Shape>)
        ensures
            r == (if id < self@.len() { Some(self@[id as int]) } else { None::<Shape> }),
    {
        if id < self.shapes.len() {
            Some(self.shapes[id])
        } else {
            None
        }
    }

    /// The shape being dragged, if any.
    pub fn selected_shape(&self) -> (r: Option<usize>)
        ensures
            r == self.selected(),
    {
        self.selected_shape
    }

    /// The epoch stamped on the handles this registry issues.
    pub fn epoch(&self) -> (r: u64)
        ensures
            r == self.epoch_spec(),
    {
        self.epoch
    }

    fn push_shape(&mut self, s: Shape) -> (r: ShapeHandle)
        requires
            old(self).wf(),
        ensures
            final(self).wf(),
            old(self).add_spec(s, *final(self), r),
    {
        let id = self.shapes.len();
        self.shapes.push(s);
        ShapeHandle::issue(id, self.epoch)
    }

    /// Appends a rectangle with top-left corner `(x, y)` and returns a handle
    /// to it; its id is the number of shapes added before it.
    pub fn add_rectangle(
        &mut self,
        x: i32,
        y: i32,
        width: i32,
        height: i32,
        r: u8,
        g: u8,
        b: u8,
        a: u8,
    ) -> (h: ShapeHandle)
        requires
            old(self).wf(),
        ensures
            final(self).wf(),
            old(self).add_spec(
                Shape::Rectangle(
                    IrRectangle {
                        node: Node::new_spec(x, y),
                        width,
                        height,
                        color: Rgba { r, g, b, a },
                    },
                ),
                *final(self),
                h,
            ),
    {
        let rect = IrRectangle::new(x, y, width, height, Rgba { r, g, b, a });
        self.push_shape(Shape::Rectangle(rect))
    }

    /// Appends a circle centred on `(x, y)` and returns a handle to it; its
    /// id is the number of shapes added before it.
    pub fn add_circle(&mut self, x: i32, y: i32, radius: i32, r: u8, g: u8, b: u8, a: u8) -> (h:
        ShapeHandle)
        requires
            old(self).wf(),
        ensures
            final(self).wf(),
            old(self).add_spec(
                Shape::Circle(IrCircle { node: Node::new_spec(x, y), radius, color: Rgba { r, g, b, a } }),
                *final(self),
                h,
            ),
    {
        let circle = IrCircle::new(x, y, radius, Rgba { r, g, b, a });
        self.push_shape(Shape::Circle(circle))
    }

    /// The first shape, in insertion order, that contains `(px, py)`.
    pub fn hit_test(&self, px: i32, py: i32) -> (r: Option<usize>)
        ensures
            match r {
                Some(i) => is_first_hit(self@, px as int, py as int, i as int),
                None => no_hit(self@, px as int, py as int),
            },
    {
        let mut i: usize = 0;
        while i < self.shapes.len()
            invariant
                0 <= i <= self@.len(),
                self@ == self.shapes@,
                forall|j: int| 0 <= j < i ==> !(#[trigger] self@[j].contains_spec(px as int, py as int)),
            decreases self@.len() - i,
        {
            if self.shapes[i].contains(px, py) {
                return Some(i);
            }
            i += 1;
        }
        None
    }

    /// Starts a drag on the first shape containing `(x, y)`, if any.
    pub fn handle_mouse_down(&mut self, x: i32, y: i32)
        requires
            old(self).wf(),
        ensures
            final(self).wf(),
            old(self).mouse_down_spec(x as int, y as int, *final(self)),
    {
        self.selected_shape = self.hit_test(x, y);
        if self.selected_shape.is_some() {
            self.drag_start_x = x;
            self.drag_start_y = y;
        }
    }

    /// Moves the selected shape, if any, by the pointer's displacement since
    /// the last drag position.
    pub fn handle_mouse_move(&mut self, x: i32, y: i32)
        requires
            old(self).wf(),
        ensures
            final(self).wf(),
            old(self).mouse_move_spec(x as int, y as int, *final(self)),
    {
        if let Some(idx) = self.selected_shape {
            let dx = x as i64 - self.drag_start_x as i64;
            let dy = y as i64 - self.drag_start_y as i64;
            let mut s = self.shapes[idx];
            let mut n = *s.node();
            n.x = clamp_to_i32(n.x as i128 + dx as i128);
            n.y = clamp_to_i32(n.y as i128 + dy as i128);
            s.set_node(n);
            self.shapes.set(idx, s);
            self.drag_start_x = x;
            self.drag_start_y = y;
        }
    }

    /// Ends the drag session.
    pub fn handle_mouse_up(&mut self)
        requires
            old(self).wf(),
        ensures
            final(self).wf(),
            old(self).mouse_up_spec(*final(self)),
    {
        self.selected_shape = None;
    }

    /// Attaches shape `follower` to shape `target` (see `Node::start_following`).
    pub fn attach(&mut self, follower: usize, target: usize) -> (r: Result<(), SceneError>)
        requires
            old(self).wf(),
        ensures
            final(self).wf(),
            follower < old(self)@.len() && target < old(self)@.len() ==> r is Ok
                && old(self).attach_spec(follower as int, target as int, *final(self)),
            !(follower < old(self)@.len() && target < old(self)@.len()) ==> r == Err::<(), SceneError>(
                SceneError::ShapeNotFound,
            ) && *final(self) == *old(self),
    {
        if follower >= self.shapes.len() || target >= self.shapes.len() {
            return Err(SceneError::ShapeNotFound);
        }
        let target_node = *self.shapes[target].node();
        let mut s = self.shapes[follower];
        let mut n = *s.node();
        n.start_following(&target_node, target);
        s.set_node(n);
        self.shapes.set(follower, s);
        Ok(())
    }

    /// Ends the attachment of shape `follower`, leaving it where it is.
    pub fn detach(&mut self, follower: usize) -> (r: Result<(), SceneError>)
        requires
            old(self).wf(),
        ensures
            final(self).wf(),
            follower < old(self)@.len() ==> r is Ok && old(self).detach_spec(follower as int, *final(self)),
            follower >= old(self)@.len() ==> r == Err::<(), SceneError>(SceneError::ShapeNotFound)
                && *final(self) == *old(self),
    {
        if follower >= self.shapes.len() {
            return Err(SceneError::ShapeNotFound);
        }
        let mut s = self.shapes[follower];
        let mut n = *s.node();
        n.unfollow();
        s.set_node(n);
        self.shapes.set(follower, s);
        Ok(())
    }

    /// Recomputes shape `follower` against the current state of the shape it
    /// follows. Attachments are a snapshot taken by `attach`; this call is how
    /// a caller that wants live tracking brings a follower up to date.
    pub fn update_follower(&mut self, follower: usize) -> (r: Result<(), SceneError>)
        requires
            old(self).wf(),
        ensures
            final(self).wf(),
            follower < old(self)@.len() ==> r is Ok && old(self).update_follower_spec(
                follower as int,
                *final(self),
            ),
            follower >= old(self)@.len() ==> r == Err::<(), SceneError>(SceneError::ShapeNotFound)
                && *final(self) == *old(self),
    {
        if follower >= self.shapes.len() {
            return Err(SceneError::ShapeNotFound);
        }
        let mut s = self.shapes[follower];
        let mut n = *s.node();
        if let Some(a) = n.following {
            if a.target < self.shapes.len() {
                let target_node = *self.shapes[a.target].node();
                n.update_transform(&target_node);
                s.set_node(n);
                self.shapes.set(follower, s);
            }
        }
        Ok(())
    }

    /// One fill command per shape, in insertion order.
    pub fn draw_commands(&self) -> (r: Vec<DrawCommand>)
        ensures
            r@.len() == self@.len(),
            forall|i: int| 0 <= i < r@.len() ==> r@[i] == #[trigger] self@[i].draw_spec(),
    {
        let mut out: Vec<DrawCommand> = Vec::new();
        let mut i: usize = 0;
        while i < self.shapes.len()
            invariant
                0 <= i <= self@.len(),
                self@ == self.shapes@,
                out@.len() == i,
                forall|j: int| 0 <= j < i ==> out@[j] == #[trigger] self@[j].draw_spec(),
            decreases self@.len() - i,
        {
            out.push(self.shapes[i].draw());
            i += 1;
        }
        out
    }
}

/// Whether `cs[k + 1]` and `hs[k]` are what adding `shapes[k]` to `cs[k]`
/// gives, for each `k`.
pub open spec fn added_in_turn(shapes: Seq<Shape>, cs: Seq<VelloContext>, hs: Seq<ShapeHandle>) -> bool {
    &&& cs.len() == shapes.len() + 1
    &&& hs.len() == shapes.len()
    &&& forall|k: int| 0 <= k < shapes.len() ==> #[trigger] cs[k].add_spec(shapes[k], cs[k + 1], hs[k])
}

/// Over any run of additions, the handle of the `k`-th added shape carries the
/// id `n + k`, where `n` is the number of shapes there were before the run:
/// ids equal the insertion index and strictly increase.
pub proof fn lemma_ids_follow_insertion(shapes: Seq<Shape>, cs: Seq<VelloContext>, hs: Seq<ShapeHandle>)
    requires
        added_in_turn(shapes, cs, hs),
    ensures
        forall|k: int| 0 <= k < hs.len() ==> #[trigger] hs[k].id_spec() == cs[0]@.len() + k,
        forall|i: int, j: int| 0 <= i < j < hs.len() ==> hs[i].id_spec() < hs[j].id_spec(),
        cs[shapes.len() as int]@ == cs[0]@ + shapes,
{
    lemma_added_lengths(shapes, cs, hs, shapes.len() as int);
    assert forall|k: int| 0 <= k < hs.len() implies #[trigger] hs[k].id_spec() == cs[0]@.len() + k by {
        lemma_added_lengths(shapes, cs, hs, k);
        assert(cs[k].add_spec(shapes[k], cs[k + 1], hs[k]));
    }
    assert forall|i: int, j: int| 0 <= i < j < hs.len() implies hs[i].id_spec() < hs[j].id_spec() by {
        assert(hs[i].id_spec() == cs[0]@.len() + i);
        assert(hs[j].id_spec() == cs[0]@.len() + j);
    }
}

proof fn lemma_added_lengths(shapes: Seq<Shape>, cs: Seq<VelloContext>, hs: Seq<ShapeHandle>, k: int)
    requires
        added_in_turn(shapes, cs, hs),
        0 <= k <= shapes.len(),
    ensures
        cs[k]@ == cs[0]@ + shapes.subrange(0, k),
    decreases k,
{
    if k == 0 {
        assert(cs[0]@ + shapes.subrange(0, 0) =~= cs[0]@);
    } else {
        lemma_added_lengths(shapes, cs, hs, k - 1);
        assert(cs[k - 1].add_spec(shapes[k - 1], cs[k], hs[k - 1]));
        assert(cs[0]@ + shapes.subrange(0, k) =~= (cs[0]@ + shapes.subrange(0, k - 1)).push(shapes[k - 1]));
    }
}

/// A drag moves the shape that `handle_mouse_down` picked by the pointer's
/// displacement, exactly where the result stays in the range of `i32` (and
/// saturated at its ends otherwise); after `handle_mouse_up` a further
/// `handle_mouse_move` changes nothing.
pub proof fn lemma_drag(
    c0: VelloContext,
    x0: i32,
    y0: i32,
    c1: VelloContext,
    x1: i32,
    y1: i32,
    c2: VelloContext,
    c3: VelloContext,
    x2: i32,
    y2: i32,
    c4: VelloContext,
)
    requires
        c0.wf(),
        c0.mouse_down_spec(x0 as int, y0 as int, c1),
        c1.selected() is Some,
        c1.mouse_move_spec(x1 as int, y1 as int, c2),
        c2.mouse_up_spec(c3),
        c3.mouse_move_spec(x2 as int, y2 as int, c4),
    ensures
        ({
            let s = c1.selected().unwrap() as int;
            let before = c0@[s].node_spec();
            let after = c2@[s].node_spec();
            &&& after.x == clamp_i32(before.x + (x1 - x0))
            &&& after.y == clamp_i32(before.y + (y1 - y0))
            &&& i32::MIN <= before.x + (x1 - x0) <= i32::MAX ==> after.x == before.x + (x1 - x0)
            &&& i32::MIN <= before.y + (y1 - y0) <= i32::MAX ==> after.y == before.y + (y1 - y0)
            &&& c2@.len() == c0@.len()
            &&& forall|j: int| 0 <= j < c0@.len() && j != s ==> c2@[j] == c0@[j]
        }),
        c4 == c3,
{
    let s = c1.selected().unwrap() as int;
    assert(c1@[s].with_node(translated(c1@[s].node_spec(), x1 - x0, y1 - y0)).node_spec()
        == translated(c1@[s].node_spec(), x1 - x0, y1 - y0));
}

/// Once detached, a shape stays where it is while another shape is dragged,
/// and bringing it up to date afterwards changes nothing.
pub proof fn lemma_detached_stays(
    c0: VelloContext,
    a: usize,
    c1: VelloContext,
    x: i32,
    y: i32,
    c2: VelloContext,
    c3: VelloContext,
)
    requires
        c0.wf(),
        a < c0@.len(),
        c0.detach_spec(a as int, c1),
        c1.selected() != Some(a),
        c1.mouse_move_spec(x as int, y as int, c2),
        c2.update_follower_spec(a as int, c3),
    ensures
        c1@[a as int].node_spec().x == c0@[a as int].node_spec().x,
        c1@[a as int].node_spec().y == c0@[a as int].node_spec().y,
        c1@[a as int].node_spec().following is None,
        c2@[a as int] == c1@[a as int],
        c3 == c2,
{
    let n = c0@[a as int].node_spec();
    assert(c0@[a as int].with_node(Node { following: None, ..n }).node_spec() == Node { following: None, ..n });
}

} // verus!
