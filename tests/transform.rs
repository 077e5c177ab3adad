use vello_shapes::add;
use vello_shapes::fixed::{clamp_to_i32, floor_div, UNIT};
use vello_shapes::node::{Node, Rotation};

#[test]
fn new_node_has_identity_transform() {
    let n = Node::new(3, -4);
    assert_eq!((n.x, n.y), (3, -4));
    assert_eq!((n.scale_x, n.scale_y), (UNIT, UNIT));
    assert_eq!(n.rotation, Rotation::identity());
    assert_eq!(n.rotation, Rotation { cos: UNIT, sin: 0 });
    assert!(n.following.is_none());
}

#[test]
fn following_applies_target_rotation_and_scale() {
    let b = Node::new(100, 100);
    let mut a = Node::new(110, 100);
    a.start_following(&b, 7);
    assert_eq!((a.x, a.y), (110, 100));
    let att = a.following.unwrap();
    assert_eq!((att.target, att.offset_x, att.offset_y), (7, 10, 0));

    // A quarter turn and a scale of two.
    let mut b2 = b;
    b2.rotation = Rotation { cos: 0, sin: UNIT };
    b2.scale_x = 2 * UNIT;
    b2.scale_y = 2 * UNIT;
    a.update_transform(&b2);
    assert_eq!((a.x, a.y), (100, 120));
    assert_eq!(a.rotation, b2.rotation);
    assert_eq!((a.scale_x, a.scale_y), (2 * UNIT, 2 * UNIT));
}

#[test]
fn following_uses_both_offset_components() {
    let b = Node::new(0, 0);
    let mut a = Node::new(3, 4);
    a.start_following(&b, 0);
    // A half turn.
    let mut b2 = b;
    b2.rotation = Rotation { cos: -UNIT, sin: 0 };
    b2.x = 10;
    a.update_transform(&b2);
    assert_eq!((a.x, a.y), (7, -4));
    // Scale x by three and y by a half, no rotation.
    let mut b3 = Node::new(0, 0);
    b3.scale_x = 3 * UNIT;
    b3.scale_y = UNIT / 2;
    a.update_transform(&b3);
    assert_eq!((a.x, a.y), (9, 2));
}

#[test]
fn turned_offsets_round_down() {
    let mut b = Node::new(0, 0);
    let mut a = Node::new(1, -1);
    a.start_following(&b, 0);
    b.scale_x = UNIT / 2;
    b.scale_y = UNIT / 2;
    a.update_transform(&b);
    assert_eq!((a.x, a.y), (0, -1));
}

#[test]
fn unattached_node_ignores_update() {
    let mut a = Node::new(5, 6);
    let mut b = Node::new(50, 60);
    b.rotation = Rotation { cos: 0, sin: UNIT };
    a.update_transform(&b);
    assert_eq!(a, Node::new(5, 6));
}

#[test]
fn unfollow_keeps_last_transform() {
    let mut b = Node::new(0, 0);
    b.scale_x = 2 * UNIT;
    let mut a = Node::new(1, 1);
    a.start_following(&b, 0);
    assert_eq!((a.x, a.y), (2, 1));
    a.unfollow();
    assert!(a.following.is_none());
    assert_eq!((a.x, a.y, a.scale_x), (2, 1, 2 * UNIT));
    b.x = 100;
    a.update_transform(&b);
    assert_eq!((a.x, a.y), (2, 1));
}

#[test]
fn following_saturates_far_positions() {
    let b = Node::new(i32::MIN, 0);
    let mut a = Node::new(i32::MAX, 0);
    a.start_following(&b, 0);
    assert_eq!(a.x, i32::MAX);
    let mut b2 = b;
    b2.x = 0;
    b2.scale_x = 4 * UNIT;
    a.update_transform(&b2);
    assert_eq!(a.x, i32::MAX);
    b2.scale_x = -4 * UNIT;
    a.update_transform(&b2);
    assert_eq!(a.x, i32::MIN);
}

#[test]
fn floor_div_rounds_toward_negative_infinity() {
    assert_eq!(floor_div(7, 2), 3);
    assert_eq!(floor_div(-7, 2), -4);
    assert_eq!(floor_div(-8, 2), -4);
    assert_eq!(floor_div(0, 5), 0);
    assert_eq!(floor_div(-1, 1 << 32), -1);
}

#[test]
fn clamp_to_i32_saturates() {
    assert_eq!(clamp_to_i32(5), 5);
    assert_eq!(clamp_to_i32(i32::MAX as i128 + 1), i32::MAX);
    assert_eq!(clamp_to_i32(i32::MIN as i128 - 1), i32::MIN);
    assert_eq!(clamp_to_i32(-7), -7);
}

#[test]
fn add_sums() {
    assert_eq!(add(2, 3), 5);
    assert_eq!(add(u32::MAX - 1, 1), u32::MAX);
}
