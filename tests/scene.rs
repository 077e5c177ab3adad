use vello_shapes::context::VelloContext;
use vello_shapes::handle::SceneError;
use vello_shapes::shape::{DrawCommand, IrCircle, IrRectangle, Rgba, Shape};

fn red() -> Rgba {
    Rgba { r: 255, g: 0, b: 0, a: 255 }
}

fn position(c: &VelloContext, id: usize) -> (i32, i32) {
    let s = c.shape(id).unwrap();
    (s.node().x, s.node().y)
}

#[test]
fn ids_follow_insertion_order() {
    let mut c = VelloContext::new();
    let a = c.add_rectangle(0, 0, 5, 5, 1, 2, 3, 4);
    let b = c.add_circle(0, 0, 5, 1, 2, 3, 4);
    let d = c.add_rectangle(7, 7, 1, 1, 1, 2, 3, 4);
    assert_eq!(a.id(), 0);
    assert_eq!(b.id(), 1);
    assert_eq!(d.id(), 2);
    assert_eq!(c.len(), 3);
    assert_eq!(a.epoch(), c.epoch());
}

#[test]
fn added_shapes_keep_their_parameters() {
    let mut c = VelloContext::new();
    c.add_rectangle(1, 2, 3, 4, 10, 20, 30, 40);
    c.add_circle(-5, 6, 7, 50, 60, 70, 80);
    match c.shape(0).unwrap() {
        Shape::Rectangle(r) => {
            assert_eq!((r.node.x, r.node.y, r.width, r.height), (1, 2, 3, 4));
            assert_eq!(r.color, Rgba { r: 10, g: 20, b: 30, a: 40 });
        }
        Shape::Circle(_) => panic!("expected a rectangle"),
    }
    match c.shape(1).unwrap() {
        Shape::Circle(ci) => {
            assert_eq!((ci.node.x, ci.node.y, ci.radius), (-5, 6, 7));
            assert_eq!(ci.color, Rgba { r: 50, g: 60, b: 70, a: 80 });
        }
        Shape::Rectangle(_) => panic!("expected a circle"),
    }
    assert!(c.shape(2).is_none());
}

#[test]
fn rectangle_containment_includes_edges() {
    let r = IrRectangle::new(10, 10, 20, 20, red());
    assert!(r.contains(15, 15));
    assert!(!r.contains(35, 35));
    assert!(r.contains(30, 30));
    assert!(r.contains(10, 10));
    assert!(!r.contains(9, 15));
    assert!(!r.contains(15, 31));
}

#[test]
fn circle_containment_includes_boundary() {
    let c = IrCircle::new(0, 0, 5, red());
    assert!(c.contains(3, 4));
    assert!(!c.contains(4, 4));
    assert!(c.contains(0, 0));
    assert!(c.contains(-5, 0));
    let negative = IrCircle::new(0, 0, -1, red());
    assert!(!negative.contains(0, 0));
}

#[test]
fn containment_at_coordinate_extremes() {
    let r = IrRectangle::new(i32::MAX, i32::MAX, i32::MAX, i32::MAX, red());
    assert!(r.contains(i32::MAX, i32::MAX));
    let c = IrCircle::new(i32::MIN, i32::MIN, i32::MAX, red());
    assert!(!c.contains(i32::MAX, i32::MAX));
    assert!(c.contains(i32::MIN, -1));
    assert!(!c.contains(i32::MIN, 0));
}

#[test]
fn hit_test_takes_the_first_match() {
    let mut c = VelloContext::new();
    c.add_rectangle(0, 0, 100, 100, 1, 1, 1, 1);
    c.add_circle(50, 50, 10, 2, 2, 2, 2);
    c.add_rectangle(200, 200, 10, 10, 3, 3, 3, 3);
    assert_eq!(c.hit_test(50, 50), Some(0));
    assert_eq!(c.hit_test(205, 205), Some(2));
    assert_eq!(c.hit_test(150, 150), None);
}

#[test]
fn hit_test_on_empty_registry() {
    let c = VelloContext::new();
    assert_eq!(c.hit_test(0, 0), None);
}

#[test]
fn drag_moves_the_selected_shape() {
    let mut c = VelloContext::new();
    c.add_rectangle(10, 10, 20, 20, 1, 1, 1, 1);
    c.add_circle(100, 100, 5, 1, 1, 1, 1);
    c.handle_mouse_down(15, 15);
    assert_eq!(c.selected_shape(), Some(0));
    c.handle_mouse_move(25, 12);
    assert_eq!(position(&c, 0), (20, 7));
    c.handle_mouse_move(20, 20);
    assert_eq!(position(&c, 0), (15, 15));
    assert_eq!(position(&c, 1), (100, 100));
    c.handle_mouse_up();
    assert_eq!(c.selected_shape(), None);
    c.handle_mouse_move(500, 500);
    assert_eq!(position(&c, 0), (15, 15));
}

#[test]
fn mouse_down_on_empty_space_selects_nothing() {
    let mut c = VelloContext::new();
    c.add_rectangle(10, 10, 20, 20, 1, 1, 1, 1);
    c.handle_mouse_down(0, 0);
    assert_eq!(c.selected_shape(), None);
    c.handle_mouse_move(5, 5);
    assert_eq!(position(&c, 0), (10, 10));
}

#[test]
fn drag_saturates_at_the_coordinate_range() {
    let mut c = VelloContext::new();
    c.add_rectangle(i32::MAX - 5, 0, 10, 10, 1, 1, 1, 1);
    c.handle_mouse_down(i32::MAX - 1, 1);
    c.handle_mouse_move(i32::MAX, 1);
    c.handle_mouse_down(i32::MAX - 1, 1);
    c.handle_mouse_move(i32::MIN, 1);
    assert_eq!(position(&c, 0).0, i32::MIN);
}

#[test]
fn attach_keeps_a_follower_in_place_under_identity_transform() {
    let mut c = VelloContext::new();
    c.add_rectangle(0, 0, 10, 10, 1, 1, 1, 1);
    c.add_rectangle(40, 30, 10, 10, 1, 1, 1, 1);
    assert_eq!(c.attach(1, 0), Ok(()));
    assert_eq!(position(&c, 1), (40, 30));
    let n = *c.shape(1).unwrap().node();
    let a = n.following.unwrap();
    assert_eq!((a.target, a.offset_x, a.offset_y), (0, 40, 30));
}

#[test]
fn update_follower_tracks_the_target() {
    let mut c = VelloContext::new();
    c.add_rectangle(0, 0, 10, 10, 1, 1, 1, 1);
    c.add_rectangle(40, 30, 10, 10, 1, 1, 1, 1);
    c.attach(1, 0).unwrap();
    c.handle_mouse_down(5, 5);
    c.handle_mouse_move(8, 9);
    c.handle_mouse_up();
    assert_eq!(position(&c, 1), (40, 30));
    assert_eq!(c.update_follower(1), Ok(()));
    assert_eq!(position(&c, 1), (43, 34));
}

#[test]
fn detached_shape_stays_when_target_moves() {
    let mut c = VelloContext::new();
    c.add_rectangle(0, 0, 10, 10, 1, 1, 1, 1);
    c.add_rectangle(40, 30, 10, 10, 1, 1, 1, 1);
    c.attach(1, 0).unwrap();
    assert_eq!(c.detach(1), Ok(()));
    c.handle_mouse_down(5, 5);
    c.handle_mouse_move(25, 25);
    c.handle_mouse_up();
    assert_eq!(position(&c, 0), (20, 20));
    c.update_follower(1).unwrap();
    assert_eq!(position(&c, 1), (40, 30));
    assert!(c.shape(1).unwrap().node().following.is_none());
}

#[test]
fn update_follower_ignores_unattached_shapes() {
    let mut c = VelloContext::new();
    c.add_circle(3, 4, 1, 1, 1, 1, 1);
    assert_eq!(c.update_follower(0), Ok(()));
    assert_eq!(position(&c, 0), (3, 4));
}

#[test]
fn registry_operations_reject_unknown_ids() {
    let mut c = VelloContext::new();
    c.add_rectangle(0, 0, 10, 10, 1, 1, 1, 1);
    assert_eq!(c.attach(0, 1), Err(SceneError::ShapeNotFound));
    assert_eq!(c.attach(5, 0), Err(SceneError::ShapeNotFound));
    assert_eq!(c.detach(1), Err(SceneError::ShapeNotFound));
    assert_eq!(c.update_follower(1), Err(SceneError::ShapeNotFound));
    assert!(c.shape(0).unwrap().node().following.is_none());
}

#[test]
fn draw_commands_follow_insertion_order() {
    let mut c = VelloContext::new();
    c.add_circle(1, 2, 3, 4, 5, 6, 7);
    c.add_rectangle(8, 9, 10, 11, 12, 13, 14, 15);
    let cmds = c.draw_commands();
    assert_eq!(
        cmds,
        vec![
            DrawCommand::FillCircle { cx: 1, cy: 2, radius: 3, color: Rgba { r: 4, g: 5, b: 6, a: 7 } },
            DrawCommand::FillRect {
                x: 8,
                y: 9,
                width: 10,
                height: 11,
                color: Rgba { r: 12, g: 13, b: 14, a: 15 },
            },
        ]
    );
    assert!(VelloContext::new().draw_commands().is_empty());
}

#[test]
fn set_node_replaces_only_the_node() {
    let mut s = Shape::Circle(IrCircle::new(0, 0, 9, red()));
    let mut n = *s.node();
    n.x = 12;
    s.set_node(n);
    assert_eq!(s.node().x, 12);
    assert_eq!(s.draw(), DrawCommand::FillCircle { cx: 12, cy: 0, radius: 9, color: red() });
    assert!(s.contains(20, 0));
}
