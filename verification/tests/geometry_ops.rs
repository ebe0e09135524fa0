use minibreak::geometry::{Rect, Vec2i};

fn rect(ulx: i32, uly: i32, brx: i32, bry: i32) -> Rect {
    Rect {
        top_left: Vec2i { x: ulx, y: uly },
        bottom_right: Vec2i { x: brx, y: bry },
    }
}

#[test]
fn contains_point_is_half_open() {
    let r = rect(10, 10, 12, 12);
    assert!(r.contains_point(Vec2i { x: 10, y: 10 }));
    assert!(r.contains_point(Vec2i { x: 11, y: 11 }));
    assert!(!r.contains_point(Vec2i { x: 12, y: 12 }));
    assert!(!r.contains_point(Vec2i { x: 12, y: 10 }));
    assert!(!r.contains_point(Vec2i { x: 10, y: 12 }));
    assert!(!r.contains_point(Vec2i { x: 9, y: 10 }));
}

#[test]
fn center_is_contained_in_positive_rects() {
    for r in [
        rect(0, 0, 1, 1),
        rect(10, 10, 12, 12),
        rect(-7, -3, 5, 2),
        rect(100, 200, 141, 213),
    ] {
        assert!(r.contains_point(r.center()));
    }
}

#[test]
fn center_rounds_toward_negative_infinity() {
    assert_eq!(rect(10, 10, 12, 12).center(), Vec2i { x: 11, y: 11 });
    assert_eq!(rect(10, 10, 13, 13).center(), Vec2i { x: 11, y: 11 });
    assert_eq!(rect(-5, -5, 0, 0).center(), Vec2i { x: -3, y: -3 });
}

#[test]
fn encloses_is_reflexive() {
    for r in [rect(0, 0, 266, 240), rect(-4, -4, 0, 0), rect(5, 5, 6, 6)] {
        assert!(r.encloses(r));
    }
}

#[test]
fn encloses_needs_all_four_sides() {
    let screen = rect(0, 0, 266, 240);
    assert!(screen.encloses(rect(0, 0, 266, 240)));
    assert!(screen.encloses(rect(1, 1, 265, 239)));
    assert!(!screen.encloses(rect(-1, 0, 265, 239)));
    assert!(!screen.encloses(rect(0, 0, 267, 240)));
    assert!(!screen.encloses(rect(0, -1, 266, 240)));
    assert!(!screen.encloses(rect(0, 0, 266, 241)));
}

#[test]
fn centered_at_even_size_round_trips() {
    let r = Rect::centered_at(Vec2i { x: 133, y: 216 }, Vec2i { x: 40, y: 8 });
    assert_eq!(r.top_left, Vec2i { x: 113, y: 212 });
    assert_eq!(r.bottom_right, Vec2i { x: 153, y: 220 });
    assert_eq!(r.center(), Vec2i { x: 133, y: 216 });
}

#[test]
fn centered_at_odd_size_biases_upper_left() {
    let r = Rect::centered_at(Vec2i { x: 10, y: 10 }, Vec2i { x: 3, y: 3 });
    assert_eq!(r.top_left, Vec2i { x: 8, y: 8 });
    assert_eq!(r.bottom_right, Vec2i { x: 11, y: 11 });
    assert_eq!(r.center(), Vec2i { x: 9, y: 9 });
}

#[test]
fn offset_translates_both_corners() {
    let r = rect(1, 2, 5, 8).offset(Vec2i { x: -3, y: 4 });
    assert_eq!(r, rect(-2, 6, 2, 12));
}

#[test]
fn size_subtracts_corners() {
    let s = rect(18, 20, 38, 32).size();
    assert_eq!(s, Vec2i { x: 20, y: 12 });
}

#[test]
fn intersects_by_any_of_the_four_corners() {
    let a = rect(10, 10, 20, 20);
    assert!(a.intersects(rect(15, 15, 25, 25)));
    assert!(a.intersects(rect(5, 5, 11, 11)));
    assert!(a.intersects(rect(19, 5, 30, 11)));
    assert!(a.intersects(rect(5, 19, 11, 30)));
    assert!(a.intersects(rect(12, 12, 14, 14)));
    assert!(!a.intersects(rect(20, 10, 30, 20)));
    assert!(!a.intersects(rect(0, 0, 10, 10)));
    assert!(!a.intersects(rect(10, 20, 20, 30)));
}

#[test]
fn clamp_x_into_is_identity_when_enclosed() {
    let bounds = rect(0, 0, 266, 240);
    let r = rect(113, 212, 153, 220);
    assert_eq!(r.clamp_x_into(bounds), r);
}

#[test]
fn clamp_x_into_shifts_minimally_and_is_idempotent() {
    let bounds = rect(0, 0, 266, 240);
    let off_left = rect(-5, 10, 35, 18);
    let clamped_left = off_left.clamp_x_into(bounds);
    assert_eq!(clamped_left, rect(0, 10, 40, 18));
    assert_eq!(clamped_left.clamp_x_into(bounds), clamped_left);
    let off_right = rect(260, 0, 280, 10);
    let clamped_right = off_right.clamp_x_into(bounds);
    assert_eq!(clamped_right, rect(246, 0, 266, 10));
    assert_eq!(clamped_right.clamp_x_into(bounds), clamped_right);
}

#[test]
fn clamp_x_into_leaves_y_alone() {
    let bounds = rect(0, 0, 266, 240);
    let r = rect(-5, -50, 35, 300);
    let clamped = r.clamp_x_into(bounds);
    assert_eq!(clamped.top_left.y, -50);
    assert_eq!(clamped.bottom_right.y, 300);
    assert_eq!(clamped.top_left.x, 0);
}
