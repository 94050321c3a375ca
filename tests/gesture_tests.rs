use tile_platformer::gesture::{
    classify_drag, Classification, Direction, DirectionFlags, GestureState, TouchEvent, TouchPhase,
};

fn touch(x: i32, y: i32, phase: TouchPhase) -> Option<TouchEvent> {
    Some(TouchEvent { x, y, phase })
}

#[test]
fn drag_up_selects_up_only() {
    let mut g = GestureState::new();
    let first = g.step(touch(100, 100, TouchPhase::Started));
    assert_eq!(first.feedback, None);
    let r = g.step(touch(100, 40, TouchPhase::Moved));
    assert_eq!(r.flags, DirectionFlags { up: true, down: false, left: false, right: false });
    assert_eq!(r.feedback, Some(Classification { direction: Direction::Up, sector: 225 }));
}

#[test]
fn drag_at_straight_angle_selects_right() {
    let r = classify_drag(100, 100, 160, 100);
    assert_eq!(r, Some(Classification { direction: Direction::Right, sector: 315 }));
    let mut g = GestureState::new();
    g.step(touch(100, 100, TouchPhase::Started));
    let f = g.step(touch(160, 100, TouchPhase::Stationary));
    assert_eq!(f.flags, DirectionFlags { up: false, down: false, left: false, right: true });
}

#[test]
fn every_drag_sets_exactly_one_flag() {
    let mut g = GestureState::new();
    g.step(touch(0, 0, TouchPhase::Started));
    for x in -60..=60 {
        for y in -60..=60 {
            let r = g.step(touch(x, y, TouchPhase::Moved));
            let f = r.flags;
            let n = [f.up, f.down, f.left, f.right].iter().filter(|b| **b).count();
            if x == 0 && y == 0 {
                assert_eq!(n, 0);
                assert_eq!(r.feedback, None);
            } else {
                assert_eq!(n, 1, "drag to ({}, {})", x, y);
            }
        }
    }
}

#[test]
fn range_boundaries() {
    // vector (start - current): angle 0 -> left, 45 -> up, 135 -> right,
    // -45 -> down, -135 -> right, just below 0 -> left
    assert_eq!(classify_drag(10, 0, 0, 0).unwrap().direction, Direction::Left);
    assert_eq!(classify_drag(10, 10, 0, 0).unwrap().direction, Direction::Up);
    assert_eq!(classify_drag(-10, 10, 0, 0).unwrap().direction, Direction::Right);
    assert_eq!(classify_drag(10, -10, 0, 0).unwrap().direction, Direction::Down);
    assert_eq!(classify_drag(-10, -10, 0, 0).unwrap().direction, Direction::Right);
    assert_eq!(classify_drag(10, -1, 0, 0).unwrap().direction, Direction::Left);
    assert_eq!(classify_drag(-10, -11, 0, 0).unwrap().direction, Direction::Down);
    assert_eq!(classify_drag(10, -1, 0, 0).unwrap().sector, 135);
    assert_eq!(classify_drag(0, -10, 0, 0).unwrap().sector, 45);
}

#[test]
fn zero_length_drag_selects_nothing() {
    assert_eq!(classify_drag(5, 7, 5, 7), None);
}

#[test]
fn release_sets_no_flag_and_ends_gesture() {
    let mut g = GestureState::new();
    g.step(touch(100, 100, TouchPhase::Started));
    let r = g.step(touch(100, 40, TouchPhase::Ended));
    assert_eq!(r.flags, DirectionFlags { up: false, down: false, left: false, right: false });
    assert_eq!(g.start, None);
    let later = g.step(touch(100, 10, TouchPhase::Moved));
    assert_eq!(later.feedback, None);
    let cancel = g.step(touch(0, 0, TouchPhase::Cancelled));
    assert_eq!(cancel.feedback, None);
}

#[test]
fn flags_are_cleared_each_frame() {
    let mut g = GestureState::new();
    g.step(touch(100, 100, TouchPhase::Started));
    assert!(g.step(touch(100, 40, TouchPhase::Moved)).flags.up);
    let idle = g.step(None);
    assert_eq!(idle.flags, DirectionFlags { up: false, down: false, left: false, right: false });
}
