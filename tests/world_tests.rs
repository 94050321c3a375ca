use tile_platformer::world::{Body, SetupError, World};

/// 4 columns by 3 rows of 8-unit tiles: the bottom row and the right column
/// are solid.
fn level() -> World {
    let mut cells = vec![false; 12];
    for c in 0..4 {
        cells[2 * 4 + c] = true;
    }
    cells[3] = true;
    cells[4 + 3] = true;
    World::new(cells, 4, 3, 8, 8).unwrap()
}

#[test]
fn setup_errors() {
    assert_eq!(World::new(vec![false; 3], 2, 2, 8, 8).err(), Some(SetupError::GridSizeMismatch));
    assert_eq!(World::new(vec![false; 4], 2, 2, 0, 8).err(), Some(SetupError::BadCellSize));
    assert_eq!(World::new(vec![false; 4], 2, 2, 8, -1).err(), Some(SetupError::BadCellSize));
    assert!(World::new(vec![false; 4], 2, 2, 8, 8).is_ok());
}

#[test]
fn falling_actor_stops_flush_on_floor() {
    let mut w = level();
    let a = w.add_actor(Body { x: 0, y: 0, w: 8, h: 8 });
    assert!(w.move_v(a, 100));
    assert_eq!(w.actor_pos(a), Body { x: 0, y: 8, w: 8, h: 8 });
    // flush: any further move toward the floor is stopped at once
    assert!(w.move_v(a, 1));
    assert_eq!(w.actor_pos(a).y, 8);
}

#[test]
fn wall_clamps_horizontal_move() {
    let mut w = level();
    let a = w.add_actor(Body { x: 0, y: 0, w: 8, h: 8 });
    assert!(w.move_h(a, 100));
    assert_eq!(w.actor_pos(a).x, 16);
    assert!(!w.move_h(a, -5));
    assert_eq!(w.actor_pos(a).x, 11);
}

#[test]
fn no_overlap_with_any_solid_cell_after_moves() {
    let mut w = level();
    let a = w.add_actor(Body { x: 3, y: 1, w: 6, h: 5 });
    for (dx, dy) in [(50, 0), (0, 50), (-7, -3), (100, 100), (-100, 2)] {
        w.move_h(a, dx);
        w.move_v(a, dy);
        let b = w.actor_pos(a);
        assert!(!w.collide_check(a, 0, 0), "overlap at {:?}", b);
    }
}

#[test]
fn zero_move_changes_nothing() {
    let mut w = level();
    let a = w.add_actor(Body { x: 0, y: 8, w: 8, h: 8 });
    assert!(!w.move_h(a, 0));
    assert!(!w.move_v(a, 0));
    assert_eq!(w.actor_pos(a), Body { x: 0, y: 8, w: 8, h: 8 });
}

#[test]
fn ground_probe() {
    let mut w = level();
    let resting = w.add_actor(Body { x: 0, y: 8, w: 8, h: 8 });
    let above = w.add_actor(Body { x: 0, y: 7, w: 8, h: 8 });
    assert!(w.collide_check(resting, 0, 1));
    assert!(!w.collide_check(above, 0, 1));
}

#[test]
fn probes_outside_grid_and_empty_boxes_do_not_collide() {
    let mut w = level();
    let a = w.add_actor(Body { x: -40, y: -40, w: 8, h: 8 });
    assert!(!w.collide_check(a, 0, 0));
    assert!(!w.collide_check(a, -100, 500));
    let dot = w.add_actor(Body { x: 0, y: 20, w: 0, h: 0 });
    assert!(!w.collide_check(dot, 0, 0));
}

#[test]
fn solid_blocks_actor_and_carries_rider() {
    let mut w = World::new(vec![false; 100], 10, 10, 8, 8).unwrap();
    let s = w.add_solid(Body { x: 16, y: 40, w: 32, h: 8 });
    let rider = w.add_actor(Body { x: 20, y: 32, w: 8, h: 8 });
    let faller = w.add_actor(Body { x: 40, y: 0, w: 8, h: 8 });
    let bystander = w.add_actor(Body { x: 0, y: 0, w: 4, h: 4 });
    assert!(w.move_v(faller, 100));
    assert_eq!(w.actor_pos(faller).y, 32);
    w.solid_move(s, 5, 0);
    assert_eq!(w.solid_pos(s), Body { x: 21, y: 40, w: 32, h: 8 });
    assert_eq!(w.actor_pos(rider), Body { x: 25, y: 32, w: 8, h: 8 });
    assert_eq!(w.actor_pos(faller).x, 45);
    assert_eq!(w.actor_pos(bystander), Body { x: 0, y: 0, w: 4, h: 4 });
}

#[test]
fn solid_pushes_actor_in_its_way() {
    let mut w = World::new(vec![false; 100], 10, 10, 8, 8).unwrap();
    let s = w.add_solid(Body { x: 0, y: 8, w: 8, h: 8 });
    let a = w.add_actor(Body { x: 10, y: 8, w: 8, h: 8 });
    w.solid_move(s, 6, 0);
    assert_eq!(w.solid_pos(s).x, 6);
    assert_eq!(w.actor_pos(a).x, 16);
}
