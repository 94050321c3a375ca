use tile_platformer::game::Game;
use tile_platformer::gesture::{DirectionFlags, TouchEvent, TouchPhase};
use tile_platformer::motion::frame_travel;
use tile_platformer::platform::Platform;
use tile_platformer::player::{jump_speed, Player, Velocity};
use tile_platformer::world::{Body, SetupError, World};

fn flags(up: bool, left: bool, right: bool) -> DirectionFlags {
    DirectionFlags { up, down: false, left, right }
}

/// 40 columns by 19 rows of 8-unit tiles with a solid bottom row.
fn floor_level() -> World {
    let mut cells = vec![false; 40 * 19];
    for c in 0..40 {
        cells[18 * 40 + c] = true;
    }
    World::new(cells, 40, 19, 8, 8).unwrap()
}

#[test]
fn travel_rounds_toward_zero() {
    assert_eq!(frame_travel(1600, 16), 25);
    assert_eq!(frame_travel(-1600, 16), -25);
    assert_eq!(frame_travel(999, 1), 0);
    assert_eq!(frame_travel(i64::MAX, u32::MAX), i64::MAX);
}

#[test]
fn jump_then_gravity() {
    assert_eq!(jump_speed(8), 118);
    let mut w = floor_level();
    let a = w.add_actor(Body { x: 16, y: 136, w: 8, h: 8 });
    let mut p = Player::new(a, jump_speed(8));
    p.update(&mut w, flags(true, false, false), 16);
    assert_eq!(p.velocity.vy, -118);
    assert_eq!(w.actor_pos(a).y, 136 - 1);
    p.update(&mut w, flags(false, false, false), 16);
    assert_eq!(p.velocity.vy, -118 + 128);
}

#[test]
fn jump_ignored_in_air_and_run_snaps() {
    let mut w = floor_level();
    let a = w.add_actor(Body { x: 16, y: 40, w: 8, h: 8 });
    let mut p = Player::new(a, 118);
    p.update(&mut w, flags(true, false, true), 100);
    assert_eq!(p.velocity, Velocity { vx: 1600, vy: 800 });
    assert_eq!(w.actor_pos(a), Body { x: 176, y: 120, w: 8, h: 8 });
    p.update(&mut w, flags(false, true, false), 100);
    assert_eq!(p.velocity, Velocity { vx: -1600, vy: 1600 });
    assert_eq!(w.actor_pos(a), Body { x: 16, y: 136, w: 8, h: 8 });
    p.update(&mut w, flags(false, false, false), 100);
    assert_eq!(p.velocity, Velocity { vx: 0, vy: 1600 });
}

#[test]
fn platform_stays_in_band() {
    let mut w = World::new(vec![false; 4], 2, 2, 8, 8).unwrap();
    let s = w.add_solid(Body { x: 100, y: 0, w: 32, h: 8 });
    let mut p = Platform::new(s, 800, 80, 160);
    let dts = [16u32, 33, 7, 100, 50, 1, 0, 250];
    let max_step = 200;
    let mut turns = 0;
    let mut last = p.speed;
    for i in 0..2000 {
        p.update(&mut w, dts[i % dts.len()]);
        let x = w.solid_pos(s).x;
        assert!(x >= 80 - max_step && x <= 160 + max_step, "x = {}", x);
        if p.speed != last {
            turns += 1;
            last = p.speed;
        }
    }
    assert!(turns > 10);
}

#[test]
fn platform_turns_exactly_at_bound() {
    let mut w = World::new(vec![false; 4], 2, 2, 8, 8).unwrap();
    let s = w.add_solid(Body { x: 150, y: 0, w: 32, h: 8 });
    let mut p = Platform::new(s, 1000, 80, 160);
    p.update(&mut w, 10);
    assert_eq!(w.solid_pos(s).x, 160);
    assert_eq!(p.speed, -1000);
    p.update(&mut w, 10);
    assert_eq!(w.solid_pos(s).x, 150);
    assert_eq!(p.speed, -1000);
}

#[test]
fn game_setup_and_frame() {
    let cells = vec![false; 40 * 19];
    assert_eq!(Game::new(cells.clone(), 40, 18, 8).err(), Some(SetupError::GridSizeMismatch));
    assert_eq!(Game::new(cells.clone(), 40, 19, 0).err(), Some(SetupError::BadCellSize));
    let mut g = Game::new(cells, 40, 19, 8).unwrap();
    assert_eq!(g.world.actor_pos(g.player.actor), Body { x: 50, y: 80, w: 8, h: 8 });
    assert_eq!(g.world.solid_pos(g.platform.solid), Body { x: 170, y: 130, w: 32, h: 8 });
    assert_eq!(g.platform.min_x, 150);
    assert_eq!(g.platform.max_x, 220);
    assert_eq!(g.player.jump_speed, 118);
    g.frame(Some(TouchEvent { x: 100, y: 100, phase: TouchPhase::Started }), 10);
    let r = g.frame(Some(TouchEvent { x: 160, y: 100, phase: TouchPhase::Moved }), 10);
    assert!(r.flags.right);
    assert_eq!(g.player.velocity.vx, 1600);
    assert_eq!(g.world.solid_pos(g.platform.solid).x, 186);
}
