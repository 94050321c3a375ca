use vstd::prelude::*;
use crate::gesture::DirectionFlags;
use crate::motion::{frame_travel, travel_i64, GRAVITY, RUN_SPEED, WORLD_TILES_HIGH};
use crate::world::{ActorHandle, World, WorldView, COORD_LIMIT};

verus! {

/// A velocity in world units per second; positive `vy` points down.
#[derive(Clone, Copy, Debug, PartialEq, Eq, Structural)]
pub struct Velocity {
    pub vx: i64,
    pub vy: i64,
}

/// The upward speed of a jump in a playfield of tiles `tile_w` units wide:
/// 120/154 of the playfield's height per second, rounded down.
pub open spec fn jump_speed_for(tile_w: int) -> int {
    120 * (WORLD_TILES_HIGH * tile_w) / 154
}

pub fn jump_speed(tile_w: i64) -> (r: i64)
    requires
        0 < tile_w <= COORD_LIMIT,
    ensures
        r == jump_speed_for(tile_w as int),
        r >= 0,
{
    120 * (WORLD_TILES_HIGH * tile_w) / 154
}

/// The velocity gravity has accelerated for `dt_ms` milliseconds, held to
/// the range of `i64`.
pub open spec fn fallen(vy: int, dt_ms: int) -> int {
    let v = vy + GRAVITY * dt_ms / 1000;
    if v > i64::MAX { i64::MAX as int } else { v }
}

/// The player's velocity after a frame: gravity while airborne, a snap to
/// the run speed of the held horizontal direction, and a jump that replaces
/// the vertical speed when up is held on the ground.
pub open spec fn next_velocity(v: Velocity, on_ground: bool, f: DirectionFlags, dt_ms: int, jump: int) -> Velocity {
    let fall = if on_ground { v.vy as int } else { fallen(v.vy as int, dt_ms) };
    let vx = if f.right { RUN_SPEED as int } else if f.left { -RUN_SPEED } else { 0 };
    let vy = if f.up && on_ground { -jump } else { fall };
    Velocity { vx: vx as i64, vy: vy as i64 }
}

/// The player's actor stands on something: its box one unit lower collides.
pub open spec fn on_ground(w: WorldView, a: int) -> bool {
    w.collides(-1, w.actors[a].x as int, w.actors[a].y + 1, w.actors[a].w as int, w.actors[a].h as int)
}

/// The world after the actor moved by its velocity for `dt_ms`,
/// horizontally first, then vertically.
pub open spec fn moved_by(w: WorldView, a: int, v: Velocity, dt_ms: int) -> WorldView {
    let w1 = WorldView {
        actors: w.actors.update(a, w.slid(-1, w.actors[a], true, travel_i64(v.vx as int, dt_ms))),
        ..w
    };
    WorldView {
        actors: w1.actors.update(a, w1.slid(-1, w1.actors[a], false, travel_i64(v.vy as int, dt_ms))),
        ..w1
    }
}

/// The world and the player after one frame of `dt_ms` milliseconds.
pub open spec fn player_step(w: WorldView, p: Player, flags: DirectionFlags, dt_ms: int) -> (WorldView, Player) {
    let v = next_velocity(p.velocity, on_ground(w, p.actor.0 as int), flags, dt_ms, p.jump_speed as int);
    (moved_by(w, p.actor.0 as int, v, dt_ms), Player { velocity: v, ..p })
}

/// The player: its actor in the world and its velocity.
#[derive(Clone, Copy, Debug, PartialEq, Eq, Structural)]
pub struct Player {
    pub actor: ActorHandle,
    pub velocity: Velocity,
    pub jump_speed: i64,
}

impl Player {
    pub open spec fn new_spec(actor: ActorHandle, jump_speed: i64) -> Player {
        Player { actor, velocity: Velocity { vx: 0, vy: 0 }, jump_speed }
    }

    /// A player at rest.
    pub fn new(actor: ActorHandle, jump_speed: i64) -> (r: Player)
        ensures
            r == Player::new_spec(actor, jump_speed),
    {
        Player { actor, velocity: Velocity { vx: 0, vy: 0 }, jump_speed }
    }

    /// The velocity update of one frame, given ground contact and the
    /// frame's movement intents.
    pub fn steer(&mut self, grounded: bool, flags: DirectionFlags, dt_ms: u32)
        requires
            old(self).jump_speed >= 0,
        ensures
            *final(self) == (Player {
                velocity: next_velocity(old(self).velocity, grounded, flags, dt_ms as int, old(self).jump_speed as int),
                ..*old(self)
            }),
    {
        if !grounded {
            let g: i64 = GRAVITY * dt_ms as i64 / 1000;
            self.velocity.vy = if self.velocity.vy > i64::MAX - g { i64::MAX } else { self.velocity.vy + g };
        }
        self.velocity.vx = if flags.right {
            RUN_SPEED
        } else if flags.left {
            -RUN_SPEED
        } else {
            0
        };
        if flags.up && grounded {
            self.velocity.vy = -self.jump_speed;
        }
    }

    /// One frame of the player: probe one unit down for ground, update the
    /// velocity, then move horizontally and vertically by it.
    pub fn update(&mut self, world: &mut World, flags: DirectionFlags, dt_ms: u32)
        requires
            old(world).well_formed(),
            old(self).actor.0 < old(world)@.actors.len(),
            old(self).jump_speed >= 0,
        ensures
            final(world).well_formed(),
            (final(world)@, *final(self)) == player_step(old(world)@, *old(self), flags, dt_ms as int),
    {
        let grounded = world.collide_check(self.actor, 0, 1);
        self.steer(grounded, flags, dt_ms);
        let dx = frame_travel(self.velocity.vx, dt_ms);
        let dy = frame_travel(self.velocity.vy, dt_ms);
        world.move_h(self.actor, dx);
        world.move_v(self.actor, dy);
    }
}

} // verus!
