use vstd::prelude::*;
use crate::gesture::{frame_input, next_state, FrameInput, GestureState, TouchEvent};
use crate::motion::WORLD_TILES_HIGH;
use crate::platform::{platform_step, Platform};
use crate::player::{jump_speed, jump_speed_for, player_step, Player};
use crate::world::{Body, SetupError, World, WorldView};

verus! {

/// Speed of the moving platform, in world units per second.
pub const PLATFORM_SPEED: i64 = 800;

/// Largest tile width, in world units, that a level may use.
pub const MAX_TILE_W: i64 = 1048576;

/// Largest number of columns or rows a level may have.
pub const MAX_CELLS_PER_SIDE: usize = 65536;

/// The level's extent is small enough for every spawn position to fit.
pub open spec fn level_fits(cols: int, rows: int, tile_w: int) -> bool {
    0 < tile_w <= MAX_TILE_W && cols <= MAX_CELLS_PER_SIDE && rows <= MAX_CELLS_PER_SIDE
}

/// Where the player appears in a playfield `width` units wide made of tiles
/// `tile_w` units wide: at 50/320 of the width and 80/152 of the height.
pub open spec fn player_spawn(width: int, tile_w: int) -> Body {
    Body {
        x: (50 * width / 320) as i64,
        y: (80 * (WORLD_TILES_HIGH * tile_w) / 152) as i64,
        w: tile_w as i64,
        h: tile_w as i64,
    }
}

/// Where the platform appears: at 170/320 of the width and 130/152 of the
/// height, four tiles wide and one tile high.
pub open spec fn platform_spawn(width: int, tile_w: int) -> Body {
    Body {
        x: (170 * width / 320) as i64,
        y: (130 * (WORLD_TILES_HIGH * tile_w) / 152) as i64,
        w: (4 * tile_w) as i64,
        h: tile_w as i64,
    }
}

/// A running level: the world, the player, the platform and the gesture
/// tracker.
pub struct Game {
    pub world: World,
    pub player: Player,
    pub platform: Platform,
    pub gesture: GestureState,
}

impl Game {
    pub open spec fn wf(&self) -> bool {
        &&& self.world.well_formed()
        &&& self.player.actor.0 < self.world@.actors.len()
        &&& self.platform.solid.0 < self.world@.solids.len()
        &&& self.player.jump_speed >= 0
        &&& self.platform.speed > i64::MIN
    }

    /// Builds the level from a row-major occupancy of `cols * rows` tiles of
    /// `tile_w` units square, and places the player and the platform.
    pub fn new(occupancy: Vec<bool>, cols: usize, rows: usize, tile_w: i64) -> (r: Result<Game, SetupError>)
        ensures
            occupancy@.len() != cols * rows ==> r == Err::<Game, SetupError>(SetupError::GridSizeMismatch),
            occupancy@.len() == cols * rows && !level_fits(cols as int, rows as int, tile_w as int)
                ==> r == Err::<Game, SetupError>(SetupError::BadCellSize),
            r is Ok <==> occupancy@.len() == cols * rows && level_fits(cols as int, rows as int, tile_w as int),
            r matches Ok(g) ==> {
                let width = cols * tile_w;
                &&& g.wf()
                &&& g.world@.cells == occupancy@
                &&& g.world@.cols == cols && g.world@.rows == rows
                &&& g.world@.cell_w == tile_w && g.world@.cell_h == tile_w
                &&& g.world@.actors == seq![player_spawn(width, tile_w as int)]
                &&& g.world@.solids == seq![platform_spawn(width, tile_w as int)]
                &&& g.player == Player::new_spec(g.player.actor, jump_speed_for(tile_w as int) as i64)
                &&& g.player.actor.0 == 0
                &&& g.platform.solid.0 == 0
                &&& g.platform.speed == PLATFORM_SPEED
                &&& g.platform.min_x == 150 * width / 320
                &&& g.platform.max_x == 220 * width / 320
                &&& g.gesture.start is None
            },
    {
        let len = occupancy.len();
        let sized = match cols.checked_mul(rows) {
            Some(n) => n == len,
            None => false,
        };
        if !sized {
            return Err(SetupError::GridSizeMismatch);
        }
        if !(0 < tile_w && tile_w <= MAX_TILE_W && cols <= MAX_CELLS_PER_SIDE && rows <= MAX_CELLS_PER_SIDE) {
            return Err(SetupError::BadCellSize);
        }
        proof {
            assert(cols * tile_w <= MAX_CELLS_PER_SIDE * MAX_TILE_W) by (nonlinear_arith)
                requires 0 <= cols <= MAX_CELLS_PER_SIDE, 0 < tile_w <= MAX_TILE_W;
            assert(rows * tile_w <= MAX_CELLS_PER_SIDE * MAX_TILE_W) by (nonlinear_arith)
                requires 0 <= rows <= MAX_CELLS_PER_SIDE, 0 < tile_w <= MAX_TILE_W;
            assert(cols * rows <= MAX_CELLS_PER_SIDE * MAX_CELLS_PER_SIDE) by (nonlinear_arith)
                requires 0 <= rows <= MAX_CELLS_PER_SIDE, 0 <= cols <= MAX_CELLS_PER_SIDE;
        }
        let mut world = match World::new(occupancy, cols, rows, tile_w, tile_w) {
            Ok(w) => w,
            Err(e) => {
                return Err(e);
            },
        };
        let width: i64 = cols as i64 * tile_w;
        let height: i64 = WORLD_TILES_HIGH * tile_w;
        let pb = Body { x: 50 * width / 320, y: 80 * height / 152, w: tile_w, h: tile_w };
        let sb = Body { x: 170 * width / 320, y: 130 * height / 152, w: 4 * tile_w, h: tile_w };
        let actor = world.add_actor(pb);
        let solid = world.add_solid(sb);
        let player = Player::new(actor, jump_speed(tile_w));
        let platform = Platform::new(solid, PLATFORM_SPEED, 150 * width / 320, 220 * width / 320);
        proof {
            assert(world@.actors =~= seq![pb]);
            assert(world@.solids =~= seq![sb]);
        }
        Ok(Game { world, player, platform, gesture: GestureState::new() })
    }

    /// One frame: classify the frame's touch, steer and move the player with
    /// the resulting intents, then move the platform. Returns the intents and
    /// the feedback sector of the frame.
    pub fn frame(&mut self, touch: Option<TouchEvent>, dt_ms: u32) -> (r: FrameInput)
        requires
            old(self).wf(),
        ensures
            final(self).wf(),
            r == frame_input(old(self).gesture, touch),
            final(self).gesture == next_state(old(self).gesture, touch),
            ({
                let (w1, p1) = player_step(old(self).world@, old(self).player, r.flags, dt_ms as int);
                let (w2, q2) = platform_step(w1, old(self).platform, dt_ms as int);
                &&& final(self).player == p1
                &&& final(self).platform == q2
                &&& final(self).world@ == w2
            }),
    {
        let input = self.gesture.step(touch);
        self.player.update(&mut self.world, input.flags, dt_ms);
        self.platform.update(&mut self.world, dt_ms);
        input
    }
}

} // verus!
