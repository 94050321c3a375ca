use vstd::prelude::*;
use crate::motion::{frame_travel, travel, travel_i64};
use crate::world::{body_ok, in_area, SolidHandle, World, WorldView};

verus! {

/// The speed after the platform reached `x`: it turns back once it meets or
/// passes the bound it moves toward.
pub open spec fn turned(speed: int, x: int, min_x: int, max_x: int) -> int {
    if speed > 0 && x >= max_x {
        -speed
    } else if speed < 0 && x <= min_x {
        -speed
    } else {
        speed
    }
}

proof fn lemma_travel_odd(v: int, dt: int)
    ensures
        travel_i64(-v, dt) == -travel_i64(v, dt),
{
    assert(0 * dt == 0);
}

proof fn lemma_travel_sign(v: int, dt: int)
    requires
        dt >= 0,
    ensures
        v > 0 ==> travel_i64(v, dt) >= 0,
        v < 0 ==> travel_i64(v, dt) <= 0,
        v == 0 ==> travel_i64(v, dt) == 0,
{
    if v > 0 {
        assert(v * dt >= 0) by (nonlinear_arith) requires v > 0, dt >= 0;
    } else if v < 0 {
        assert((-v) * dt >= 0) by (nonlinear_arith) requires v < 0, dt >= 0;
    }
}

/// A solid that moves back and forth horizontally between two bounds.
#[derive(Clone, Copy, Debug, PartialEq, Eq, Structural)]
pub struct Platform {
    pub solid: SolidHandle,
    pub speed: i64,
    pub min_x: i64,
    pub max_x: i64,
}

/// The world and the platform after one frame of `dt_ms` milliseconds.
pub open spec fn platform_step(w: WorldView, p: Platform, dt_ms: int) -> (WorldView, Platform) {
    let b = w.solids[p.solid.0 as int];
    let dx = travel_i64(p.speed as int, dt_ms);
    if in_area(b.x + dx, b.y as int, b.w as int, b.h as int) {
        (
            w.solid_moved(p.solid.0 as int, dx, 0),
            Platform { speed: turned(p.speed as int, b.x + dx, p.min_x as int, p.max_x as int) as i64, ..p },
        )
    } else {
        (w, p)
    }
}

/// The world and the platform after `k` frames of the durations `dts`.
pub open spec fn platform_run(w: WorldView, p: Platform, dts: Seq<int>, k: nat) -> (WorldView, Platform)
    decreases k,
{
    if k == 0 {
        (w, p)
    } else {
        let (w1, p1) = platform_run(w, p, dts, (k - 1) as nat);
        platform_step(w1, p1, dts[k - 1])
    }
}

/// The platform never leaves its band: starting between its bounds, it stays
/// within `[min_x - m, max_x + m]` after every frame, for any sequence of
/// frame durations whose travel per frame is at most `m`.
pub proof fn lemma_platform_stays_in_band(w: WorldView, p: Platform, dts: Seq<int>, m: int, k: nat)
    requires
        w.wf(),
        p.solid.0 < w.solids.len(),
        p.min_x <= w.solids[p.solid.0 as int].x <= p.max_x,
        p.speed > i64::MIN,
        m >= 0,
        k <= dts.len(),
        forall|i: int| 0 <= i < dts.len() ==> #[trigger] dts[i] >= 0,
        forall|i: int| 0 <= i < dts.len() ==> -m <= #[trigger] travel_i64(p.speed as int, dts[i]) <= m,
    ensures
        ({
            let (wk, pk) = platform_run(w, p, dts, k);
            let x = wk.solids[p.solid.0 as int].x;
            &&& p.min_x - m <= x <= p.max_x + m
            &&& pk.solid == p.solid && pk.min_x == p.min_x && pk.max_x == p.max_x
            &&& pk.speed == p.speed || pk.speed == -p.speed
            &&& pk.speed > 0 ==> x <= p.max_x
            &&& pk.speed < 0 ==> x >= p.min_x
            &&& wk.solids.len() == w.solids.len()
            &&& wk.solids[p.solid.0 as int].w == w.solids[p.solid.0 as int].w
        }),
    decreases k,
{
    assert(body_ok(w.solids[p.solid.0 as int]));
    if k > 0 {
        lemma_platform_stays_in_band(w, p, dts, m, (k - 1) as nat);
        let (w1, p1) = platform_run(w, p, dts, (k - 1) as nat);
        let dt = dts[k - 1];
        lemma_travel_odd(p.speed as int, dt);
        lemma_travel_sign(p1.speed as int, dt);
        assert(-m <= travel_i64(p1.speed as int, dt) <= m);
        let si = p.solid.0 as int;
        let b = w1.solids[si];
        let dx = travel_i64(p1.speed as int, dt);
        if in_area(b.x + dx, b.y as int, b.w as int, b.h as int) {
            let w2 = w1.solid_moved(si, dx, 0);
            assert(w2.solids[si].x == b.x + dx);
            assert(w2.solids.len() == w1.solids.len());
            assert(platform_run(w, p, dts, k) == platform_step(w1, p1, dt));
        } else {
            assert(platform_run(w, p, dts, k) == (w1, p1));
        }
    }
}

impl Platform {
    pub fn new(solid: SolidHandle, speed: i64, min_x: i64, max_x: i64) -> (r: Platform)
        ensures
            r == (Platform { solid, speed, min_x, max_x }),
    {
        Platform { solid, speed, min_x, max_x }
    }

    /// One frame of the platform: move by its speed for `dt_ms`, then turn
    /// back at a bound. A move that would leave the world's area is not
    /// made.
    pub fn update(&mut self, world: &mut World, dt_ms: u32)
        requires
            old(world).well_formed(),
            old(self).solid.0 < old(world)@.solids.len(),
            old(self).speed > i64::MIN,
        ensures
            final(world).well_formed(),
            (final(world)@, *final(self)) == platform_step(old(world)@, *old(self), dt_ms as int),
    {
        let dx = frame_travel(self.speed, dt_ms);
        let b = world.solid_pos(self.solid);
        let nx = b.x as i128 + dx as i128;
        if !(-(crate::world::COORD_LIMIT as i128) <= nx && nx + b.w as i128 <= crate::world::COORD_LIMIT as i128) {
            return;
        }
        world.solid_move(self.solid, dx, 0);
        let x = world.solid_pos(self.solid).x;
        if self.speed > 0 && x >= self.max_x {
            self.speed = -self.speed;
        } else if self.speed < 0 && x <= self.min_x {
            self.speed = -self.speed;
        }
    }
}

} // verus!
