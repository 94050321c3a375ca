use vstd::prelude::*;

verus! {

/// World units per screen pixel: positions, speeds and sizes are held in
/// sixteenths of a pixel.
pub const SUBPIXELS: i64 = 16;

/// Downward acceleration of an airborne player, in units per second squared.
pub const GRAVITY: i64 = 8000;

/// Horizontal speed of a running player, in units per second.
pub const RUN_SPEED: i64 = 1600;

/// Height of the playfield in tiles, from which the jump speed derives.
pub const WORLD_TILES_HIGH: i64 = 19;

/// The signed distance covered in `dt_ms` milliseconds at `v` units per
/// second, rounded toward zero.
pub open spec fn travel(v: int, dt_ms: int) -> int {
    if v < 0 {
        -((-v) * dt_ms / 1000)
    } else {
        v * dt_ms / 1000
    }
}

/// `travel` held to the range of `i64` (beyond it any move ends at the edge
/// of the world's area anyway).
pub open spec fn travel_i64(v: int, dt_ms: int) -> int {
    let t = travel(v, dt_ms);
    if t > i64::MAX {
        i64::MAX as int
    } else if t < -i64::MAX {
        -i64::MAX
    } else {
        t
    }
}

pub fn frame_travel(v: i64, dt_ms: u32) -> (r: i64)
    ensures
        r == travel_i64(v as int, dt_ms as int),
{
    let mag: i128 = if v < 0 { -(v as i128) } else { v as i128 };
    proof {
        assert(0 <= mag * dt_ms <= 0x8000_0000_0000_0000 * 0x1_0000_0000) by (nonlinear_arith)
            requires 0 <= mag <= 0x8000_0000_0000_0000, 0 <= dt_ms <= 0xffff_ffff;
    }
    let q: i128 = mag * dt_ms as i128 / 1000;
    let t: i128 = if v < 0 { -q } else { q };
    if t > i64::MAX as i128 {
        i64::MAX
    } else if t < -(i64::MAX as i128) {
        -i64::MAX
    } else {
        t as i64
    }
}

} // verus!
