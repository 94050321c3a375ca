use vstd::prelude::*;

verus! {

/// Coordinates of every body stay within `[-COORD_LIMIT, COORD_LIMIT]`; the
/// edge of that area blocks actors like a wall, far beyond any level.
pub const COORD_LIMIT: i64 = 1099511627776;

/// An axis-aligned box in integer world units: top-left corner and size.
#[derive(Clone, Copy, Debug, PartialEq, Eq, Structural)]
pub struct Body {
    pub x: i64,
    pub y: i64,
    pub w: i64,
    pub h: i64,
}

/// Stable identifier of an actor of a `World`.
#[derive(Clone, Copy, Debug, PartialEq, Eq, Structural)]
pub struct ActorHandle(pub usize);

/// Stable identifier of a solid of a `World`.
#[derive(Clone, Copy, Debug, PartialEq, Eq, Structural)]
pub struct SolidHandle(pub usize);

/// Two boxes of positive size share an area of positive size.
pub open spec fn overlaps(ax: int, ay: int, aw: int, ah: int, bx: int, by: int, bw: int, bh: int) -> bool {
    &&& aw > 0 && ah > 0 && bw > 0 && bh > 0
    &&& ax < bx + bw && bx < ax + aw
    &&& ay < by + bh && by < ay + ah
}

/// The box lies inside the representable area.
pub open spec fn in_area(x: int, y: int, w: int, h: int) -> bool {
    &&& -COORD_LIMIT <= x && x + w <= COORD_LIMIT
    &&& -COORD_LIMIT <= y && y + h <= COORD_LIMIT
}

/// A box of non-negative size inside the representable area.
pub open spec fn body_ok(b: Body) -> bool {
    0 <= b.w && 0 <= b.h && in_area(b.x as int, b.y as int, b.w as int, b.h as int)
}

/// What a world is: a static tile grid, the actors and the solids.
pub struct WorldView {
    pub cells: Seq<bool>,
    pub cols: int,
    pub rows: int,
    pub cell_w: int,
    pub cell_h: int,
    pub actors: Seq<Body>,
    pub solids: Seq<Body>,
}

impl WorldView {
    /// The grid holds `cols * rows` cells of positive size within the area,
    /// and every body is a valid box.
    pub open spec fn wf(self) -> bool {
        &&& self.cols >= 0 && self.rows >= 0
        &&& self.cells.len() == self.cols * self.rows
        &&& 0 < self.cell_w <= COORD_LIMIT && 0 < self.cell_h <= COORD_LIMIT
        &&& self.cols * self.cell_w <= COORD_LIMIT && self.rows * self.cell_h <= COORD_LIMIT
        &&& forall|i: int| 0 <= i < self.actors.len() ==> body_ok(#[trigger] self.actors[i])
        &&& forall|i: int| 0 <= i < self.solids.len() ==> body_ok(#[trigger] self.solids[i])
    }

    /// Cell `(cx, cy)` lies in the grid and is solid (row-major storage).
    pub open spec fn cell_solid(self, cx: int, cy: int) -> bool {
        &&& 0 <= cx < self.cols && 0 <= cy < self.rows
        &&& self.cells[cy * self.cols + cx]
    }

    /// The box overlaps some solid cell of the grid.
    pub open spec fn hits_tiles(self, x: int, y: int, w: int, h: int) -> bool {
        exists|cx: int, cy: int|
            #[trigger] self.cell_solid(cx, cy) && overlaps(
                x,
                y,
                w,
                h,
                cx * self.cell_w,
                cy * self.cell_h,
                self.cell_w,
                self.cell_h,
            )
    }

    /// The box overlaps some solid other than the one numbered `skip`.
    pub open spec fn hits_solids(self, skip: int, x: int, y: int, w: int, h: int) -> bool {
        exists|i: int|
            0 <= i < self.solids.len() && i != skip && #[trigger] overlaps(
                x,
                y,
                w,
                h,
                self.solids[i].x as int,
                self.solids[i].y as int,
                self.solids[i].w as int,
                self.solids[i].h as int,
            )
    }

    /// A box at this place is blocked: it leaves the area, or it overlaps a
    /// solid tile or a solid other than `skip`.
    pub open spec fn collides(self, skip: int, x: int, y: int, w: int, h: int) -> bool {
        ||| !in_area(x, y, w, h)
        ||| self.hits_tiles(x, y, w, h)
        ||| self.hits_solids(skip, x, y, w, h)
    }

    /// How many unit steps along `(sx, sy)` a box can take, out of `n`, before
    /// the first step that would collide.
    pub open spec fn free_run(self, skip: int, x: int, y: int, w: int, h: int, sx: int, sy: int, n: nat) -> nat
        decreases n,
    {
        if n == 0 {
            0
        } else if self.collides(skip, x + sx, y + sy, w, h) {
            0
        } else {
            1 + self.free_run(skip, x + sx, y + sy, w, h, sx, sy, (n - 1) as nat)
        }
    }

    /// The box after moving it by `d` along the x axis (`horizontal`) or the y
    /// axis, stopped flush against the first obstacle on its way.
    pub open spec fn slid(self, skip: int, b: Body, horizontal: bool, d: int) -> Body {
        let s: int = if d < 0 { -1 } else { 1 };
        let n: nat = if d < 0 { (-d) as nat } else { d as nat };
        let (sx, sy) = if horizontal { (s, 0int) } else { (0int, s) };
        let k = self.free_run(skip, b.x as int, b.y as int, b.w as int, b.h as int, sx, sy, n);
        Body { x: (b.x + sx * k) as i64, y: (b.y + sy * k) as i64, w: b.w, h: b.h }
    }

    /// Moving by `d` was stopped short by an obstacle.
    pub open spec fn blocked(self, skip: int, b: Body, horizontal: bool, d: int) -> bool {
        let s: int = if d < 0 { -1 } else { 1 };
        let n: nat = if d < 0 { (-d) as nat } else { d as nat };
        let (sx, sy) = if horizontal { (s, 0int) } else { (0int, s) };
        self.free_run(skip, b.x as int, b.y as int, b.w as int, b.h as int, sx, sy, n) < n
    }

    /// The actor stands on top of the solid: its bottom edge lies on the
    /// solid's top edge and they share some horizontal extent.
    pub open spec fn rides(a: Body, s: Body) -> bool {
        &&& a.y + a.h == s.y
        &&& a.w > 0 && s.w > 0
        &&& a.x < s.x + s.w && s.x < a.x + a.w
    }

    /// The solid, moved by `dx` horizontally, overlaps the actor.
    pub open spec fn pushed(a: Body, s: Body, dx: int) -> bool {
        overlaps(
            s.x + dx,
            s.y as int,
            s.w as int,
            s.h as int,
            a.x as int,
            a.y as int,
            a.w as int,
            a.h as int,
        )
    }

    /// Where an actor ends when solid `si` moves by `(dx, dy)`: a rider is
    /// carried along both axes, an actor in the way is pushed horizontally,
    /// any other stays. The moving solid does not block the actor meanwhile.
    pub open spec fn carried(self, si: int, a: Body, dx: int, dy: int) -> Body {
        let s = self.solids[si];
        if Self::rides(a, s) {
            self.slid(si, self.slid(si, a, true, dx), false, dy)
        } else if Self::pushed(a, s, dx) {
            self.slid(si, a, true, dx)
        } else {
            a
        }
    }
}

/// The solid index that a query leaves out, or `-1` for none.
pub open spec fn skip_index(skip: Option<usize>) -> int {
    match skip {
        Some(k) => k as int,
        None => -1,
    }
}

impl WorldView {
    /// The world after solid `si` moved by `(dx, dy)`, carrying and pushing
    /// actors.
    pub open spec fn solid_moved(self, si: int, dx: int, dy: int) -> WorldView {
        let s = self.solids[si];
        WorldView {
            actors: Seq::new(self.actors.len(), |i: int| self.carried(si, self.actors[i], dx, dy)),
            solids: self.solids.update(si, Body { x: (s.x + dx) as i64, y: (s.y + dy) as i64, ..s }),
            ..self
        }
    }
}

/// The collision world: a static tile grid, actors that tiles and solids
/// block, and solids that carry and push actors.
pub struct World {
    cells: Vec<bool>,
    cols: usize,
    rows: usize,
    cell_w: i64,
    cell_h: i64,
    actors: Vec<Body>,
    solids: Vec<Body>,
}

impl View for World {
    type V = WorldView;

    closed spec fn view(&self) -> WorldView {
        WorldView {
            cells: self.cells@,
            cols: self.cols as int,
            rows: self.rows as int,
            cell_w: self.cell_w as int,
            cell_h: self.cell_h as int,
            actors: self.actors@,
            solids: self.solids@,
        }
    }
}


/// Why a world could not be built from level data.
#[derive(Clone, Copy, Debug, PartialEq, Eq, Structural)]
pub enum SetupError {
    /// The occupancy sequence does not hold `cols * rows` cells.
    GridSizeMismatch,
    /// A cell size is not positive, or the grid does not fit the area.
    BadCellSize,
}

impl World {
    pub open spec fn well_formed(&self) -> bool {
        self@.wf()
    }

    /// Builds a world with the given static layer (row-major occupancy) and
    /// no bodies.
    pub fn new(occupancy: Vec<bool>, cols: usize, rows: usize, cell_w: i64, cell_h: i64) -> (r: Result<World, SetupError>)
        ensures
            occupancy@.len() != cols * rows ==> r == Err::<World, SetupError>(SetupError::GridSizeMismatch),
            occupancy@.len() == cols * rows && !(0 < cell_w <= COORD_LIMIT && 0 < cell_h <= COORD_LIMIT
                && cols * cell_w <= COORD_LIMIT && rows * cell_h <= COORD_LIMIT)
                ==> r == Err::<World, SetupError>(SetupError::BadCellSize),
            r is Ok <==> (occupancy@.len() == cols * rows && 0 < cell_w <= COORD_LIMIT && 0 < cell_h <= COORD_LIMIT
                && cols * cell_w <= COORD_LIMIT && rows * cell_h <= COORD_LIMIT),
            r matches Ok(w) ==> w.well_formed() && w@.cells == occupancy@ && w@.cols == cols
                && w@.rows == rows && w@.cell_w == cell_w && w@.cell_h == cell_h
                && w@.actors.len() == 0 && w@.solids.len() == 0,
    {
        let len = occupancy.len();
        match cols.checked_mul(rows) {
            None => {
                return Err(SetupError::GridSizeMismatch);
            },
            Some(n) => {
                if len != n {
                    return Err(SetupError::GridSizeMismatch);
                }
            },
        }
        if !(0 < cell_w && cell_w <= COORD_LIMIT && 0 < cell_h && cell_h <= COORD_LIMIT) {
            return Err(SetupError::BadCellSize);
        }
        proof {
            assert(cols * cell_w <= 0x1_0000_0000_0000_0000 * COORD_LIMIT
                && rows * cell_h <= 0x1_0000_0000_0000_0000 * COORD_LIMIT) by (nonlinear_arith)
                requires
                    0 <= cols <= 0x1_0000_0000_0000_0000, 0 <= rows <= 0x1_0000_0000_0000_0000,
                    0 < cell_w <= COORD_LIMIT, 0 < cell_h <= COORD_LIMIT;
        }
        if !(cols as i128 * cell_w as i128 <= COORD_LIMIT as i128 && rows as i128 * cell_h as i128 <= COORD_LIMIT as i128) {
            return Err(SetupError::BadCellSize);
        }
        Ok(World { cells: occupancy, cols, rows, cell_w, cell_h, actors: Vec::new(), solids: Vec::new() })
    }

    /// Registers an actor; its handle is the number of actors before it.
    pub fn add_actor(&mut self, b: Body) -> (r: ActorHandle)
        requires
            old(self).well_formed(),
            body_ok(b),
        ensures
            final(self).well_formed(),
            r.0 == old(self)@.actors.len(),
            final(self)@ == (WorldView { actors: old(self)@.actors.push(b), ..old(self)@ }),
    {
        let r = ActorHandle(self.actors.len());
        self.actors.push(b);
        r
    }

    /// Registers a solid; its handle is the number of solids before it.
    pub fn add_solid(&mut self, b: Body) -> (r: SolidHandle)
        requires
            old(self).well_formed(),
            body_ok(b),
        ensures
            final(self).well_formed(),
            r.0 == old(self)@.solids.len(),
            final(self)@ == (WorldView { solids: old(self)@.solids.push(b), ..old(self)@ }),
    {
        let r = SolidHandle(self.solids.len());
        self.solids.push(b);
        r
    }

    pub fn actor_pos(&self, a: ActorHandle) -> (r: Body)
        requires
            a.0 < self@.actors.len(),
        ensures
            r == self@.actors[a.0 as int],
    {
        self.actors[a.0]
    }

    pub fn solid_pos(&self, s: SolidHandle) -> (r: Body)
        requires
            s.0 < self@.solids.len(),
        ensures
            r == self@.solids[s.0 as int],
    {
        self.solids[s.0]
    }

    fn hits_tiles_exec(&self, x: i64, y: i64, w: i64, h: i64) -> (r: bool)
        requires
            self.well_formed(),
            in_area(x as int, y as int, w as int, h as int),
        ensures
            r == self@.hits_tiles(x as int, y as int, w as int, h as int),
    {
        let v = Ghost(self@);
        let ncells = self.cells.len();
        if w <= 0 || h <= 0 {
            return false;
        }
        let mut cy: usize = 0;
        while cy < self.rows
            invariant
                v@ == self@,
                ncells == self.cells@.len(),
                self.well_formed(),
                in_area(x as int, y as int, w as int, h as int),
                w > 0 && h > 0,
                cy <= self.rows,
                forall|i: int, j: int| 0 <= j < cy && #[trigger] v@.cell_solid(i, j) ==> !overlaps(
                    x as int, y as int, w as int, h as int,
                    i * v@.cell_w, j * v@.cell_h, v@.cell_w, v@.cell_h),
            decreases self.rows - cy,
        {
            let mut cx: usize = 0;
            while cx < self.cols
                invariant
                    v@ == self@,
                    ncells == self.cells@.len(),
                    self.well_formed(),
                    in_area(x as int, y as int, w as int, h as int),
                    w > 0 && h > 0,
                    cy < self.rows,
                    cx <= self.cols,
                    forall|i: int, j: int| 0 <= j < cy && #[trigger] v@.cell_solid(i, j) ==> !overlaps(
                        x as int, y as int, w as int, h as int,
                        i * v@.cell_w, j * v@.cell_h, v@.cell_w, v@.cell_h),
                    forall|i: int| 0 <= i < cx && #[trigger] v@.cell_solid(i, cy as int) ==> !overlaps(
                        x as int, y as int, w as int, h as int,
                        i * v@.cell_w, cy * v@.cell_h, v@.cell_w, v@.cell_h),
                decreases self.cols - cx,
            {
                proof {
                    assert(cy * self.cols <= cy * self.cols + cx < self.cols * self.rows) by (nonlinear_arith)
                        requires cy < self.rows, cx < self.cols;
                    assert(cx * self.cell_w <= self.cols * self.cell_w) by (nonlinear_arith)
                        requires cx < self.cols, self.cell_w > 0;
                    assert(cy * self.cell_h <= self.rows * self.cell_h) by (nonlinear_arith)
                        requires cy < self.rows, self.cell_h > 0;
                    assert(0 <= cx * self.cell_w) by (nonlinear_arith)
                        requires self.cell_w > 0, cx >= 0;
                    assert(self.cols <= self.cols * self.cell_w) by (nonlinear_arith)
                        requires self.cell_w > 0, self.cols >= 0;
                    assert(self.rows <= self.rows * self.cell_h) by (nonlinear_arith)
                        requires self.cell_h > 0, self.rows >= 0;
                    assert(0 <= cy * self.cell_h) by (nonlinear_arith)
                        requires self.cell_h > 0, cy >= 0;
                }
                let idx = cy * self.cols + cx;
                let left = cx as i64 * self.cell_w;
                let top = cy as i64 * self.cell_h;
                if self.cells[idx] && x < left + self.cell_w && left < x + w && y < top + self.cell_h && top < y + h {
                    assert(v@.cell_solid(cx as int, cy as int));
                    return true;
                }
                cx += 1;
            }
            cy += 1;
        }
        false
    }

    fn hits_solids_exec(&self, skip: Option<usize>, x: i64, y: i64, w: i64, h: i64) -> (r: bool)
        requires
            self.well_formed(),
            in_area(x as int, y as int, w as int, h as int),
        ensures
            r == self@.hits_solids(skip_index(skip), x as int, y as int, w as int, h as int),
    {
        let mut i: usize = 0;
        while i < self.solids.len()
            invariant
                self.well_formed(),
                in_area(x as int, y as int, w as int, h as int),
                i <= self.solids.len(),
                forall|k: int| 0 <= k < i && k != skip_index(skip) ==> !#[trigger] overlaps(
                    x as int, y as int, w as int, h as int,
                    self@.solids[k].x as int, self@.solids[k].y as int,
                    self@.solids[k].w as int, self@.solids[k].h as int),
            decreases self.solids.len() - i,
        {
            let s = self.solids[i];
            assert(body_ok(self@.solids[i as int]));
            assert(s == self@.solids[i as int]);
            let other = match skip {
                Some(k) => i != k,
                None => true,
            };
            if other && w > 0 && h > 0 && s.w > 0 && s.h > 0 && x < s.x + s.w && s.x < x + w
                && y < s.y + s.h && s.y < y + h {
                assert(overlaps(x as int, y as int, w as int, h as int,
                    self@.solids[i as int].x as int, self@.solids[i as int].y as int,
                    self@.solids[i as int].w as int, self@.solids[i as int].h as int));
            }
            let other = match skip {
                Some(k) => i != k,
                None => true,
            };
            if other && w > 0 && h > 0 && s.w > 0 && s.h > 0 && x < s.x + s.w && s.x < x + w
                && y < s.y + s.h && s.y < y + h {
                return true;
            }
            i += 1;
        }
        false
    }

    fn collides_exec(&self, skip: Option<usize>, x: i64, y: i64, w: i64, h: i64) -> (r: bool)
        requires
            self.well_formed(),
            -COORD_LIMIT - 1 <= x <= COORD_LIMIT + 1,
            -COORD_LIMIT - 1 <= y <= COORD_LIMIT + 1,
            0 <= w <= 2 * COORD_LIMIT,
            0 <= h <= 2 * COORD_LIMIT,
        ensures
            r == self@.collides(skip_index(skip), x as int, y as int, w as int, h as int),
    {
        if !(-COORD_LIMIT <= x && x + w <= COORD_LIMIT && -COORD_LIMIT <= y && y + h <= COORD_LIMIT) {
            return true;
        }
        self.hits_tiles_exec(x, y, w, h) || self.hits_solids_exec(skip, x, y, w, h)
    }
}

impl World {
    /// Moves a box by `d` along one axis one unit at a time, stopping flush
    /// against the first obstacle; also says whether it was stopped short.
    fn slide(&self, skip: Option<usize>, b: Body, horizontal: bool, d: i64) -> (r: (Body, bool))
        requires
            self.well_formed(),
            body_ok(b),
        ensures
            r.0 == self@.slid(skip_index(skip), b, horizontal, d as int),
            r.1 == self@.blocked(skip_index(skip), b, horizontal, d as int),
            body_ok(r.0),
    {
        let ghost v = self@;
        let ghost ks = skip_index(skip);
        let s: i64 = if d < 0 { -1 } else { 1 };
        let n: u64 = if d < 0 { (0i128 - d as i128) as u64 } else { d as u64 };
        let sx: i64 = if horizontal { s } else { 0 };
        let sy: i64 = if horizontal { 0 } else { s };
        let mut cur = b;
        let mut k: u64 = 0;
        let mut stopped = false;
        while k < n && !stopped
            invariant
                v == self@,
                ks == skip_index(skip),
                self.well_formed(),
                body_ok(b),
                body_ok(cur),
                cur.w == b.w && cur.h == b.h,
                sx == 0 || sy == 0,
                -1 <= sx <= 1 && -1 <= sy <= 1,
                k <= n,
                cur.x == b.x + sx * k,
                cur.y == b.y + sy * k,
                v.free_run(ks, b.x as int, b.y as int, b.w as int, b.h as int, sx as int, sy as int, n as nat)
                    == k + v.free_run(ks, cur.x as int, cur.y as int, cur.w as int, cur.h as int, sx as int, sy as int, (n - k) as nat),
                stopped ==> k < n && v.free_run(ks, cur.x as int, cur.y as int, cur.w as int, cur.h as int, sx as int, sy as int, (n - k) as nat) == 0,
            decreases n - k, (if stopped { 0int } else { 1int }),
        {
            let hit = self.collides_exec(skip, cur.x + sx, cur.y + sy, cur.w, cur.h);
            proof {
                let m = (n - k) as nat;
                assert(m > 0);
                assert(hit == v.collides(ks, cur.x + sx, cur.y + sy, cur.w as int, cur.h as int));
                assert(v.free_run(ks, cur.x as int, cur.y as int, cur.w as int, cur.h as int, sx as int, sy as int, m)
                    == if hit { 0nat } else {
                        1 + v.free_run(ks, cur.x + sx, cur.y + sy, cur.w as int, cur.h as int, sx as int, sy as int, (m - 1) as nat)
                    });
                assert((m - 1) as nat == (n - (k + 1)) as nat);
            }
            if hit {
                stopped = true;
            } else {
                proof {
                    assert(b.x + sx * (k + 1) == b.x + sx * k + sx) by (nonlinear_arith);
                    assert(b.y + sy * (k + 1) == b.y + sy * k + sy) by (nonlinear_arith);
                }
                cur = Body { x: cur.x + sx, y: cur.y + sy, w: cur.w, h: cur.h };
                k = k + 1;
            }
        }
        (cur, stopped)
    }

    /// Moves the actor by `dx` horizontally, stopping flush against the first
    /// solid tile or solid on its way. Returns whether it was stopped short.
    pub fn move_h(&mut self, a: ActorHandle, dx: i64) -> (r: bool)
        requires
            old(self).well_formed(),
            a.0 < old(self)@.actors.len(),
        ensures
            final(self).well_formed(),
            final(self)@ == (WorldView {
                actors: old(self)@.actors.update(
                    a.0 as int,
                    old(self)@.slid(-1, old(self)@.actors[a.0 as int], true, dx as int),
                ),
                ..old(self)@
            }),
            r == old(self)@.blocked(-1, old(self)@.actors[a.0 as int], true, dx as int),
    {
        let b = self.actors[a.0];
        let (nb, stopped) = self.slide(None, b, true, dx);
        self.actors.set(a.0, nb);
        stopped
    }

    /// Moves the actor by `dy` vertically, stopping flush against the first
    /// solid tile or solid on its way. Returns whether it was stopped short.
    pub fn move_v(&mut self, a: ActorHandle, dy: i64) -> (r: bool)
        requires
            old(self).well_formed(),
            a.0 < old(self)@.actors.len(),
        ensures
            final(self).well_formed(),
            final(self)@ == (WorldView {
                actors: old(self)@.actors.update(
                    a.0 as int,
                    old(self)@.slid(-1, old(self)@.actors[a.0 as int], false, dy as int),
                ),
                ..old(self)@
            }),
            r == old(self)@.blocked(-1, old(self)@.actors[a.0 as int], false, dy as int),
    {
        let b = self.actors[a.0];
        let (nb, stopped) = self.slide(None, b, false, dy);
        self.actors.set(a.0, nb);
        stopped
    }
}

impl World {
    /// Whether the actor's box, translated by `(ox, oy)`, would collide. The
    /// world is left as it is.
    pub fn collide_check(&self, a: ActorHandle, ox: i64, oy: i64) -> (r: bool)
        requires
            self.well_formed(),
            a.0 < self@.actors.len(),
        ensures
            r == self@.collides(
                -1,
                self@.actors[a.0 as int].x + ox,
                self@.actors[a.0 as int].y + oy,
                self@.actors[a.0 as int].w as int,
                self@.actors[a.0 as int].h as int,
            ),
    {
        let b = self.actors[a.0];
        assert(body_ok(self@.actors[a.0 as int]));
        let nx = b.x as i128 + ox as i128;
        let ny = b.y as i128 + oy as i128;
        if !(-(COORD_LIMIT as i128) <= nx && nx + b.w as i128 <= COORD_LIMIT as i128
            && -(COORD_LIMIT as i128) <= ny && ny + b.h as i128 <= COORD_LIMIT as i128) {
            return true;
        }
        self.hits_tiles_exec(nx as i64, ny as i64, b.w, b.h) || self.hits_solids_exec(None, nx as i64, ny as i64, b.w, b.h)
    }

    /// Moves solid `s` by `(dx, dy)` through any tiles. Each actor riding on
    /// it is carried by the same displacement, and each actor in its way is
    /// pushed horizontally; those actors stop flush against other obstacles.
    pub fn solid_move(&mut self, s: SolidHandle, dx: i64, dy: i64)
        requires
            old(self).well_formed(),
            s.0 < old(self)@.solids.len(),
            in_area(
                old(self)@.solids[s.0 as int].x + dx,
                old(self)@.solids[s.0 as int].y + dy,
                old(self)@.solids[s.0 as int].w as int,
                old(self)@.solids[s.0 as int].h as int,
            ),
        ensures
            final(self).well_formed(),
            final(self)@ == old(self)@.solid_moved(s.0 as int, dx as int, dy as int),
    {
        let ghost v = self@;
        let sb = self.solids[s.0];
        assert(body_ok(v.solids[s.0 as int]));
        let mut moved: Vec<Body> = Vec::new();
        let mut i: usize = 0;
        while i < self.actors.len()
            invariant
                v == self@,
                self.well_formed(),
                sb == v.solids[s.0 as int],
                s.0 < v.solids.len(),
                in_area(sb.x + dx, sb.y + dy, sb.w as int, sb.h as int),
                i <= self.actors.len(),
                moved@.len() == i,
                forall|j: int| 0 <= j < i ==> body_ok(#[trigger] moved@[j]),
                forall|j: int| 0 <= j < i ==> #[trigger] moved@[j] == v.carried(s.0 as int, v.actors[j], dx as int, dy as int),
            decreases self.actors.len() - i,
        {
            let a = self.actors[i];
            assert(body_ok(v.actors[i as int]));
            let rides = a.y + a.h == sb.y && a.w > 0 && sb.w > 0 && a.x < sb.x + sb.w && sb.x < a.x + a.w;
            let pushed = sb.w > 0 && sb.h > 0 && a.w > 0 && a.h > 0 && sb.x + dx < a.x + a.w
                && a.x < sb.x + dx + sb.w && sb.y < a.y + a.h && a.y < sb.y + sb.h;
            let nb = if rides {
                let (first, _) = self.slide(Some(s.0), a, true, dx);
                let (second, _) = self.slide(Some(s.0), first, false, dy);
                second
            } else if pushed {
                let (first, _) = self.slide(Some(s.0), a, true, dx);
                first
            } else {
                a
            };
            moved.push(nb);
            i += 1;
        }
        self.actors = moved;
        assert(self@.actors =~= Seq::new(v.actors.len(), |j: int| v.carried(s.0 as int, v.actors[j], dx as int, dy as int)));
        let nsb = Body { x: sb.x + dx, y: sb.y + dy, w: sb.w, h: sb.h };
        self.solids.set(s.0, nsb);
    }
}

/// A box that starts clear of obstacles is still clear wherever a run of
/// free steps leaves it.
proof fn lemma_free_run_ends_clear(v: WorldView, skip: int, x: int, y: int, w: int, h: int, sx: int, sy: int, n: nat)
    requires
        !v.collides(skip, x, y, w, h),
    ensures
        !v.collides(
            skip,
            x + sx * v.free_run(skip, x, y, w, h, sx, sy, n),
            y + sy * v.free_run(skip, x, y, w, h, sx, sy, n),
            w,
            h,
        ),
    decreases n,
{
    if n > 0 && !v.collides(skip, x + sx, y + sy, w, h) {
        lemma_free_run_ends_clear(v, skip, x + sx, y + sy, w, h, sx, sy, (n - 1) as nat);
        let k = v.free_run(skip, x + sx, y + sy, w, h, sx, sy, (n - 1) as nat);
        assert(x + sx + sx * k == x + sx * (1 + k)) by (nonlinear_arith);
        assert(y + sy + sy * k == y + sy * (1 + k)) by (nonlinear_arith);
        assert(v.free_run(skip, x, y, w, h, sx, sy, n) == 1 + k);
    } else {
        assert(v.free_run(skip, x, y, w, h, sx, sy, n) == 0);
        assert(sx * 0 == 0 && sy * 0 == 0);
    }
}

/// Movement never ends inside a solid tile: when a box that overlaps no
/// solid cell (nor solid) is moved along an axis, it overlaps no solid cell
/// afterwards either; the move is cut short flush against the cell instead.
pub proof fn lemma_move_never_penetrates(v: WorldView, skip: int, b: Body, horizontal: bool, d: int)
    requires
        v.wf(),
        body_ok(b),
        !v.collides(skip, b.x as int, b.y as int, b.w as int, b.h as int),
    ensures
        forall|cx: int, cy: int|
            #[trigger] v.cell_solid(cx, cy) ==> !overlaps(
                v.slid(skip, b, horizontal, d).x as int,
                v.slid(skip, b, horizontal, d).y as int,
                b.w as int,
                b.h as int,
                cx * v.cell_w,
                cy * v.cell_h,
                v.cell_w,
                v.cell_h,
            ),
        !v.collides(
            skip,
            v.slid(skip, b, horizontal, d).x as int,
            v.slid(skip, b, horizontal, d).y as int,
            b.w as int,
            b.h as int,
        ),
{
    let s: int = if d < 0 { -1 } else { 1 };
    let n: nat = if d < 0 { (-d) as nat } else { d as nat };
    let (sx, sy) = if horizontal { (s, 0int) } else { (0int, s) };
    lemma_free_run_ends_clear(v, skip, b.x as int, b.y as int, b.w as int, b.h as int, sx, sy, n);
    let k = v.free_run(skip, b.x as int, b.y as int, b.w as int, b.h as int, sx, sy, n);
    let nx = b.x + sx * k;
    let ny = b.y + sy * k;
    assert(in_area(nx, ny, b.w as int, b.h as int));
    assert(v.slid(skip, b, horizontal, d).x == nx);
    assert(v.slid(skip, b, horizontal, d).y == ny);
    assert forall|cx: int, cy: int| #[trigger] v.cell_solid(cx, cy) implies !overlaps(
        nx, ny, b.w as int, b.h as int, cx * v.cell_w, cy * v.cell_h, v.cell_w, v.cell_h) by {
        if overlaps(nx, ny, b.w as int, b.h as int, cx * v.cell_w, cy * v.cell_h, v.cell_w, v.cell_h) {
            assert(v.hits_tiles(nx, ny, b.w as int, b.h as int));
        }
    }
}

/// A move by zero leaves the box where it is and is never reported as
/// stopped short.
pub proof fn lemma_zero_move_is_identity(v: WorldView, skip: int, b: Body, horizontal: bool)
    ensures
        v.slid(skip, b, horizontal, 0) == b,
        !v.blocked(skip, b, horizontal, 0),
{
    let (sx, sy) = if horizontal { (1int, 0int) } else { (0int, 1int) };
    assert(v.free_run(skip, b.x as int, b.y as int, b.w as int, b.h as int, sx, sy, 0) == 0);
    assert(sx * 0 == 0 && sy * 0 == 0);
}

/// Ground detection: an actor whose bottom edge lies exactly on the top edge
/// of a solid cell it spans horizontally finds ground one unit below; the
/// same actor one unit higher, with nothing in the way at its resting place,
/// finds none.
pub proof fn lemma_ground_probe(v: WorldView, a: Body, cx: int, cy: int)
    requires
        v.wf(),
        body_ok(a),
        a.w > 0 && a.h > 0,
        v.cell_solid(cx, cy),
        a.y + a.h == cy * v.cell_h,
        a.x < cx * v.cell_w + v.cell_w && cx * v.cell_w < a.x + a.w,
        !v.collides(-1, a.x as int, a.y as int, a.w as int, a.h as int),
    ensures
        v.collides(-1, a.x as int, a.y + 1, a.w as int, a.h as int),
        !v.collides(-1, a.x as int, (a.y - 1) + 1, a.w as int, a.h as int),
{
    if in_area(a.x as int, a.y + 1, a.w as int, a.h as int) {
        assert(overlaps(a.x as int, a.y + 1, a.w as int, a.h as int, cx * v.cell_w, cy * v.cell_h, v.cell_w, v.cell_h));
        assert(v.hits_tiles(a.x as int, a.y + 1, a.w as int, a.h as int));
    }
}

} // verus!
