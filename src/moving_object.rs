use vstd::prelude::*;

use crate::aabb::{AABB, MAX_COLLISION_HALF};
use crate::geometry::{
    abs, clamp, clamp_i64, lerp, lerp_coord, max, min, per_dt, scale_by_dt, Vector2, MAX_ACCEL,
    MAX_COORD, MAX_DT_MICROS, MAX_SPEED, PROBE_SPAN,
};
use crate::terrain::Terrain;

verus! {

/// Bound on the corner points that the sweeps start from.
pub const CORNER_SPAN: i64 = 1_000_004_000_000;

/// Bound on the centre of a moving object's box.
pub const CENTER_SPAN: i64 = 1_000_001_000_000;

/// Bound on the world coordinates of the tile faces that the sweeps report.
pub const SURFACE_SPAN: i64 = 8_100_000_000_000_000_000;

/// Extra vertical distance within which a one-way platform still catches a
/// falling object.
pub const PLATFORM_THRESHOLD: i64 = 2;

/// Some tile of row `row` between columns `c0` and `c1` is solid.
pub open spec fn blocked_in_row(t: &Terrain, row: int, c0: int, c1: int) -> bool {
    exists|c: int| c0 <= c <= c1 && #[trigger] t.obstacle(c, row)
}

/// Some tile of row `row` between columns `c0` and `c1` is a one-way platform.
pub open spec fn one_way_in_row(t: &Terrain, row: int, c0: int, c1: int) -> bool {
    exists|c: int| c0 <= c <= c1 && #[trigger] t.one_way(c, row)
}

/// Some tile of column `col` between rows `r0` and `r1` is solid.
pub open spec fn blocked_in_column(t: &Terrain, col: int, r0: int, r1: int) -> bool {
    exists|r: int| r0 <= r <= r1 && #[trigger] t.obstacle(col, r)
}

/// World y of the top face of the tiles of row `row`.
#[verifier::opaque]
pub open spec fn row_top(t: &Terrain, row: int) -> int {
    row * t.tile_size + t.tile_size / 2 + t.position.y
}

/// World y of the bottom face of the tiles of row `row`.
pub open spec fn row_bottom(t: &Terrain, row: int) -> int {
    row * t.tile_size - t.tile_size / 2 + t.position.y
}

/// World x of the right face of the tiles of column `col`.
pub open spec fn column_right(t: &Terrain, col: int) -> int {
    col * t.tile_size + t.tile_size / 2 + t.position.x
}

/// World x of the left face of the tiles of column `col`.
pub open spec fn column_left(t: &Terrain, col: int) -> int {
    col * t.tile_size - t.tile_size / 2 + t.position.x
}

/// What the bottom edge, running from x to x + w at height y, finds in row
/// `row`: a block (`Some(false)`), a one-way platform close enough below the
/// edge given the distance `fallen` this frame, in a row no higher than
/// `one_way_top` (`Some(true)`), or nothing.
pub open spec fn ground_in_row(
    t: &Terrain,
    row: int,
    x: int,
    w: int,
    y: int,
    fallen: int,
    one_way_top: int,
) -> Option<bool> {
    let c0 = t.tile_x(min(x, x + w));
    let c1 = t.tile_x(x + w);
    if blocked_in_row(t, row, c0, c1) {
        Some(false)
    } else if row <= one_way_top && one_way_in_row(t, row, c0, c1) && abs(y - row_top(t, row))
        <= PLATFORM_THRESHOLD + fallen {
        Some(true)
    } else {
        None
    }
}

/// Ground sweep: rows from `row` down to `end`; the bottom-left probe of
/// row `r` lies at fraction `(r - end) / dist` from the new corner `(nx, ny)`
/// to the old one `(ox, oy)`. The first row that holds ground gives its top
/// face and whether it is a one-way platform; one-way platforms count only
/// in rows no higher than `one_way_top`.
pub open spec fn ground_scan(
    t: &Terrain,
    row: int,
    end: int,
    dist: int,
    nx: int,
    ny: int,
    ox: int,
    oy: int,
    w: int,
    fallen: int,
    one_way_top: int,
) -> Option<(int, bool)>
    decreases row + 1 - end,
{
    if row < end {
        None
    } else {
        let x = lerp(nx, ox, row - end, dist);
        let y = lerp(ny, oy, row - end, dist);
        match ground_in_row(t, row, x, w, y, fallen, one_way_top) {
            Some(p) => Some((row_top(t, row), p)),
            None => ground_scan(t, row - 1, end, dist, nx, ny, ox, oy, w, fallen, one_way_top),
        }
    }
}

/// Ceiling sweep: rows from `row` up to `end`, the top-right probe of row
/// `r` at fraction `(end - r) / dist` from the new corner to the old one,
/// scanning `w` to the left of it. The first blocked row gives its bottom face.
pub open spec fn ceiling_scan(
    t: &Terrain,
    row: int,
    end: int,
    dist: int,
    nx: int,
    ny: int,
    ox: int,
    oy: int,
    w: int,
) -> Option<int>
    decreases end + 1 - row,
{
    if row > end {
        None
    } else {
        let x = lerp(nx, ox, end - row, dist);
        if blocked_in_row(t, row, t.tile_x(min(x - w, x)), t.tile_x(x)) {
            Some(row_bottom(t, row))
        } else {
            ceiling_scan(t, row + 1, end, dist, nx, ny, ox, oy, w)
        }
    }
}

/// Left wall sweep: columns from `col` down to `end`, the bottom-left probe
/// of column `c` at fraction `(c - end) / dist` from the new corner to the
/// old one, scanning `h` upward. The first blocked column gives its right face.
pub open spec fn left_wall_scan(
    t: &Terrain,
    col: int,
    end: int,
    dist: int,
    nx: int,
    ny: int,
    ox: int,
    oy: int,
    h: int,
) -> Option<int>
    decreases col + 1 - end,
{
    if col < end {
        None
    } else {
        let y = lerp(ny, oy, col - end, dist);
        if blocked_in_column(t, col, t.tile_y(y), t.tile_y(y + h)) {
            Some(column_right(t, col))
        } else {
            left_wall_scan(t, col - 1, end, dist, nx, ny, ox, oy, h)
        }
    }
}

/// Right wall sweep: columns from `col` up to `end`, the bottom-right probe
/// of column `c` at fraction `(end - c) / dist` from the new corner to the
/// old one, scanning `h` upward. The first blocked column gives its left face.
pub open spec fn right_wall_scan(
    t: &Terrain,
    col: int,
    end: int,
    dist: int,
    nx: int,
    ny: int,
    ox: int,
    oy: int,
    h: int,
) -> Option<int>
    decreases end + 1 - col,
{
    if col > end {
        None
    } else {
        let y = lerp(ny, oy, end - col, dist);
        if blocked_in_column(t, col, t.tile_y(y), t.tile_y(y + h)) {
            Some(column_left(t, col))
        } else {
            right_wall_scan(t, col + 1, end, dist, nx, ny, ox, oy, h)
        }
    }
}

fn obstacle_in_row(t: &Terrain, row: i64, c0: i64, c1: i64) -> (r: bool)
    requires
        t.wf(),
        -2 * PROBE_SPAN <= c0,
        c1 <= 2 * PROBE_SPAN,
    ensures
        r == blocked_in_row(t, row as int, c0 as int, c1 as int),
{
    let mut c = c0;
    while c <= c1
        invariant
            t.wf(),
            c0 <= c,
            c1 <= 2 * PROBE_SPAN,
            forall|k: int| c0 <= k < c ==> !#[trigger] t.obstacle(k, row as int),
        decreases c1 + 1 - c,
    {
        if t.is_obstacle(c, row) {
            return true;
        }
        c = c + 1;
    }
    false
}

fn one_way_in_row_exec(t: &Terrain, row: i64, c0: i64, c1: i64) -> (r: bool)
    requires
        t.wf(),
        -2 * PROBE_SPAN <= c0,
        c1 <= 2 * PROBE_SPAN,
    ensures
        r == one_way_in_row(t, row as int, c0 as int, c1 as int),
{
    let mut c = c0;
    while c <= c1
        invariant
            t.wf(),
            c0 <= c,
            c1 <= 2 * PROBE_SPAN,
            forall|k: int| c0 <= k < c ==> !#[trigger] t.one_way(k, row as int),
        decreases c1 + 1 - c,
    {
        if t.is_one_way_platform(c, row) {
            return true;
        }
        c = c + 1;
    }
    false
}

fn obstacle_in_column(t: &Terrain, col: i64, r0: i64, r1: i64) -> (r: bool)
    requires
        t.wf(),
        -2 * PROBE_SPAN <= r0,
        r1 <= 2 * PROBE_SPAN,
    ensures
        r == blocked_in_column(t, col as int, r0 as int, r1 as int),
{
    let mut r = r0;
    while r <= r1
        invariant
            t.wf(),
            r0 <= r,
            r1 <= 2 * PROBE_SPAN,
            forall|k: int| r0 <= k < r ==> !#[trigger] t.obstacle(col as int, k),
        decreases r1 + 1 - r,
    {
        if t.is_obstacle(col, r) {
            return true;
        }
        r = r + 1;
    }
    false
}

/// An object that moves through the terrain: its position, velocity and
/// acceleration now and at the previous frame, its bounding box, and its
/// contact with the terrain now and at the previous frame.
#[derive(Clone, Copy, Debug)]
pub struct MovingObject {
    pub old_position: Vector2,
    pub position: Vector2,
    pub old_accel: Vector2,
    pub accel: Vector2,
    pub old_velocity: Vector2,
    pub velocity: Vector2,
    pub aabb: AABB,
    pub pushed_right_wall: bool,
    pub pushes_right_wall: bool,
    pub pushed_left_wall: bool,
    pub pushes_left_wall: bool,
    pub was_on_ground: bool,
    pub on_ground: bool,
    pub on_platform: bool,
    pub was_at_ceiling: bool,
    pub at_ceiling: bool,
    pub cannot_go_left_frames: usize,
    pub cannot_go_right_frames: usize,
    pub frames_from_jump_start: i64,
}

pub open spec fn within(v: Vector2, bound: int) -> bool {
    -bound <= v.x <= bound && -bound <= v.y <= bound
}

impl MovingObject {
    pub open spec fn wf(&self) -> bool {
        &&& within(self.position, MAX_COORD as int)
        &&& within(self.old_position, MAX_COORD as int)
        &&& within(self.velocity, MAX_SPEED as int)
        &&& within(self.old_velocity, MAX_SPEED as int)
        &&& within(self.accel, MAX_ACCEL as int)
        &&& within(self.old_accel, MAX_ACCEL as int)
        &&& self.aabb.wf()
        &&& within(self.aabb.center, CENTER_SPAN as int)
    }

    /// What the ground sweep finds: the top face of the nearest ground row
    /// crossed by the bottom edge between the old and the new position
    /// (starting with the row that holds the old edge), and whether that
    /// ground is a one-way platform. A one-way platform in the row of the
    /// old edge counts only when the edge stays in that row, so that an
    /// object that dropped into a platform is not caught by it again.
    pub open spec fn ground_probe(&self, t: &Terrain) -> Option<(int, bool)> {
        let hx = self.aabb.half_x();
        let hy = self.aabb.half_y();
        let nx = self.position.x + self.aabb.offset.x - hx + 1;
        let ny = self.position.y + self.aabb.offset.y - hy - 1;
        let ox = self.old_position.x + self.aabb.offset.x - hx + 1;
        let oy = self.old_position.y + self.aabb.offset.y - hy - 1;
        let end = t.tile_y(ny);
        let beg = max(t.tile_y(oy), end);
        ground_scan(
            t,
            beg,
            end,
            max(beg - end, 1),
            nx,
            ny,
            ox,
            oy,
            2 * hx - 2,
            self.old_position.y - self.position.y,
            max(t.tile_y(oy) - 1, end),
        )
    }

    /// The rows and columns the ground sweep covers: the row of the old
    /// bottom edge, the row of the new one, and a column range holding every
    /// column under the edge anywhere between its old and new places.
    pub open spec fn ground_footprint(&self, t: &Terrain) -> (int, int, int, int) {
        let hx = self.aabb.half_x();
        let hy = self.aabb.half_y();
        let nx = self.position.x + self.aabb.offset.x - hx + 1;
        let ny = self.position.y + self.aabb.offset.y - hy - 1;
        let ox = self.old_position.x + self.aabb.offset.x - hx + 1;
        let oy = self.old_position.y + self.aabb.offset.y - hy - 1;
        (
            t.tile_y(oy),
            t.tile_y(ny),
            t.tile_x(min(nx, ox) - 2),
            t.tile_x(max(nx, ox) + max(2 * hx - 2, 0)),
        )
    }

    /// The columns and rows the right wall sweep covers: the column right
    /// of the old right edge, the one right of the new edge, and a row range
    /// holding every row along the edge anywhere between its old and new
    /// places.
    pub open spec fn right_wall_footprint(&self, t: &Terrain) -> (int, int, int, int) {
        let hx = self.aabb.half_x();
        let hy = self.aabb.half_y();
        let nx = self.position.x + self.aabb.offset.x + hx + 1;
        let ny = self.position.y + self.aabb.offset.y - hy;
        let ox = self.old_position.x + self.aabb.offset.x + hx + 1;
        let oy = self.old_position.y + self.aabb.offset.y - hy;
        (t.tile_x(ox), t.tile_x(nx), t.tile_y(min(ny, oy)), t.tile_y(max(ny, oy) + 2 * hy))
    }

    /// The columns and rows the left wall sweep covers, the mirror image of
    /// `right_wall_footprint`.
    pub open spec fn left_wall_footprint(&self, t: &Terrain) -> (int, int, int, int) {
        let hx = self.aabb.half_x();
        let hy = self.aabb.half_y();
        let nx = self.position.x + self.aabb.offset.x - hx - 1;
        let ny = self.position.y + self.aabb.offset.y - hy;
        let ox = self.old_position.x + self.aabb.offset.x - hx - 1;
        let oy = self.old_position.y + self.aabb.offset.y - hy;
        (t.tile_x(ox), t.tile_x(nx), t.tile_y(min(ny, oy)), t.tile_y(max(ny, oy) + 2 * hy))
    }

    /// What the ceiling sweep finds: the bottom face of the nearest blocked
    /// row crossed by the top edge, starting with the row that holds the
    /// old edge.
    pub open spec fn ceiling_probe(&self, t: &Terrain) -> Option<int> {
        let hx = self.aabb.half_x();
        let hy = self.aabb.half_y();
        let nx = self.position.x + self.aabb.offset.x + hx - 1;
        let ny = self.position.y + self.aabb.offset.y + hy + 1;
        let ox = self.old_position.x + self.aabb.offset.x + hx - 1;
        let oy = self.old_position.y + self.aabb.offset.y + hy + 1;
        let end = t.tile_y(ny);
        let beg = min(t.tile_y(oy), end);
        ceiling_scan(t, beg, end, max(end - beg, 1), nx, ny, ox, oy, 2 * hx - 2)
    }

    /// What the left wall sweep finds: the right face of the nearest blocked
    /// column crossed by the left edge, starting with the column that holds
    /// the old edge.
    pub open spec fn left_wall_probe(&self, t: &Terrain) -> Option<int> {
        let hx = self.aabb.half_x();
        let hy = self.aabb.half_y();
        let nx = self.position.x + self.aabb.offset.x - hx - 1;
        let ny = self.position.y + self.aabb.offset.y - hy;
        let ox = self.old_position.x + self.aabb.offset.x - hx - 1;
        let oy = self.old_position.y + self.aabb.offset.y - hy;
        let end = t.tile_x(nx);
        let beg = max(t.tile_x(ox), end);
        left_wall_scan(t, beg, end, max(beg - end, 1), nx, ny, ox, oy, 2 * hy)
    }

    /// What the right wall sweep finds: the left face of the nearest blocked
    /// column crossed by the right edge, starting with the column that holds
    /// the old edge.
    pub open spec fn right_wall_probe(&self, t: &Terrain) -> Option<int> {
        let hx = self.aabb.half_x();
        let hy = self.aabb.half_y();
        let nx = self.position.x + self.aabb.offset.x + hx + 1;
        let ny = self.position.y + self.aabb.offset.y - hy;
        let ox = self.old_position.x + self.aabb.offset.x + hx + 1;
        let oy = self.old_position.y + self.aabb.offset.y - hy;
        let end = t.tile_x(nx);
        let beg = min(t.tile_x(ox), end);
        right_wall_scan(t, beg, end, max(end - beg, 1), nx, ny, ox, oy, 2 * hy)
    }

    /// An object at rest at `position`, touching nothing.
    pub open spec fn at_rest(position: Vector2, aabb: AABB) -> MovingObject {
        MovingObject {
            old_position: position,
            position,
            old_accel: Vector2 { x: 0, y: 0 },
            accel: Vector2 { x: 0, y: 0 },
            old_velocity: Vector2 { x: 0, y: 0 },
            velocity: Vector2 { x: 0, y: 0 },
            aabb,
            pushed_right_wall: false,
            pushes_right_wall: false,
            pushed_left_wall: false,
            pushes_left_wall: false,
            was_on_ground: false,
            on_ground: false,
            on_platform: false,
            was_at_ceiling: false,
            at_ceiling: false,
            cannot_go_left_frames: 0,
            cannot_go_right_frames: 0,
            frames_from_jump_start: 0,
        }
    }

    /// A new object at rest at `position`, touching nothing.
    pub fn new(position: Vector2, aabb: AABB) -> (r: MovingObject)
        requires
            within(position, MAX_COORD as int),
            aabb.wf(),
            within(aabb.center, CENTER_SPAN as int),
        ensures
            r.wf(),
            r == MovingObject::at_rest(position, aabb),
            r.position == position,
            r.old_position == position,
            r.velocity == Vector2::new_spec(0, 0),
            r.old_velocity == Vector2::new_spec(0, 0),
            r.accel == Vector2::new_spec(0, 0),
            r.old_accel == Vector2::new_spec(0, 0),
            r.aabb == aabb,
            !r.pushed_right_wall && !r.pushes_right_wall,
            !r.pushed_left_wall && !r.pushes_left_wall,
            !r.was_on_ground && !r.on_ground && !r.on_platform,
            !r.was_at_ceiling && !r.at_ceiling,
            r.cannot_go_left_frames == 0,
            r.cannot_go_right_frames == 0,
            r.frames_from_jump_start == 0,
    {
        MovingObject {
            old_position: position,
            position,
            old_accel: Vector2 { x: 0, y: 0 },
            accel: Vector2 { x: 0, y: 0 },
            old_velocity: Vector2 { x: 0, y: 0 },
            velocity: Vector2 { x: 0, y: 0 },
            aabb,
            pushed_right_wall: false,
            pushes_right_wall: false,
            pushed_left_wall: false,
            pushes_left_wall: false,
            was_on_ground: false,
            on_ground: false,
            on_platform: false,
            was_at_ceiling: false,
            at_ceiling: false,
            cannot_go_left_frames: 0,
            cannot_go_right_frames: 0,
            frames_from_jump_start: 0,
        }
    }

    /// Looks for ground under the bottom edge, swept from the old position
    /// to the new one: rows are tried from the one under the old edge down
    /// to the one under the new edge, and within a row every column under
    /// the edge. A block is ground; a one-way platform is ground only below
    /// the old edge's row (or in it, when the edge stays there) and only if
    /// the edge is within `PLATFORM_THRESHOLD` of its top, widened by the
    /// distance fallen this frame. On success `ground_y` is
    /// the top face of that row and `on_platform` says whether it is a
    /// one-way platform; otherwise neither changes.
    pub fn has_ground(&mut self, ground_y: &mut i64, terrain: &Terrain) -> (r: bool)
        requires
            old(self).wf(),
            terrain.wf(),
        ensures
            r == old(self).ground_probe(terrain) is Some,
            r ==> old(self).ground_probe(terrain) == Some(
                (*final(ground_y) as int, final(self).on_platform),
            ),
            !r ==> *final(ground_y) == *old(ground_y) && final(self).on_platform == old(
                self,
            ).on_platform,
            r ==> -SURFACE_SPAN <= *final(ground_y) <= SURFACE_SPAN,
            *final(self) == (MovingObject { on_platform: final(self).on_platform, ..*old(self) }),
    {
        proof {
            self.aabb.lemma_wf_bounds();
        }
        let t = terrain;
        let hs = self.aabb.half_size();
        let nx = self.position.x + self.aabb.offset.x - hs.x + 1;
        let ny = self.position.y + self.aabb.offset.y - hs.y - 1;
        let ox = self.old_position.x + self.aabb.offset.x - hs.x + 1;
        let oy = self.old_position.y + self.aabb.offset.y - hs.y - 1;
        let end = t.get_tile_y_at_point(ny);
        let old_row = t.get_tile_y_at_point(oy);
        let beg = if old_row >= end { old_row } else { end };
        let one_way_top = if old_row - 1 >= end { old_row - 1 } else { end };
        let dist = if beg - end >= 1 { beg - end } else { 1 };
        let w = 2 * hs.x - 2;
        let fallen = self.old_position.y - self.position.y;
        let ghost scan = old(self).ground_probe(terrain);
        let mut row = beg;
        while row >= end
            invariant
                t.wf(),
                self.wf(),
                *self == *old(self),
                *ground_y == *old(ground_y),
                -2 * PROBE_SPAN <= end <= beg <= 2 * PROBE_SPAN,
                end - 1 <= row <= beg,
                dist == max(beg - end, 1),
                -CORNER_SPAN <= nx <= CORNER_SPAN,
                -CORNER_SPAN <= ny <= CORNER_SPAN,
                -CORNER_SPAN <= ox <= CORNER_SPAN,
                -CORNER_SPAN <= oy <= CORNER_SPAN,
                -2 <= w <= 2 * MAX_COLLISION_HALF,
                -2 * MAX_COORD <= fallen <= 2 * MAX_COORD,
                one_way_top == max(t.tile_y(oy as int) - 1, end as int),
                -2 * PROBE_SPAN - 1 <= one_way_top <= 2 * PROBE_SPAN,
                scan == ground_scan(t, row as int, end as int, dist as int, nx as int, ny as int, ox as int, oy as int, w as int, fallen as int, one_way_top as int),
                scan == old(self).ground_probe(terrain),
            decreases row + 1 - end,
        {
            let k = row - end;
            let x = lerp_coord(nx, ox, k, dist);
            let y = lerp_coord(ny, oy, k, dist);
            let x1 = x + w;
            let x0 = if x <= x1 { x } else { x1 };
            let c0 = t.get_tile_x_at_point(x0);
            let c1 = t.get_tile_x_at_point(x1);
            assert(-8_000_000_000_000_000_000 <= row * t.tile_size <= 8_000_000_000_000_000_000)
                by (nonlinear_arith)
                requires
                    -2 * PROBE_SPAN <= row <= 2 * PROBE_SPAN,
                    1 <= t.tile_size <= 1_000_000,
            ;
            let top = row * t.tile_size + t.tile_size / 2 + t.position.y;
            assert(top == row_top(t, row as int)) by {
                reveal(row_top);
            }
            if obstacle_in_row(t, row, c0, c1) {
                self.on_platform = false;
                *ground_y = top;
                return true;
            }
            if row <= one_way_top && one_way_in_row_exec(t, row, c0, c1) {
                let gap = if y >= top { y - top } else { top - y };
                if gap <= PLATFORM_THRESHOLD + fallen {
                    self.on_platform = true;
                    *ground_y = top;
                    return true;
                }
            }
            row = row - 1;
        }
        false
    }

    /// Looks for a blocked tile above the top edge, swept from the old
    /// position to the new one: rows from the one over the old edge up to
    /// the one over the new edge, every column under the edge. On success `ceiling_y` is the bottom face of that row; otherwise
    /// it is 0.
    pub fn has_ceiling(&self, ceiling_y: &mut i64, terrain: &Terrain) -> (r: bool)
        requires
            self.wf(),
            terrain.wf(),
        ensures
            r == self.ceiling_probe(terrain) is Some,
            r ==> self.ceiling_probe(terrain) == Some(*final(ceiling_y) as int),
            !r ==> *final(ceiling_y) == 0,
            -SURFACE_SPAN <= *final(ceiling_y) <= SURFACE_SPAN,
    {
        proof {
            self.aabb.lemma_wf_bounds();
        }
        *ceiling_y = 0;
        let t = terrain;
        let hs = self.aabb.half_size();
        let nx = self.position.x + self.aabb.offset.x + hs.x - 1;
        let ny = self.position.y + self.aabb.offset.y + hs.y + 1;
        let ox = self.old_position.x + self.aabb.offset.x + hs.x - 1;
        let oy = self.old_position.y + self.aabb.offset.y + hs.y + 1;
        let end = t.get_tile_y_at_point(ny);
        let old_row = t.get_tile_y_at_point(oy);
        let beg = if old_row <= end { old_row } else { end };
        let dist = if end - beg >= 1 { end - beg } else { 1 };
        let w = 2 * hs.x - 2;
        let ghost scan = self.ceiling_probe(terrain);
        let mut row = beg;
        while row <= end
            invariant
                t.wf(),
                self.wf(),
                -2 * PROBE_SPAN <= beg <= end <= 2 * PROBE_SPAN,
                -CORNER_SPAN <= nx <= CORNER_SPAN,
                -CORNER_SPAN <= ny <= CORNER_SPAN,
                -CORNER_SPAN <= ox <= CORNER_SPAN,
                -CORNER_SPAN <= oy <= CORNER_SPAN,
                beg <= row <= end + 1,
                dist == max(end - beg, 1),
                -2 <= w <= 2 * MAX_COLLISION_HALF,
                *ceiling_y == 0,
                scan == ceiling_scan(t, row as int, end as int, dist as int, nx as int, ny as int, ox as int, oy as int, w as int),
                scan == self.ceiling_probe(terrain),
            decreases end + 1 - row,
        {
            let k = end - row;
            let x = lerp_coord(nx, ox, k, dist);
            let x_left = x - w;
            let x0 = if x_left <= x { x_left } else { x };
            let c0 = t.get_tile_x_at_point(x0);
            let c1 = t.get_tile_x_at_point(x);
            if obstacle_in_row(t, row, c0, c1) {
                assert(-8_000_000_000_000_000_000 <= row * t.tile_size <= 8_000_000_000_000_000_000)
                    by (nonlinear_arith)
                    requires
                        -2 * PROBE_SPAN <= row <= 2 * PROBE_SPAN,
                        1 <= t.tile_size <= 1_000_000,
                ;
                *ceiling_y = row * t.tile_size - t.tile_size / 2 + t.position.y;
                return true;
            }
            row = row + 1;
        }
        false
    }

    /// Looks for a blocked tile left of the left edge, swept from the old
    /// position to the new one: columns from the one left of the old edge
    /// down to the one left of the new edge, every row along the edge. On success `wall_x` is the right face of that column; otherwise
    /// it is 0.
    pub fn collides_with_left_wall(&self, wall_x: &mut i64, terrain: &Terrain) -> (r: bool)
        requires
            self.wf(),
            terrain.wf(),
        ensures
            r == self.left_wall_probe(terrain) is Some,
            r ==> self.left_wall_probe(terrain) == Some(*final(wall_x) as int),
            !r ==> *final(wall_x) == 0,
            -SURFACE_SPAN <= *final(wall_x) <= SURFACE_SPAN,
    {
        proof {
            self.aabb.lemma_wf_bounds();
        }
        *wall_x = 0;
        let t = terrain;
        let hs = self.aabb.half_size();
        let nx = self.position.x + self.aabb.offset.x - hs.x - 1;
        let ny = self.position.y + self.aabb.offset.y - hs.y;
        let ox = self.old_position.x + self.aabb.offset.x - hs.x - 1;
        let oy = self.old_position.y + self.aabb.offset.y - hs.y;
        let end = t.get_tile_x_at_point(nx);
        let old_col = t.get_tile_x_at_point(ox);
        let beg = if old_col >= end { old_col } else { end };
        let dist = if beg - end >= 1 { beg - end } else { 1 };
        let h = 2 * hs.y;
        let ghost scan = self.left_wall_probe(terrain);
        let mut col = beg;
        while col >= end
            invariant
                t.wf(),
                self.wf(),
                -2 * PROBE_SPAN <= end <= beg <= 2 * PROBE_SPAN,
                -CORNER_SPAN <= nx <= CORNER_SPAN,
                -CORNER_SPAN <= ny <= CORNER_SPAN,
                -CORNER_SPAN <= ox <= CORNER_SPAN,
                -CORNER_SPAN <= oy <= CORNER_SPAN,
                end - 1 <= col <= beg,
                dist == max(beg - end, 1),
                0 <= h <= 2 * MAX_COLLISION_HALF,
                *wall_x == 0,
                scan == left_wall_scan(t, col as int, end as int, dist as int, nx as int, ny as int, ox as int, oy as int, h as int),
                scan == self.left_wall_probe(terrain),
            decreases col + 1 - end,
        {
            let k = col - end;
            let y = lerp_coord(ny, oy, k, dist);
            let r0 = t.get_tile_y_at_point(y);
            let r1 = t.get_tile_y_at_point(y + h);
            if obstacle_in_column(t, col, r0, r1) {
                assert(-8_000_000_000_000_000_000 <= col * t.tile_size <= 8_000_000_000_000_000_000)
                    by (nonlinear_arith)
                    requires
                        -2 * PROBE_SPAN <= col <= 2 * PROBE_SPAN,
                        1 <= t.tile_size <= 1_000_000,
                ;
                *wall_x = col * t.tile_size + t.tile_size / 2 + t.position.x;
                return true;
            }
            col = col - 1;
        }
        false
    }

    /// Looks for a blocked tile right of the right edge, swept from the old
    /// position to the new one: columns from the one right of the old edge
    /// up to the one right of the new edge, every row along the edge.
    /// On success `wall_x` is the left face of that column; otherwise it is 0.
    pub fn collides_with_right_wall(&self, wall_x: &mut i64, terrain: &Terrain) -> (r: bool)
        requires
            self.wf(),
            terrain.wf(),
        ensures
            r == self.right_wall_probe(terrain) is Some,
            r ==> self.right_wall_probe(terrain) == Some(*final(wall_x) as int),
            !r ==> *final(wall_x) == 0,
            -SURFACE_SPAN <= *final(wall_x) <= SURFACE_SPAN,
    {
        proof {
            self.aabb.lemma_wf_bounds();
        }
        *wall_x = 0;
        let t = terrain;
        let hs = self.aabb.half_size();
        let nx = self.position.x + self.aabb.offset.x + hs.x + 1;
        let ny = self.position.y + self.aabb.offset.y - hs.y;
        let ox = self.old_position.x + self.aabb.offset.x + hs.x + 1;
        let oy = self.old_position.y + self.aabb.offset.y - hs.y;
        let end = t.get_tile_x_at_point(nx);
        let old_col = t.get_tile_x_at_point(ox);
        let beg = if old_col <= end { old_col } else { end };
        let dist = if end - beg >= 1 { end - beg } else { 1 };
        let h = 2 * hs.y;
        let ghost scan = self.right_wall_probe(terrain);
        let mut col = beg;
        while col <= end
            invariant
                t.wf(),
                self.wf(),
                -2 * PROBE_SPAN <= beg <= end <= 2 * PROBE_SPAN,
                -CORNER_SPAN <= nx <= CORNER_SPAN,
                -CORNER_SPAN <= ny <= CORNER_SPAN,
                -CORNER_SPAN <= ox <= CORNER_SPAN,
                -CORNER_SPAN <= oy <= CORNER_SPAN,
                beg <= col <= end + 1,
                dist == max(end - beg, 1),
                0 <= h <= 2 * MAX_COLLISION_HALF,
                *wall_x == 0,
                scan == right_wall_scan(t, col as int, end as int, dist as int, nx as int, ny as int, ox as int, oy as int, h as int),
                scan == self.right_wall_probe(terrain),
            decreases end + 1 - col,
        {
            let k = end - col;
            let y = lerp_coord(ny, oy, k, dist);
            let r0 = t.get_tile_y_at_point(y);
            let r1 = t.get_tile_y_at_point(y + h);
            if obstacle_in_column(t, col, r0, r1) {
                assert(-8_000_000_000_000_000_000 <= col * t.tile_size <= 8_000_000_000_000_000_000)
                    by (nonlinear_arith)
                    requires
                        -2 * PROBE_SPAN <= col <= 2 * PROBE_SPAN,
                        1 <= t.tile_size <= 1_000_000,
                ;
                *wall_x = col * t.tile_size - t.tile_size / 2 + t.position.x;
                return true;
            }
            col = col + 1;
        }
        false
    }

    /// Start of a frame: the current state becomes the previous one, the
    /// velocity takes the acceleration over `dt` microseconds and the
    /// position the new velocity (each held within its bound), and the
    /// object is not on a platform.
    #[verifier::opaque]
    pub open spec fn begun(self, dt: int) -> MovingObject {
        let v = Vector2 {
            x: clamp(self.velocity.x + per_dt(self.accel.x as int, dt), MAX_SPEED as int) as i64,
            y: clamp(self.velocity.y + per_dt(self.accel.y as int, dt), MAX_SPEED as int) as i64,
        };
        let p = Vector2 {
            x: clamp(self.position.x + per_dt(v.x as int, dt), MAX_COORD as int) as i64,
            y: clamp(self.position.y + per_dt(v.y as int, dt), MAX_COORD as int) as i64,
        };
        MovingObject {
            old_position: self.position,
            old_velocity: self.velocity,
            old_accel: self.accel,
            was_on_ground: self.on_ground,
            was_at_ceiling: self.at_ceiling,
            pushed_left_wall: self.pushes_left_wall,
            pushed_right_wall: self.pushes_right_wall,
            velocity: v,
            position: p,
            on_platform: false,
            ..self
        }
    }

    /// Ground resolution: when not moving up and the ground sweep finds
    /// ground, the box's bottom is put on it and vertical motion stops.
    #[verifier::opaque]
    pub open spec fn landed(self, t: &Terrain) -> MovingObject {
        match self.ground_probe(t) {
            Some((gy, platform)) => if self.velocity.y <= 0 {
                MovingObject {
                    position: Vector2 {
                        y: clamp(gy + self.aabb.half_y() - self.aabb.offset.y, MAX_COORD as int) as i64,
                        ..self.position
                    },
                    velocity: Vector2 { y: 0, ..self.velocity },
                    on_ground: true,
                    on_platform: platform,
                    ..self
                }
            } else {
                MovingObject { on_ground: false, ..self }
            },
            None => MovingObject { on_ground: false, ..self },
        }
    }

    /// Left wall resolution: when not moving right and the left sweep finds
    /// a wall, leftward velocity and acceleration stop; the box is put
    /// against the wall only if it was not already past the wall's face.
    #[verifier::opaque]
    pub open spec fn stopped_left(self, t: &Terrain) -> MovingObject {
        match self.left_wall_probe(t) {
            Some(wx) if self.velocity.x <= 0 => {
                let snap = self.old_position.x - self.aabb.half_x() + self.aabb.offset.x >= wx;
                MovingObject {
                    position: if snap {
                        Vector2 {
                            x: clamp(wx + self.aabb.half_x() - self.aabb.offset.x, MAX_COORD as int) as i64,
                            ..self.position
                        }
                    } else {
                        self.position
                    },
                    pushes_left_wall: snap || self.pushes_left_wall,
                    velocity: Vector2 { x: max(self.velocity.x as int, 0) as i64, ..self.velocity },
                    accel: Vector2 { x: max(self.accel.x as int, 0) as i64, ..self.accel },
                    ..self
                }
            },
            _ => MovingObject { pushes_left_wall: false, ..self },
        }
    }

    /// Right wall resolution, the mirror image of the left one.
    #[verifier::opaque]
    pub open spec fn stopped_right(self, t: &Terrain) -> MovingObject {
        match self.right_wall_probe(t) {
            Some(wx) if self.velocity.x >= 0 => {
                let snap = self.old_position.x + self.aabb.half_x() + self.aabb.offset.x <= wx;
                MovingObject {
                    position: if snap {
                        Vector2 {
                            x: clamp(wx - self.aabb.half_x() - self.aabb.offset.x, MAX_COORD as int) as i64,
                            ..self.position
                        }
                    } else {
                        self.position
                    },
                    pushes_right_wall: snap || self.pushes_right_wall,
                    velocity: Vector2 { x: min(self.velocity.x as int, 0) as i64, ..self.velocity },
                    accel: Vector2 { x: min(self.accel.x as int, 0) as i64, ..self.accel },
                    ..self
                }
            },
            _ => MovingObject { pushes_right_wall: false, ..self },
        }
    }

    /// Ceiling resolution: when not moving down and the ceiling sweep finds
    /// a block, the box's top is put one unit below it and vertical motion stops.
    #[verifier::opaque]
    pub open spec fn bumped(self, t: &Terrain) -> MovingObject {
        match self.ceiling_probe(t) {
            Some(cy) if self.velocity.y >= 0 => MovingObject {
                position: Vector2 {
                    y: clamp(cy - self.aabb.half_y() - self.aabb.offset.y - 1, MAX_COORD as int) as i64,
                    ..self.position
                },
                velocity: Vector2 { y: 0, ..self.velocity },
                at_ceiling: true,
                ..self
            },
            _ => MovingObject { at_ceiling: false, ..self },
        }
    }

    /// The box's centre follows the position.
    pub open spec fn synced(self) -> MovingObject {
        MovingObject {
            aabb: AABB {
                center: Vector2 {
                    x: (self.position.x + self.aabb.offset.x) as i64,
                    y: (self.position.y + self.aabb.offset.y) as i64,
                },
                ..self.aabb
            },
            ..self
        }
    }

    /// One physics step of `dt` microseconds: integrate, then resolve
    /// ground, left wall, right wall and ceiling, in that order.
    #[verifier::opaque]
    pub open spec fn stepped(self, dt: int, t: &Terrain) -> MovingObject {
        self.begun(dt).landed(t).stopped_left(t).stopped_right(t).bumped(t).synced()
    }

    fn begin_step(&mut self, dt: u64)
        requires
            old(self).wf(),
            dt <= MAX_DT_MICROS,
        ensures
            *final(self) == old(self).begun(dt as int),
            final(self).wf(),
    {
        reveal(MovingObject::begun);
        self.old_position = self.position;
        self.old_velocity = self.velocity;
        self.old_accel = self.accel;
        self.was_on_ground = self.on_ground;
        self.was_at_ceiling = self.at_ceiling;
        self.pushed_left_wall = self.pushes_left_wall;
        self.pushed_right_wall = self.pushes_right_wall;
        let vx = clamp_i64(self.velocity.x + scale_by_dt(self.accel.x, dt), MAX_SPEED);
        let vy = clamp_i64(self.velocity.y + scale_by_dt(self.accel.y, dt), MAX_SPEED);
        self.velocity = Vector2 { x: vx, y: vy };
        let px = clamp_i64(self.position.x + scale_by_dt(vx, dt), MAX_COORD);
        let py = clamp_i64(self.position.y + scale_by_dt(vy, dt), MAX_COORD);
        self.position = Vector2 { x: px, y: py };
        self.on_platform = false;
    }

    fn resolve_ground(&mut self, terrain: &Terrain)
        requires
            old(self).wf(),
            terrain.wf(),
        ensures
            *final(self) == old(self).landed(terrain),
            final(self).wf(),
    {
        reveal(MovingObject::landed);
        let mut ground_y: i64 = 0;
        let mut grounded = false;
        if self.velocity.y <= 0 {
            grounded = self.has_ground(&mut ground_y, terrain);
        }
        if grounded {
            let hs = self.aabb.half_size();
            self.position.y = clamp_i64(ground_y + hs.y - self.aabb.offset.y, MAX_COORD);
            self.velocity.y = 0;
            self.on_ground = true;
        } else {
            self.on_ground = false;
        }
    }

    fn resolve_left_wall(&mut self, terrain: &Terrain)
        requires
            old(self).wf(),
            terrain.wf(),
        ensures
            *final(self) == old(self).stopped_left(terrain),
            final(self).wf(),
    {
        reveal(MovingObject::stopped_left);
        let mut left_x: i64 = 0;
        let mut left = false;
        if self.velocity.x <= 0 {
            left = self.collides_with_left_wall(&mut left_x, terrain);
        }
        if left {
            let hs = self.aabb.half_size();
            if self.old_position.x - hs.x + self.aabb.offset.x >= left_x {
                self.position.x = clamp_i64(left_x + hs.x - self.aabb.offset.x, MAX_COORD);
                self.pushes_left_wall = true;
            }
            if self.velocity.x < 0 {
                self.velocity.x = 0;
            }
            if self.accel.x < 0 {
                self.accel.x = 0;
            }
        } else {
            self.pushes_left_wall = false;
        }
    }

    fn resolve_right_wall(&mut self, terrain: &Terrain)
        requires
            old(self).wf(),
            terrain.wf(),
        ensures
            *final(self) == old(self).stopped_right(terrain),
            final(self).wf(),
    {
        reveal(MovingObject::stopped_right);
        let mut right_x: i64 = 0;
        let mut right = false;
        if self.velocity.x >= 0 {
            right = self.collides_with_right_wall(&mut right_x, terrain);
        }
        if right {
            let hs = self.aabb.half_size();
            if self.old_position.x + hs.x + self.aabb.offset.x <= right_x {
                self.position.x = clamp_i64(right_x - hs.x - self.aabb.offset.x, MAX_COORD);
                self.pushes_right_wall = true;
            }
            if self.velocity.x > 0 {
                self.velocity.x = 0;
            }
            if self.accel.x > 0 {
                self.accel.x = 0;
            }
        } else {
            self.pushes_right_wall = false;
        }
    }

    fn resolve_ceiling(&mut self, terrain: &Terrain)
        requires
            old(self).wf(),
            terrain.wf(),
        ensures
            *final(self) == old(self).bumped(terrain),
            final(self).wf(),
    {
        reveal(MovingObject::bumped);
        let mut ceiling_y: i64 = 0;
        let mut ceiling = false;
        if self.velocity.y >= 0 {
            ceiling = self.has_ceiling(&mut ceiling_y, terrain);
        }
        if ceiling {
            let hs = self.aabb.half_size();
            self.position.y = clamp_i64(ceiling_y - hs.y - self.aabb.offset.y - 1, MAX_COORD);
            self.velocity.y = 0;
            self.at_ceiling = true;
        } else {
            self.at_ceiling = false;
        }
    }

    /// Advances the object by `dt` microseconds against `terrain`.
    pub fn update_physics(&mut self, dt: u64, terrain: &Terrain)
        requires
            old(self).wf(),
            terrain.wf(),
            dt <= MAX_DT_MICROS,
        ensures
            *final(self) == old(self).stepped(dt as int, terrain),
            final(self).wf(),
    {
        reveal(MovingObject::stepped);
        self.begin_step(dt);
        self.resolve_ground(terrain);
        self.resolve_left_wall(terrain);
        self.resolve_right_wall(terrain);
        self.resolve_ceiling(terrain);
        proof {
            self.aabb.lemma_wf_bounds();
        }
        self.aabb.center = Vector2 {
            x: self.position.x + self.aabb.offset.x,
            y: self.position.y + self.aabb.offset.y,
        };
    }
}

} // verus!
