use vstd::prelude::*;

use crate::behavior::{Idle, Jumping};
use crate::ledge_grabbing::{ledge_scan, LedgeGrabbing, GRAB_LEDGE_END_Y, GRAB_LEDGE_TILE_OFFSET};
use crate::player::{PlayerInput, GRAVITY, JUMP_SPEED, MAX_FALLING_SPEED};
use crate::double_jumping::DoubleJumping;
use crate::geometry::{abs, lemma_lerp_between, lerp, min, max, per_dt, Vector2, MAX_COORD, MAX_DT_MICROS};
use crate::moving_object::{
    blocked_in_column, column_left, column_right, ground_in_row, ground_scan, left_wall_scan,
    right_wall_scan, row_top, MovingObject, PLATFORM_THRESHOLD,
};
use crate::player::Player;
use crate::state::{transitioned, Hook, State, Trans};
use crate::terrain::{Terrain, TileType};

verus! {

/// Every tile outside the grid is solid.
pub proof fn lemma_outside_is_obstacle(t: &Terrain, x: int, y: int)
    requires
        !t.in_grid(x, y),
    ensures
        t.obstacle(x, y),
{
}

/// An object moving up after integration neither lands nor stands on a
/// platform at the end of the step: one-way platforms never catch it from
/// below.
pub proof fn lemma_rising_never_lands(mv: MovingObject, dt: int, t: &Terrain)
    requires
        mv.begun(dt).velocity.y > 0,
    ensures
        !mv.stepped(dt, t).on_ground,
        !mv.stepped(dt, t).on_platform,
{
    reveal(MovingObject::stepped);
    reveal(MovingObject::begun);
    reveal(MovingObject::landed);
    reveal(MovingObject::stopped_left);
    reveal(MovingObject::stopped_right);
    reveal(MovingObject::bumped);
}

/// `Push` followed by `Pop` on a running machine gives back the same stack
/// and runs pause, start, stop and resume, in that order, with no other hook.
pub proof fn lemma_push_then_pop(stack: Seq<State>, s: State)
    requires
        stack.len() > 0,
    ensures
        ({
            let (r1, st1, h1) = transitioned(true, stack, Trans::Push(s));
            let (r2, st2, h2) = transitioned(r1, st1, Trans::Pop);
            &&& r2
            &&& st2 == stack
            &&& h1 + h2 == seq![
                Hook::Pause(stack.last()),
                Hook::Start(s),
                Hook::Stop(s),
                Hook::Resume(stack.last()),
            ]
        }),
{
    let (r1, st1, h1) = transitioned(true, stack, Trans::Push(s));
    assert(st1.drop_last() =~= stack);
    assert(h1 + seq![Hook::Stop(s), Hook::Resume(stack.last())] =~= seq![
        Hook::Pause(stack.last()),
        Hook::Start(s),
        Hook::Stop(s),
        Hook::Resume(stack.last()),
    ]);
}

/// `Switch` never pauses or resumes: it stops the top, if any, then starts
/// the new state.
pub proof fn lemma_switch_hooks(running: bool, stack: Seq<State>, s: State)
    ensures
        ({
            let (r, st, h) = transitioned(running, stack, Trans::Switch(s));
            &&& forall|i: int| 0 <= i < h.len() ==> !(#[trigger] h[i] is Pause) && !(h[i] is Resume)
            &&& running && stack.len() > 0 ==> h == seq![Hook::Stop(stack.last()), Hook::Start(s)]
        }),
{
}

/// The permission gives at most one jump: a second attempt right after the first
/// never jumps, and an armed permission jumps once.
pub proof fn lemma_one_extra_jump(dj: DoubleJumping)
    ensures
        !dj.consumed().0.consumed().1,
        dj.available ==> dj.consumed().1,
{
}

/// Nothing in the air re-arms the permission: the `Jumping` state's reaction to
/// intents leaves it disarmed if it was.
pub proof fn lemma_jumping_never_arms(p: Player)
    requires
        !p.dj.available,
    ensures
        !Jumping::events(p).0.dj.available,
{
}

proof fn lemma_faces_ordered(t: &Terrain, a: int, b: int)
    requires
        t.wf(),
        a <= b,
    ensures
        column_left(t, a) <= column_left(t, b),
        column_right(t, a) <= column_right(t, b),
        row_top(t, a) <= row_top(t, b),
{
    reveal(row_top);
    assert(a * t.tile_size <= b * t.tile_size) by (nonlinear_arith)
        requires
            a <= b,
            t.tile_size >= 1,
    ;
}

/// The right wall sweep skips no column: if the right edge, at the height
/// it has over column `c`, meets a block there, the sweep stops at the left
/// face of that column or of a nearer one.
pub proof fn lemma_right_sweep_stops_before(
    t: &Terrain,
    col: int,
    end: int,
    dist: int,
    nx: int,
    ny: int,
    ox: int,
    oy: int,
    h: int,
    c: int,
)
    requires
        t.wf(),
        col <= c <= end,
        blocked_in_column(
            t,
            c,
            t.tile_y(lerp(ny, oy, end - c, dist)),
            t.tile_y(lerp(ny, oy, end - c, dist) + h),
        ),
    ensures
        right_wall_scan(t, col, end, dist, nx, ny, ox, oy, h) matches Some(wx) && wx <= column_left(t, c),
    decreases c - col,
{
    lemma_faces_ordered(t, col, c);
    if col < c {
        let y = lerp(ny, oy, end - col, dist);
        if !blocked_in_column(t, col, t.tile_y(y), t.tile_y(y + h)) {
            lemma_right_sweep_stops_before(t, col + 1, end, dist, nx, ny, ox, oy, h, c);
        }
    }
}

/// The left wall sweep skips no column: if the left edge, at the height it
/// has over column `c`, meets a block there, the sweep stops at the right
/// face of that column or of a nearer one.
pub proof fn lemma_left_sweep_stops_before(
    t: &Terrain,
    col: int,
    end: int,
    dist: int,
    nx: int,
    ny: int,
    ox: int,
    oy: int,
    h: int,
    c: int,
)
    requires
        t.wf(),
        end <= c <= col,
        blocked_in_column(
            t,
            c,
            t.tile_y(lerp(ny, oy, c - end, dist)),
            t.tile_y(lerp(ny, oy, c - end, dist) + h),
        ),
    ensures
        left_wall_scan(t, col, end, dist, nx, ny, ox, oy, h) matches Some(wx) && wx >= column_right(t, c),
    decreases col - c,
{
    lemma_faces_ordered(t, c, col);
    if c < col {
        let y = lerp(ny, oy, col - end, dist);
        if !blocked_in_column(t, col, t.tile_y(y), t.tile_y(y + h)) {
            lemma_left_sweep_stops_before(t, col - 1, end, dist, nx, ny, ox, oy, h, c);
        }
    }
}

/// The ground sweep skips no row: if the bottom edge, where it crosses row
/// `r`, finds ground there, the sweep reports ground at the top face of
/// that row or of a higher one.
pub proof fn lemma_ground_sweep_stops_above(
    t: &Terrain,
    row: int,
    end: int,
    dist: int,
    nx: int,
    ny: int,
    ox: int,
    oy: int,
    w: int,
    fallen: int,
    one_way_top: int,
    r: int,
)
    requires
        t.wf(),
        end <= r <= row,
        ground_in_row(
            t,
            r,
            lerp(nx, ox, r - end, dist),
            w,
            lerp(ny, oy, r - end, dist),
            fallen,
            one_way_top,
        ) is Some,
    ensures
        ground_scan(t, row, end, dist, nx, ny, ox, oy, w, fallen, one_way_top) matches Some((gy, _)) && gy >= row_top(t, r),
    decreases row - r,
{
    lemma_faces_ordered(t, r, row);
    if r < row {
        let x = lerp(nx, ox, row - end, dist);
        let y = lerp(ny, oy, row - end, dist);
        if ground_in_row(t, row, x, w, y, fallen, one_way_top) is None {
            lemma_ground_sweep_stops_above(
                t,
                row - 1,
                end,
                dist,
                nx,
                ny,
                ox,
                oy,
                w,
                fallen,
                one_way_top,
                r,
            );
        }
    }
}

/// A wall found by the right sweep stops an object moving right: its right
/// edge ends the step on the wall's face, its horizontal motion is gone and
/// it pushes the wall; the ceiling resolution after it leaves that alone.
pub proof fn lemma_right_wall_stops(mv: MovingObject, t: &Terrain, wx: int)
    requires
        mv.velocity.x >= 0,
        mv.right_wall_probe(t) == Some(wx),
        mv.old_position.x + mv.aabb.half_x() + mv.aabb.offset.x <= wx,
        -MAX_COORD <= wx - mv.aabb.half_x() - mv.aabb.offset.x <= MAX_COORD,
    ensures
        mv.stopped_right(t).position.x + mv.aabb.half_x() + mv.aabb.offset.x == wx,
        mv.stopped_right(t).bumped(t).position.x == mv.stopped_right(t).position.x,
        mv.stopped_right(t).velocity.x == 0,
        mv.stopped_right(t).pushes_right_wall,
{
    reveal(MovingObject::stopped_right);
    reveal(MovingObject::bumped);
}

/// A wall found by the left sweep stops an object moving left, the mirror
/// image of the right wall.
pub proof fn lemma_left_wall_stops(mv: MovingObject, t: &Terrain, wx: int)
    requires
        mv.velocity.x <= 0,
        mv.left_wall_probe(t) == Some(wx),
        mv.old_position.x - mv.aabb.half_x() + mv.aabb.offset.x >= wx,
        -MAX_COORD <= wx + mv.aabb.half_x() - mv.aabb.offset.x <= MAX_COORD,
    ensures
        mv.stopped_left(t).position.x - mv.aabb.half_x() + mv.aabb.offset.x == wx,
        mv.stopped_left(t).velocity.x == 0,
        mv.stopped_left(t).pushes_left_wall,
{
    reveal(MovingObject::stopped_left);
}

/// Ground found by the sweep under an object that is not moving up puts the
/// bottom of its box on the ground's top face and stops it vertically.
pub proof fn lemma_landing_on_surface(mv: MovingObject, t: &Terrain, gy: int, platform: bool)
    requires
        mv.velocity.y <= 0,
        mv.ground_probe(t) == Some((gy, platform)),
        -MAX_COORD <= gy + mv.aabb.half_y() - mv.aabb.offset.y <= MAX_COORD,
    ensures
        mv.landed(t).position.y - mv.aabb.half_y() + mv.aabb.offset.y == gy,
        mv.landed(t).velocity.y == 0,
        mv.landed(t).on_ground,
        mv.landed(t).on_platform == platform,
{
    reveal(MovingObject::landed);
}

/// A jump pressed by an actor standing on the ground pushes `Jumping` with
/// the jump speed, and the first physics step in the air (of at most half a
/// second, with no vertical acceleration of its own) leaves the ground.
pub proof fn lemma_jump_leaves_ground(p: Player, dt: int, t: &Terrain)
    requires
        p.mv.on_ground,
        p.input.jump,
        !p.input.attack,
        p.mv.accel.y == 0,
        0 <= dt <= 500_000,
    ensures
        Idle::events(p).1 == Trans::Push(State::Jumping(Jumping)),
        Idle::events(p).0.mv.velocity.y == JUMP_SPEED,
        Jumping::started(Idle::events(p).0).mv.velocity.y == JUMP_SPEED,
        !Jumping::updated(Jumping::started(Idle::events(p).0), dt, t).0.mv.on_ground,
{
    let q = Jumping::started(Idle::events(p).0);
    assert(3000 * dt / 1_000_000 <= 1500) by (nonlinear_arith)
        requires
            0 <= dt <= 500_000,
    ;
    let vy = max(q.mv.velocity.y + per_dt(GRAVITY as int, dt), MAX_FALLING_SPEED as int);
    let up = Player {
        mv: MovingObject { velocity: Vector2 { y: vy as i64, ..q.mv.velocity }, ..q.mv },
        ..q
    };
    reveal(MovingObject::begun);
    assert(up.mv.begun(dt).velocity.y > 0);
    lemma_rising_never_lands(up.mv, dt, t);
    reveal(LedgeGrabbing::grabbed);
}

proof fn lemma_rows_around_top(t: &Terrain, row: int, v: int)
    requires
        t.wf(),
        t.tile_size % 2 == 0,
    ensures
        row_top(t, row) - t.tile_size <= v < row_top(t, row) ==> t.tile_y(v) == row,
        row_top(t, row) <= v < row_top(t, row) + t.tile_size ==> t.tile_y(v) == row + 1,
{
    reveal(row_top);
    let size = t.tile_size as int;
    let n = v - t.position.y + size / 2;
    if row_top(t, row) - size <= v < row_top(t, row) {
        vstd::arithmetic::div_mod::lemma_fundamental_div_mod_converse_div(
            n,
            size,
            row,
            v - row_top(t, row) + size,
        );
    }
    if row_top(t, row) <= v < row_top(t, row) + size {
        assert((row + 1) * size == row * size + size) by (nonlinear_arith);
        vstd::arithmetic::div_mod::lemma_fundamental_div_mod_converse_div(
            n,
            size,
            row + 1,
            v - row_top(t, row),
        );
    }
}

/// On a new wall contact, a ledge whose lip (the top face of the wall's
/// highest block in the grab column) lies from one unit below to four units
/// above the grab corner is grabbed, and that block is remembered.
pub proof fn lemma_ledge_in_window_is_grabbed(
    lg: LedgeGrabbing,
    mv: MovingObject,
    pi: PlayerInput,
    t: &Terrain,
    row: int,
)
    requires
        t.wf(),
        t.tile_size % 2 == 0,
        t.tile_size >= 8,
        LedgeGrabbing::attempts(&mv, &pi),
        !((mv.pushed_left_wall && mv.pushes_left_wall) || (mv.pushed_right_wall
            && mv.pushes_right_wall)),
        t.obstacle(LedgeGrabbing::window(&mv, t).0, row),
        !t.obstacle(LedgeGrabbing::window(&mv, t).0, row + 1),
        row_top(t, row) - 4 <= LedgeGrabbing::window(&mv, t).3 <= row_top(t, row) + 1,
    ensures
        LedgeGrabbing::found(&mv, t) == Some(row + 1),
        lg.grabbed(mv, pi, t).2,
        lg.grabbed(mv, pi, t).0.ledge_tile == (
            LedgeGrabbing::window(&mv, t).0 as i64,
            row as i64,
        ),
{
    let (col, bottom, top, cy) = LedgeGrabbing::window(&mv, t);
    lemma_rows_around_top(t, row, cy - GRAB_LEDGE_END_Y);
    lemma_rows_around_top(t, row, cy - GRAB_LEDGE_TILE_OFFSET);
    assert(bottom == row && top == row + 1);
    reveal_with_fuel(ledge_scan, 3);
    reveal(LedgeGrabbing::grabbed);
}

/// On a new wall contact, the same grab corner misses a ledge whose lip is
/// one tile lower.
pub proof fn lemma_ledge_one_tile_lower_is_missed(
    mv: MovingObject,
    pi: PlayerInput,
    t: &Terrain,
    row: int,
)
    requires
        t.wf(),
        t.tile_size % 2 == 0,
        t.tile_size >= 8,
        !((mv.pushed_left_wall && mv.pushes_left_wall) || (mv.pushed_right_wall
            && mv.pushes_right_wall)),
        t.obstacle(LedgeGrabbing::window(&mv, t).0, row - 1),
        !t.obstacle(LedgeGrabbing::window(&mv, t).0, row),
        !t.obstacle(LedgeGrabbing::window(&mv, t).0, row + 1),
        row_top(t, row) - 4 <= LedgeGrabbing::window(&mv, t).3 <= row_top(t, row) + 1,
    ensures
        LedgeGrabbing::found(&mv, t) is None,
{
    let (col, bottom, top, cy) = LedgeGrabbing::window(&mv, t);
    lemma_rows_around_top(t, row, cy - GRAB_LEDGE_END_Y);
    lemma_rows_around_top(t, row, cy - GRAB_LEDGE_TILE_OFFSET);
    assert(bottom == row && top == row + 1);
    assert(row_top(t, row - 1) == row_top(t, row) - t.tile_size) by {
        reveal(row_top);
        assert((row - 1) * t.tile_size == row * t.tile_size - t.tile_size) by (nonlinear_arith);
    }
    reveal_with_fuel(ledge_scan, 3);
}

proof fn lemma_scan_stays_below(
    t: &Terrain,
    row: int,
    end: int,
    dist: int,
    nx: int,
    ny: int,
    ox: int,
    oy: int,
    w: int,
    fallen: int,
    one_way_top: int,
)
    requires
        t.wf(),
    ensures
        ground_scan(t, row, end, dist, nx, ny, ox, oy, w, fallen, one_way_top) matches Some((gy, _)) ==> gy
            <= row_top(t, row),
    decreases row + 1 - end,
{
    if row >= end {
        lemma_scan_stays_below(t, row - 1, end, dist, nx, ny, ox, oy, w, fallen, one_way_top);
        lemma_faces_ordered(t, row - 1, row);
    }
}

/// Dropping through a one-way platform: an object whose box bottom is
/// `2 * PLATFORM_THRESHOLD` below the platform's top, and which does not
/// move up this step, is not caught by that platform again.
pub proof fn lemma_dropped_object_passes_platform(mv: MovingObject, dt: int, t: &Terrain, row: int)
    requires
        mv.wf(),
        t.wf(),
        t.tile_size % 2 == 0,
        t.tile_size >= 8,
        0 <= dt <= MAX_DT_MICROS,
        mv.velocity.y <= 0,
        mv.accel.y <= 0,
        mv.position.y + mv.aabb.offset.y - mv.aabb.half_y() == row_top(t, row) - 2
            * PLATFORM_THRESHOLD,
    ensures
        mv.begun(dt).ground_probe(t) != Some((row_top(t, row), true)),
{
    reveal(MovingObject::begun);
    let b = mv.begun(dt);
    let hx = b.aabb.half_x();
    let hy = b.aabb.half_y();
    assert(b.aabb == mv.aabb);
    assert(b.old_position == mv.position);
    let va = per_dt(mv.accel.y as int, dt);
    assert(va <= 0) by {
        assert((-mv.accel.y) * dt / 1_000_000 >= 0) by (nonlinear_arith)
            requires
                -mv.accel.y >= 0,
                dt >= 0,
        ;
    }
    assert(b.velocity.y <= 0);
    assert(per_dt(b.velocity.y as int, dt) <= 0) by {
        if b.velocity.y < 0 {
            assert((-b.velocity.y) * dt / 1_000_000 >= 0) by (nonlinear_arith)
                requires
                    -b.velocity.y >= 0,
                    dt >= 0,
            ;
        } else {
            assert(b.velocity.y * dt == 0) by (nonlinear_arith)
                requires
                    b.velocity.y == 0,
            ;
        }
    }
    assert(b.position.y <= b.old_position.y);
    let nx = b.position.x + b.aabb.offset.x - hx + 1;
    let ny = b.position.y + b.aabb.offset.y - hy - 1;
    let ox = b.old_position.x + b.aabb.offset.x - hx + 1;
    let oy = b.old_position.y + b.aabb.offset.y - hy - 1;
    let fallen = b.old_position.y - b.position.y;
    assert(oy == row_top(t, row) - 5);
    lemma_rows_around_top(t, row, oy);
    assert(t.tile_y(oy) == row);
    let end = t.tile_y(ny);
    vstd::arithmetic::div_mod::lemma_div_is_ordered(
        ny - t.position.y + t.tile_size / 2,
        oy - t.position.y + t.tile_size / 2,
        t.tile_size as int,
    );
    assert(end <= row);
    let dist = max(row - end, 1);
    let top = max(row - 1, end);
    let w = 2 * hx - 2;
    lemma_scan_stays_below(t, row - 1, end, dist, nx, ny, ox, oy, w, fallen, top);
    assert(row_top(t, row - 1) < row_top(t, row)) by {
        reveal(row_top);
        assert((row - 1) * t.tile_size < row * t.tile_size) by (nonlinear_arith)
            requires
                t.tile_size >= 1,
        ;
    }
    if end == row {
        assert(dist == 1);
        assert(2 * (oy - ny) * 0 == 0 && 2 * (ox - nx) * 0 == 0) by (nonlinear_arith);
        assert(2 * (oy - ny) * 0 + 1 == 1 && 2 * (ox - nx) * 0 + 1 == 1) by (nonlinear_arith);
        vstd::arithmetic::div_mod::lemma_fundamental_div_mod_converse_div(1, 2, 0, 1);
        assert(lerp(ny, oy, 0, 1) == ny);
        assert(lerp(nx, ox, 0, 1) == nx);
        assert(ny == row_top(t, row) - 5 - fallen);
        assert(abs(ny - row_top(t, row)) > PLATFORM_THRESHOLD + fallen);
        assert(ground_scan(t, row - 1, end, dist, nx, ny, ox, oy, w, fallen, top) is None);
    }
}

proof fn lemma_tile_x_ordered(t: &Terrain, a: int, b: int)
    requires
        t.wf(),
        a <= b,
    ensures
        t.tile_x(a) <= t.tile_x(b),
{
    vstd::arithmetic::div_mod::lemma_div_is_ordered(
        a - t.position.x + t.tile_size / 2,
        b - t.position.x + t.tile_size / 2,
        t.tile_size as int,
    );
}

proof fn lemma_scan_reaches_row(
    t: &Terrain,
    row: int,
    end: int,
    dist: int,
    nx: int,
    ny: int,
    ox: int,
    oy: int,
    w: int,
    fallen: int,
    one_way_top: int,
    r: int,
)
    requires
        t.wf(),
        end <= r <= row,
        dist >= 1,
        row - end <= dist,
        w >= -2,
        forall|c: int, q: int|
            r < q <= row && t.tile_x(min(nx, ox) - 2) <= c <= t.tile_x(max(nx, ox) + max(w, 0))
                ==> #[trigger] t.tile(c, q) == TileType::Empty,
        forall|c: int|
            t.tile_x(min(nx, ox) - 2) <= c <= t.tile_x(max(nx, ox) + max(w, 0)) ==> #[trigger] t.obstacle(
                c,
                r,
            ),
    ensures
        ground_scan(t, row, end, dist, nx, ny, ox, oy, w, fallen, one_way_top) == Some(
            (row_top(t, r), false),
        ),
    decreases row - r,
{
    let x = lerp(nx, ox, row - end, dist);
    lemma_lerp_between(nx, ox, row - end, dist);
    let lo = if x <= x + w { x } else { x + w };
    lemma_tile_x_ordered(t, min(nx, ox) - 2, lo);
    lemma_tile_x_ordered(t, x + w, max(nx, ox) + max(w, 0));
    lemma_tile_x_ordered(t, lo, x + w);
    let c0 = t.tile_x(lo);
    let c1 = t.tile_x(x + w);
    if row > r {
        assert forall|c: int| c0 <= c <= c1 implies !#[trigger] t.obstacle(c, row) && !t.one_way(
            c,
            row,
        ) by {
            assert(t.tile(c, row) == TileType::Empty);
        }
        lemma_scan_reaches_row(t, row - 1, end, dist, nx, ny, ox, oy, w, fallen, one_way_top, r);
    } else {
        assert(t.obstacle(c0, r));
    }
}

/// Landing on a block row, from the grid itself: when the bottom edge
/// falls from the row `old_row` of its old place to row `end` of its new
/// place, every tile of row `r` (between them) under the swept edge is a
/// block and every tile above it up to `old_row` is empty, the object
/// ends the step on the ground, not on a platform and with no vertical
/// speed, and ground resolution puts the bottom of its box exactly on
/// row `r`'s top face, whatever the length of the step.
pub proof fn lemma_lands_on_block_row(mv: MovingObject, dt: int, t: &Terrain, r: int)
    requires
        mv.wf(),
        t.wf(),
        0 <= dt <= MAX_DT_MICROS,
        mv.begun(dt).velocity.y <= 0,
        ({
            let (old_row, end, c0, c1) = mv.begun(dt).ground_footprint(t);
            &&& end <= r <= old_row
            &&& forall|c: int, q: int|
                r < q <= old_row && c0 <= c <= c1 ==> #[trigger] t.tile(c, q) == TileType::Empty
            &&& forall|c: int| c0 <= c <= c1 ==> #[trigger] t.obstacle(c, r)
        }),
        -MAX_COORD <= row_top(t, r) + mv.aabb.half_y() - mv.aabb.offset.y <= MAX_COORD,
    ensures
        mv.begun(dt).ground_probe(t) == Some((row_top(t, r), false)),
        mv.begun(dt).landed(t).position.y - mv.aabb.half_y() + mv.aabb.offset.y == row_top(t, r),
        mv.stepped(dt, t).on_ground,
        !mv.stepped(dt, t).on_platform,
        mv.stepped(dt, t).velocity.y == 0,
        !mv.stepped(dt, t).at_ceiling ==> mv.stepped(dt, t).position.y - mv.aabb.half_y()
            + mv.aabb.offset.y == row_top(t, r),
{
    reveal(MovingObject::begun);
    let b = mv.begun(dt);
    assert(b.aabb == mv.aabb);
    b.aabb.lemma_wf_bounds();
    let hx = b.aabb.half_x();
    let hy = b.aabb.half_y();
    let nx = b.position.x + b.aabb.offset.x - hx + 1;
    let ny = b.position.y + b.aabb.offset.y - hy - 1;
    let ox = b.old_position.x + b.aabb.offset.x - hx + 1;
    let oy = b.old_position.y + b.aabb.offset.y - hy - 1;
    let end = t.tile_y(ny);
    let beg = max(t.tile_y(oy), end);
    lemma_scan_reaches_row(
        t,
        beg,
        end,
        max(beg - end, 1),
        nx,
        ny,
        ox,
        oy,
        2 * hx - 2,
        b.old_position.y - b.position.y,
        max(t.tile_y(oy) - 1, end),
        r,
    );
    lemma_landing_on_surface(b, t, row_top(t, r), false);
    reveal(MovingObject::stepped);
    reveal(MovingObject::landed);
    reveal(MovingObject::stopped_left);
    reveal(MovingObject::stopped_right);
    reveal(MovingObject::bumped);
}

proof fn lemma_scan_skips_empty_rows(
    t: &Terrain,
    row: int,
    end: int,
    dist: int,
    nx: int,
    ny: int,
    ox: int,
    oy: int,
    w: int,
    fallen: int,
    one_way_top: int,
    r: int,
)
    requires
        t.wf(),
        end <= r <= row,
        dist >= 1,
        row - end <= dist,
        w >= -2,
        forall|c: int, q: int|
            r < q <= row && t.tile_x(min(nx, ox) - 2) <= c <= t.tile_x(max(nx, ox) + max(w, 0))
                ==> #[trigger] t.tile(c, q) == TileType::Empty,
    ensures
        ground_scan(t, row, end, dist, nx, ny, ox, oy, w, fallen, one_way_top) == ground_scan(
            t,
            r,
            end,
            dist,
            nx,
            ny,
            ox,
            oy,
            w,
            fallen,
            one_way_top,
        ),
    decreases row - r,
{
    if row > r {
        let x = lerp(nx, ox, row - end, dist);
        lemma_lerp_between(nx, ox, row - end, dist);
        let lo = if x <= x + w { x } else { x + w };
        lemma_tile_x_ordered(t, min(nx, ox) - 2, lo);
        lemma_tile_x_ordered(t, x + w, max(nx, ox) + max(w, 0));
        let c0 = t.tile_x(lo);
        let c1 = t.tile_x(x + w);
        assert forall|c: int| c0 <= c <= c1 implies !#[trigger] t.obstacle(c, row) && !t.one_way(
            c,
            row,
        ) by {
            assert(t.tile(c, row) == TileType::Empty);
        }
        lemma_scan_skips_empty_rows(t, row - 1, end, dist, nx, ny, ox, oy, w, fallen, one_way_top, r);
    }
}

/// Landing on a one-way platform from above, from the grid itself: when
/// the box's bottom starts above the top face of row `r` and ends the step
/// at or below it, every tile of row `r` under the swept edge is a one-way
/// platform and every tile above it up to the old edge's row is empty, the
/// object ends the step on the ground and on a platform, with no vertical
/// speed, its bottom put on row `r`'s top face by ground resolution (and
/// still there at the end unless a ceiling stopped it).
pub proof fn lemma_lands_on_one_way_row(mv: MovingObject, dt: int, t: &Terrain, r: int)
    requires
        mv.wf(),
        t.wf(),
        0 <= dt <= MAX_DT_MICROS,
        mv.begun(dt).velocity.y <= 0,
        t.tile_size % 2 == 0,
        mv.position.y + mv.aabb.offset.y - mv.aabb.half_y() > row_top(t, r),
        mv.begun(dt).position.y + mv.aabb.offset.y - mv.aabb.half_y() <= row_top(t, r),
        ({
            let (old_row, end, c0, c1) = mv.begun(dt).ground_footprint(t);
            &&& forall|c: int, q: int|
                r < q <= old_row && c0 <= c <= c1 ==> #[trigger] t.tile(c, q) == TileType::Empty
            &&& forall|c: int| c0 <= c <= c1 ==> #[trigger] t.tile(c, r) == TileType::OneWay
        }),
        -MAX_COORD <= row_top(t, r) + mv.aabb.half_y() - mv.aabb.offset.y <= MAX_COORD,
    ensures
        mv.begun(dt).ground_probe(t) == Some((row_top(t, r), true)),
        mv.begun(dt).landed(t).position.y - mv.aabb.half_y() + mv.aabb.offset.y == row_top(t, r),
        mv.stepped(dt, t).on_ground,
        mv.stepped(dt, t).on_platform,
        mv.stepped(dt, t).velocity.y == 0,
        !mv.stepped(dt, t).at_ceiling ==> mv.stepped(dt, t).position.y - mv.aabb.half_y()
            + mv.aabb.offset.y == row_top(t, r),
{
    reveal(MovingObject::begun);
    let b = mv.begun(dt);
    assert(b.aabb == mv.aabb);
    assert(b.old_position == mv.position);
    b.aabb.lemma_wf_bounds();
    let hx = b.aabb.half_x();
    let hy = b.aabb.half_y();
    let nx = b.position.x + b.aabb.offset.x - hx + 1;
    let ny = b.position.y + b.aabb.offset.y - hy - 1;
    let ox = b.old_position.x + b.aabb.offset.x - hx + 1;
    let oy = b.old_position.y + b.aabb.offset.y - hy - 1;
    let fallen = b.old_position.y - b.position.y;
    let w = 2 * hx - 2;
    let top = row_top(t, r);
    assert(ny <= top - 1 && oy >= top);
    let old_row = t.tile_y(oy);
    let end = t.tile_y(ny);
    assert(old_row >= r + 1) by {
        vstd::arithmetic::div_mod::lemma_div_is_ordered(
            top - t.position.y + t.tile_size / 2,
            oy - t.position.y + t.tile_size / 2,
            t.tile_size as int,
        );
        assert(t.tile_y(top) == r + 1) by {
            reveal(row_top);
            assert((r + 1) * t.tile_size == r * t.tile_size + t.tile_size) by (nonlinear_arith);
            vstd::arithmetic::div_mod::lemma_fundamental_div_mod_converse_div(
                top - t.position.y + t.tile_size / 2,
                t.tile_size as int,
                r + 1,
                0,
            );
        }
    }
    assert(end <= r) by {
        vstd::arithmetic::div_mod::lemma_div_is_ordered(
            ny - t.position.y + t.tile_size / 2,
            top - 1 - t.position.y + t.tile_size / 2,
            t.tile_size as int,
        );
        assert(t.tile_y(top - 1) == r) by {
            reveal(row_top);
            assert((r + 1) * t.tile_size == r * t.tile_size + t.tile_size) by (nonlinear_arith);
            vstd::arithmetic::div_mod::lemma_fundamental_div_mod_converse_div(
                top - 1 - t.position.y + t.tile_size / 2,
                t.tile_size as int,
                r,
                t.tile_size - 1,
            );
        }
    }
    let beg = max(old_row, end);
    let dist = max(beg - end, 1);
    let one_way_top = max(old_row - 1, end);
    lemma_scan_skips_empty_rows(t, beg, end, dist, nx, ny, ox, oy, w, fallen, one_way_top, r);
    let x = lerp(nx, ox, r - end, dist);
    let y = lerp(ny, oy, r - end, dist);
    lemma_lerp_between(nx, ox, r - end, dist);
    lemma_lerp_between(ny, oy, r - end, dist);
    let lo = if x <= x + w { x } else { x + w };
    lemma_tile_x_ordered(t, min(nx, ox) - 2, lo);
    lemma_tile_x_ordered(t, x + w, max(nx, ox) + max(w, 0));
    lemma_tile_x_ordered(t, lo, x + w);
    let c0 = t.tile_x(lo);
    let c1 = t.tile_x(x + w);
    assert forall|c: int| c0 <= c <= c1 implies !#[trigger] t.obstacle(c, r) by {
        assert(t.tile(c, r) == TileType::OneWay);
    }
    assert(t.one_way(c0, r));
    assert(abs(y - top) <= PLATFORM_THRESHOLD + fallen);
    assert(ground_in_row(t, r, x, w, y, fallen, one_way_top) == Some(true));
    lemma_landing_on_surface(b, t, top, true);
    reveal(MovingObject::stepped);
    reveal(MovingObject::landed);
    reveal(MovingObject::stopped_left);
    reveal(MovingObject::stopped_right);
    reveal(MovingObject::bumped);
}

proof fn lemma_tile_y_ordered(t: &Terrain, a: int, b: int)
    requires
        t.wf(),
        a <= b,
    ensures
        t.tile_y(a) <= t.tile_y(b),
{
    vstd::arithmetic::div_mod::lemma_div_is_ordered(
        a - t.position.y + t.tile_size / 2,
        b - t.position.y + t.tile_size / 2,
        t.tile_size as int,
    );
}

/// Column `k` of the sweep: the rows its edge spans lie in `[r0, r1]`.
proof fn lemma_column_rows_inside(t: &Terrain, ny: int, oy: int, k: int, dist: int, h: int)
    requires
        t.wf(),
        dist >= 1,
        0 <= k <= dist,
        h >= 0,
    ensures
        t.tile_y(min(ny, oy)) <= t.tile_y(lerp(ny, oy, k, dist)),
        t.tile_y(lerp(ny, oy, k, dist)) <= t.tile_y(lerp(ny, oy, k, dist) + h),
        t.tile_y(lerp(ny, oy, k, dist) + h) <= t.tile_y(max(ny, oy) + h),
{
    lemma_lerp_between(ny, oy, k, dist);
    let y = lerp(ny, oy, k, dist);
    lemma_tile_y_ordered(t, min(ny, oy), y);
    lemma_tile_y_ordered(t, y, y + h);
    lemma_tile_y_ordered(t, y + h, max(ny, oy) + h);
}

proof fn lemma_right_scan_hits(
    t: &Terrain,
    col: int,
    end: int,
    dist: int,
    nx: int,
    ny: int,
    ox: int,
    oy: int,
    h: int,
    c: int,
)
    requires
        t.wf(),
        col <= c <= end,
        dist >= 1,
        end - col <= dist,
        h >= 0,
        forall|k: int, q: int|
            col <= k < c && t.tile_y(min(ny, oy)) <= q <= t.tile_y(max(ny, oy) + h) ==> #[trigger] t.tile(
                k,
                q,
            ) == TileType::Empty,
        forall|q: int|
            t.tile_y(min(ny, oy)) <= q <= t.tile_y(max(ny, oy) + h) ==> #[trigger] t.obstacle(c, q),
    ensures
        right_wall_scan(t, col, end, dist, nx, ny, ox, oy, h) == Some(column_left(t, c)),
    decreases c - col,
{
    lemma_column_rows_inside(t, ny, oy, end - col, dist, h);
    let y = lerp(ny, oy, end - col, dist);
    if col < c {
        assert forall|q: int| t.tile_y(y) <= q <= t.tile_y(y + h) implies !#[trigger] t.obstacle(
            col,
            q,
        ) by {
            assert(t.tile(col, q) == TileType::Empty);
        }
        lemma_right_scan_hits(t, col + 1, end, dist, nx, ny, ox, oy, h, c);
    } else {
        assert(t.obstacle(c, t.tile_y(y)));
    }
}

proof fn lemma_left_scan_hits(
    t: &Terrain,
    col: int,
    end: int,
    dist: int,
    nx: int,
    ny: int,
    ox: int,
    oy: int,
    h: int,
    c: int,
)
    requires
        t.wf(),
        end <= c <= col,
        dist >= 1,
        col - end <= dist,
        h >= 0,
        forall|k: int, q: int|
            c < k <= col && t.tile_y(min(ny, oy)) <= q <= t.tile_y(max(ny, oy) + h) ==> #[trigger] t.tile(
                k,
                q,
            ) == TileType::Empty,
        forall|q: int|
            t.tile_y(min(ny, oy)) <= q <= t.tile_y(max(ny, oy) + h) ==> #[trigger] t.obstacle(c, q),
    ensures
        left_wall_scan(t, col, end, dist, nx, ny, ox, oy, h) == Some(column_right(t, c)),
    decreases col - c,
{
    lemma_column_rows_inside(t, ny, oy, col - end, dist, h);
    let y = lerp(ny, oy, col - end, dist);
    if col > c {
        assert forall|q: int| t.tile_y(y) <= q <= t.tile_y(y + h) implies !#[trigger] t.obstacle(
            col,
            q,
        ) by {
            assert(t.tile(col, q) == TileType::Empty);
        }
        lemma_left_scan_hits(t, col - 1, end, dist, nx, ny, ox, oy, h, c);
    } else {
        assert(t.obstacle(c, t.tile_y(y)));
    }
}

/// No tunnelling through a wall on the right, from the grid itself. Take
/// the object as the right wall resolution of a step sees it (after
/// integration, ground and left wall). If it moves right, column `c` lies
/// between the columns right of its old and new right edges, is solid over
/// every row the edge spans on the way, and the columns before it are
/// empty there, and the old right edge was not past `c`'s left face, then
/// the step ends with the right edge on that face, pushing the wall, with
/// no rightward speed or acceleration, however fast it moved.
pub proof fn lemma_fast_step_stops_at_right_wall(mv: MovingObject, dt: int, t: &Terrain, c: int)
    requires
        t.wf(),
        mv.begun(dt).landed(t).stopped_left(t).velocity.x >= 0,
        ({
            let m = mv.begun(dt).landed(t).stopped_left(t);
            let (old_col, end, r0, r1) = m.right_wall_footprint(t);
            &&& old_col <= c <= end
            &&& forall|k: int, q: int|
                old_col <= k < c && r0 <= q <= r1 ==> #[trigger] t.tile(k, q) == TileType::Empty
            &&& forall|q: int| r0 <= q <= r1 ==> #[trigger] t.obstacle(c, q)
            &&& m.old_position.x + m.aabb.half_x() + m.aabb.offset.x <= column_left(t, c)
            &&& -MAX_COORD <= column_left(t, c) - m.aabb.half_x() - m.aabb.offset.x <= MAX_COORD
            &&& m.aabb.half_y() >= 0
        }),
    ensures
        mv.stepped(dt, t).position.x + mv.stepped(dt, t).aabb.half_x()
            + mv.stepped(dt, t).aabb.offset.x == column_left(t, c),
        mv.stepped(dt, t).pushes_right_wall,
        mv.stepped(dt, t).velocity.x == 0,
        mv.stepped(dt, t).accel.x <= 0,
{
    let m = mv.begun(dt).landed(t).stopped_left(t);
    let hx = m.aabb.half_x();
    let hy = m.aabb.half_y();
    let nx = m.position.x + m.aabb.offset.x + hx + 1;
    let ny = m.position.y + m.aabb.offset.y - hy;
    let ox = m.old_position.x + m.aabb.offset.x + hx + 1;
    let oy = m.old_position.y + m.aabb.offset.y - hy;
    let end = t.tile_x(nx);
    let beg = min(t.tile_x(ox), end);
    lemma_right_scan_hits(t, beg, end, max(end - beg, 1), nx, ny, ox, oy, 2 * hy, c);
    lemma_right_wall_stops(m, t, column_left(t, c));
    reveal(MovingObject::stepped);
    reveal(MovingObject::stopped_right);
    reveal(MovingObject::bumped);
}

/// No tunnelling through a wall on the left, the mirror image of
/// `lemma_fast_step_stops_at_right_wall`, stated where left wall resolution
/// ends: the right wall resolution that follows in the same step acts only
/// on a wall that the right edge meets.
pub proof fn lemma_fast_step_stops_at_left_wall(mv: MovingObject, dt: int, t: &Terrain, c: int)
    requires
        t.wf(),
        mv.begun(dt).landed(t).velocity.x <= 0,
        ({
            let m = mv.begun(dt).landed(t);
            let (old_col, end, r0, r1) = m.left_wall_footprint(t);
            &&& end <= c <= old_col
            &&& forall|k: int, q: int|
                c < k <= old_col && r0 <= q <= r1 ==> #[trigger] t.tile(k, q) == TileType::Empty
            &&& forall|q: int| r0 <= q <= r1 ==> #[trigger] t.obstacle(c, q)
            &&& m.old_position.x - m.aabb.half_x() + m.aabb.offset.x >= column_right(t, c)
            &&& -MAX_COORD <= column_right(t, c) + m.aabb.half_x() - m.aabb.offset.x <= MAX_COORD
            &&& m.aabb.half_y() >= 0
        }),
    ensures
        mv.begun(dt).landed(t).stopped_left(t).position.x - mv.aabb.half_x() + mv.aabb.offset.x
            == column_right(t, c),
        mv.begun(dt).landed(t).stopped_left(t).pushes_left_wall,
        mv.begun(dt).landed(t).stopped_left(t).velocity.x == 0,
        mv.begun(dt).landed(t).stopped_left(t).accel.x >= 0,
{
    let m = mv.begun(dt).landed(t);
    let hx = m.aabb.half_x();
    let hy = m.aabb.half_y();
    let nx = m.position.x + m.aabb.offset.x - hx - 1;
    let ny = m.position.y + m.aabb.offset.y - hy;
    let ox = m.old_position.x + m.aabb.offset.x - hx - 1;
    let oy = m.old_position.y + m.aabb.offset.y - hy;
    let end = t.tile_x(nx);
    let beg = max(t.tile_x(ox), end);
    lemma_left_scan_hits(t, beg, end, max(beg - end, 1), nx, ny, ox, oy, 2 * hy, c);
    lemma_left_wall_stops(m, t, column_right(t, c));
    reveal(MovingObject::stopped_left);
    reveal(MovingObject::landed);
    reveal(MovingObject::begun);
}

} // verus!
