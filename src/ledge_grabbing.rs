use vstd::prelude::*;

use crate::geometry::{clamp, clamp_i64, Vector2, MAX_COORD};
use crate::moving_object::{row_top, MovingObject, CORNER_SPAN};
use crate::player::PlayerInput;
use crate::terrain::Terrain;

verus! {

/// Detects a grabbable ledge ahead of an object pushing against a wall, and
/// remembers the tile of the last ledge grabbed.
#[derive(Clone, Copy, Debug)]
pub struct LedgeGrabbing {
    pub ledge_tile: (i64, i64),
}

/// Lowest height of the lip above the grab corner that still counts.
pub const GRAB_LEDGE_START_Y: i64 = 0;

/// Highest the grab corner may stand above the lip on the lowest row of
/// the window.
pub const GRAB_LEDGE_END_Y: i64 = 2;

/// Vertical offset of the hanging position, and of the top of the window,
/// from the grab corner.
pub const GRAB_LEDGE_TILE_OFFSET: i64 = -4;

/// Rows from `y` up to `top` in column `col`: the first row whose tile is
/// free while the one below is solid, and which either lies above the
/// window's lowest row `bottom` or has its lip within the tolerance of the
/// grab corner's height `cy`.
pub open spec fn ledge_scan(t: &Terrain, col: int, y: int, bottom: int, top: int, cy: int) -> Option<int>
    decreases top + 1 - y,
{
    if y > top {
        None
    } else {
        let lip = row_top(t, y - 1);
        if !t.obstacle(col, y) && t.obstacle(col, y - 1) && (y > bottom || (cy - lip
            <= GRAB_LEDGE_END_Y && lip - cy >= GRAB_LEDGE_START_Y)) {
            Some(y)
        } else {
            ledge_scan(t, col, y + 1, bottom, top, cy)
        }
    }
}

/// Bound on the tile indices that a grab records.
pub const MAX_LEDGE_INDEX: i64 = 8_000_000_000_001;

impl LedgeGrabbing {
    pub open spec fn wf(&self) -> bool {
        -MAX_LEDGE_INDEX <= self.ledge_tile.0 <= MAX_LEDGE_INDEX
            && -MAX_LEDGE_INDEX <= self.ledge_tile.1 <= MAX_LEDGE_INDEX
    }

    /// Whether a grab is attempted at all: not moving up, not at a ceiling,
    /// and pushing a wall on the side that the input holds.
    pub open spec fn attempts(mv: &MovingObject, pi: &PlayerInput) -> bool {
        mv.velocity.y <= 0 && !mv.at_ceiling && ((pi.right && mv.pushes_right_wall) || (pi.left
            && mv.pushes_left_wall))
    }

    /// Horizontal offset of the grab corner from the box centre: one unit
    /// beyond the side pushed against the wall.
    pub open spec fn corner_x(mv: &MovingObject) -> int {
        if mv.pushes_right_wall {
            mv.aabb.half_x() + 1
        } else {
            -mv.aabb.half_x() - 1
        }
    }

    /// The column, the window of rows and the corner height that a grab
    /// scans. A contact that goes on from the previous frame scans from the
    /// corner now up to where it was; a new contact scans a fixed band
    /// around the corner.
    pub open spec fn window(mv: &MovingObject, t: &Terrain) -> (int, int, int, int) {
        let cx = LedgeGrabbing::corner_x(mv);
        let cy = mv.aabb.center.y + mv.aabb.half_y();
        let col = t.tile_x(mv.aabb.center.x + cx);
        let continuing = (mv.pushed_left_wall && mv.pushes_left_wall) || (mv.pushed_right_wall
            && mv.pushes_right_wall);
        let top = if continuing {
            t.tile_y(mv.old_position.y + mv.aabb.offset.y + mv.aabb.half_y() - GRAB_LEDGE_TILE_OFFSET)
        } else {
            t.tile_y(cy - GRAB_LEDGE_TILE_OFFSET)
        };
        let bottom = if continuing {
            t.tile_y(cy - GRAB_LEDGE_TILE_OFFSET)
        } else {
            t.tile_y(cy - GRAB_LEDGE_END_Y)
        };
        (col, bottom, top, cy)
    }

    /// The row above the ledge that a grab finds, if any.
    pub open spec fn found(mv: &MovingObject, t: &Terrain) -> Option<int> {
        let (col, bottom, top, cy) = LedgeGrabbing::window(mv, t);
        ledge_scan(t, col, bottom, bottom, top, cy)
    }

    /// The sensor, the object and whether a grab happened, after a grab
    /// attempt: on success the ledge tile is remembered, the object hangs
    /// with its corner `GRAB_LEDGE_TILE_OFFSET` from the lip and its
    /// velocity is zero; otherwise nothing changes.
    #[verifier::opaque]
    pub open spec fn grabbed(self, mv: MovingObject, pi: PlayerInput, t: &Terrain) -> (
        LedgeGrabbing,
        MovingObject,
        bool,
    ) {
        match LedgeGrabbing::found(&mv, t) {
            Some(row) => if LedgeGrabbing::attempts(&mv, &pi) {
                let (col, bottom, top, cy) = LedgeGrabbing::window(&mv, t);
                (
                    LedgeGrabbing { ledge_tile: (col as i64, (row - 1) as i64) },
                    MovingObject {
                        position: Vector2 {
                            y: clamp(
                                row_top(t, row - 1) - mv.aabb.half_y() - mv.aabb.offset.y
                                    - GRAB_LEDGE_START_Y + GRAB_LEDGE_TILE_OFFSET,
                                MAX_COORD as int,
                            ) as i64,
                            ..mv.position
                        },
                        velocity: Vector2 { x: 0, y: 0 },
                        ..mv
                    },
                    true,
                )
            } else {
                (self, mv, false)
            },
            None => (self, mv, false),
        }
    }

    pub fn new() -> (r: LedgeGrabbing)
        ensures
            r.wf(),
            r.ledge_tile == (0i64, 0i64),
    {
        LedgeGrabbing { ledge_tile: (0, 0) }
    }

    /// Tries to grab a ledge ahead of the wall that the object pushes.
    pub fn grab_ledge(&mut self, mv: &mut MovingObject, pi: &PlayerInput, terrain: &Terrain) -> (r: bool)
        requires
            old(mv).wf(),
            terrain.wf(),
        ensures
            (*final(self), *final(mv), r) == old(self).grabbed(*old(mv), *pi, terrain),
            final(mv).wf(),
            old(self).wf() ==> final(self).wf(),
    {
        proof {
            mv.aabb.lemma_wf_bounds();
            reveal(LedgeGrabbing::grabbed);
        }
        if !(mv.velocity.y <= 0 && !mv.at_ceiling && ((pi.right && mv.pushes_right_wall) || (
        pi.left && mv.pushes_left_wall))) {
            return false;
        }
        let hs = mv.aabb.half_size();
        let cx = if mv.pushes_right_wall { hs.x + 1 } else { -hs.x - 1 };
        let cy = mv.aabb.center.y + hs.y;
        let col = terrain.get_tile_x_at_point(mv.aabb.center.x + cx);
        let continuing = (mv.pushed_left_wall && mv.pushes_left_wall) || (mv.pushed_right_wall
            && mv.pushes_right_wall);
        let top;
        let bottom;
        if continuing {
            top = terrain.get_tile_y_at_point(
                mv.old_position.y + mv.aabb.offset.y + hs.y - GRAB_LEDGE_TILE_OFFSET,
            );
            bottom = terrain.get_tile_y_at_point(cy - GRAB_LEDGE_TILE_OFFSET);
        } else {
            top = terrain.get_tile_y_at_point(cy - GRAB_LEDGE_TILE_OFFSET);
            bottom = terrain.get_tile_y_at_point(cy - GRAB_LEDGE_END_Y);
        }
        let ghost scan = LedgeGrabbing::found(old(mv), terrain);
        let mut y = bottom;
        while y <= top
            invariant
                terrain.wf(),
                *mv == *old(mv),
                *self == *old(self),
                mv.wf(),
                -8_000_000_000_000 <= bottom <= y,
                y <= top + 1 || y == bottom,
                top <= 8_000_000_000_000,
                -CORNER_SPAN <= cy <= CORNER_SPAN,
                (col as int, bottom as int, top as int, cy as int) == LedgeGrabbing::window(old(mv), terrain),
                scan == ledge_scan(terrain, col as int, y as int, bottom as int, top as int, cy as int),
                scan == LedgeGrabbing::found(old(mv), terrain),
                cx == LedgeGrabbing::corner_x(old(mv)),
                LedgeGrabbing::attempts(old(mv), pi),
                hs.y == old(mv).aabb.half_y(),
                0 <= hs.y <= 1_000_000,
                -1_000_000 <= mv.aabb.offset.y <= 1_000_000,
            decreases top + 1 - y,
        {
            if !terrain.is_obstacle(col, y) && terrain.is_obstacle(col, y - 1) {
                assert(-8_000_000_000_001_000_000 <= (y - 1) * terrain.tile_size <= 8_000_000_000_001_000_000)
                    by (nonlinear_arith)
                    requires
                        -8_000_000_000_001 <= y - 1 <= 8_000_000_000_000,
                        1 <= terrain.tile_size <= 1_000_000,
                ;
                let below = y - 1;
                let lip = below * terrain.tile_size + terrain.tile_size / 2 + terrain.position.y;
                assert(lip == row_top(terrain, y - 1)) by {
                    reveal(row_top);
                }
                if y > bottom || (cy - lip <= GRAB_LEDGE_END_Y && lip - cy >= GRAB_LEDGE_START_Y) {
                    self.ledge_tile = (col, y - 1);
                    let hang = lip - hs.y - mv.aabb.offset.y - GRAB_LEDGE_START_Y
                        + GRAB_LEDGE_TILE_OFFSET;
                    mv.position.y = clamp_i64(hang, MAX_COORD);
                    mv.velocity = Vector2 { x: 0, y: 0 };
                    proof {
                        reveal(LedgeGrabbing::grabbed);
                    }
                    return true;
                }
            }
            y = y + 1;
        }
        false
    }
}

} // verus!
