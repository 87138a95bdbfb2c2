use vstd::prelude::*;

use crate::geometry::{abs, Vector2, MAX_COORD, MAX_HALF_SIZE, MAX_SCALE, SCALE_UNIT, PROBE_SPAN};

verus! {

/// Largest collision half extent: a logical half extent at the largest scale.
pub const MAX_COLLISION_HALF: i64 = 1_000_000;

/// An axis-aligned bounding box.
///
/// `half_size_internal` is the logical half extent; the collision half extent
/// is that times `scale` (in thousandths). `offset` moves the collision box
/// down so that its bottom stays where the unscaled box's bottom is.
#[derive(Clone, Copy, Debug)]
pub struct AABB {
    pub center: Vector2,
    pub half_size_internal: Vector2,
    pub scale: Vector2,
    pub offset: Vector2,
}

/// Collision half extent along one axis.
#[verifier::opaque]
pub open spec fn scaled_half(half: int, scale: int) -> int {
    half * scale / (SCALE_UNIT as int)
}

impl AABB {
    pub open spec fn half_x(&self) -> int {
        scaled_half(self.half_size_internal.x as int, self.scale.x as int)
    }

    pub open spec fn half_y(&self) -> int {
        scaled_half(self.half_size_internal.y as int, self.scale.y as int)
    }

    pub open spec fn wf(&self) -> bool {
        &&& 0 <= self.half_size_internal.x <= MAX_HALF_SIZE
        &&& 0 <= self.half_size_internal.y <= MAX_HALF_SIZE
        &&& 0 <= self.scale.x <= MAX_SCALE
        &&& 0 <= self.scale.y <= MAX_SCALE
        &&& self.offset.x == 0
        &&& self.offset.y == self.half_y() - self.half_size_internal.y
        &&& -PROBE_SPAN <= self.center.x <= PROBE_SPAN
        &&& -PROBE_SPAN <= self.center.y <= PROBE_SPAN
    }

    proof fn lemma_half_bounds(half: int, scale: int)
        requires
            0 <= half <= MAX_HALF_SIZE,
            0 <= scale <= MAX_SCALE,
        ensures
            0 <= scaled_half(half, scale) <= MAX_COLLISION_HALF,
    {
        reveal(scaled_half);
        assert(0 <= half * scale <= MAX_HALF_SIZE * MAX_SCALE) by (nonlinear_arith)
            requires
                0 <= half <= MAX_HALF_SIZE,
                0 <= scale <= MAX_SCALE,
        ;
        assert(0 <= (half * scale) / 1000 <= MAX_COLLISION_HALF) by (nonlinear_arith)
            requires
                0 <= half * scale <= MAX_HALF_SIZE * MAX_SCALE,
        ;
    }

    pub proof fn lemma_wf_bounds(&self)
        requires
            self.wf(),
        ensures
            0 <= self.half_x() <= MAX_COLLISION_HALF,
            0 <= self.half_y() <= MAX_COLLISION_HALF,
            -MAX_HALF_SIZE <= self.offset.y <= MAX_COLLISION_HALF,
    {
        AABB::lemma_half_bounds(self.half_size_internal.x as int, self.scale.x as int);
        AABB::lemma_half_bounds(self.half_size_internal.y as int, self.scale.y as int);
    }

    /// The box centred on `center`, `full_size` wide and high before
    /// `scale` (thousandths) is applied, with its bottom where the unscaled
    /// box's bottom is.
    pub open spec fn from_full(center: Vector2, full_size: Vector2, scale: Vector2) -> AABB {
        let half = Vector2 { x: (full_size.x / 2) as i64, y: (full_size.y / 2) as i64 };
        AABB {
            center,
            half_size_internal: half,
            scale,
            offset: Vector2 {
                x: 0,
                y: (scaled_half(half.y as int, scale.y as int) - half.y) as i64,
            },
        }
    }

    /// A box centred on `center`, `full_size` wide and high before `scale`
    /// (thousandths) is applied.
    pub fn new_full(center: Vector2, full_size: Vector2, scale: Vector2) -> (r: AABB)
        requires
            0 <= full_size.x <= 2 * MAX_HALF_SIZE,
            0 <= full_size.y <= 2 * MAX_HALF_SIZE,
            0 <= scale.x <= MAX_SCALE,
            0 <= scale.y <= MAX_SCALE,
            -MAX_COORD <= center.x <= MAX_COORD,
            -MAX_COORD <= center.y <= MAX_COORD,
        ensures
            r.wf(),
            r == AABB::from_full(center, full_size, scale),
            r.center == center,
            r.half_size_internal.x == full_size.x / 2,
            r.half_size_internal.y == full_size.y / 2,
            r.scale == scale,
            r.offset.x == 0,
            r.offset.y == r.half_y() - full_size.y / 2,
    {
        let half = Vector2 { x: (full_size.x / 2) as i64, y: (full_size.y / 2) as i64 };
        let mut b = AABB { center, half_size_internal: half, scale, offset: Vector2 { x: 0, y: 0 } };
        let hs = b.half_size();
        b.offset = Vector2 { x: 0, y: hs.y - half.y };
        b
    }

    /// The collision half extent.
    pub fn half_size(&self) -> (r: Vector2)
        requires
            0 <= self.half_size_internal.x <= MAX_HALF_SIZE,
            0 <= self.half_size_internal.y <= MAX_HALF_SIZE,
            0 <= self.scale.x <= MAX_SCALE,
            0 <= self.scale.y <= MAX_SCALE,
        ensures
            r.x == self.half_x(),
            r.y == self.half_y(),
            0 <= r.x <= MAX_COLLISION_HALF,
            0 <= r.y <= MAX_COLLISION_HALF,
    {
        proof {
            reveal(scaled_half);
            AABB::lemma_half_bounds(self.half_size_internal.x as int, self.scale.x as int);
            AABB::lemma_half_bounds(self.half_size_internal.y as int, self.scale.y as int);
            assert(0 <= self.half_size_internal.x * self.scale.x <= MAX_HALF_SIZE * MAX_SCALE)
                by (nonlinear_arith)
                requires
                    0 <= self.half_size_internal.x <= MAX_HALF_SIZE,
                    0 <= self.scale.x <= MAX_SCALE,
            ;
            assert(0 <= self.half_size_internal.y * self.scale.y <= MAX_HALF_SIZE * MAX_SCALE)
                by (nonlinear_arith)
                requires
                    0 <= self.half_size_internal.y <= MAX_HALF_SIZE,
                    0 <= self.scale.y <= MAX_SCALE,
            ;
        }
        Vector2 {
            x: self.half_size_internal.x * self.scale.x / SCALE_UNIT,
            y: self.half_size_internal.y * self.scale.y / SCALE_UNIT,
        }
    }

    /// Whether the collision boxes of `self` and `other` touch or overlap.
    pub fn overlaps(&self, other: &AABB) -> (r: bool)
        requires
            self.wf(),
            other.wf(),
        ensures
            r == (abs(self.center.x - other.center.x) <= self.half_x() + other.half_x()
                && abs(self.center.y - other.center.y) <= self.half_y() + other.half_y()),
    {
        let a = self.half_size();
        let b = other.half_size();
        let dx = if self.center.x >= other.center.x {
            self.center.x - other.center.x
        } else {
            other.center.x - self.center.x
        };
        let dy = if self.center.y >= other.center.y {
            self.center.y - other.center.y
        } else {
            other.center.y - self.center.y
        };
        dx <= a.x + b.x && dy <= a.y + b.y
    }
}

} // verus!
