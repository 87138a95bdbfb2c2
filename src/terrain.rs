use vstd::prelude::*;

use crate::geometry::{Vector2, MAX_COORD, MAX_TILE_SIZE, PROBE_SPAN};

verus! {

/// Classification of one tile of the grid.
#[derive(Clone, Copy, Debug, PartialEq, Eq, Structural)]
pub enum TileType {
    Empty,
    Block,
    OneWay,
}

/// Largest number of tiles along either axis of a grid.
pub const MAX_GRID: usize = 1_000_000;

/// The static tile grid of a level.
///
/// Row 0 is the bottom row; tile `(x, y)` is centred on
/// `position + (x, y) * tile_size`. Every lookup outside the grid classifies
/// as `Block`.
pub struct Terrain {
    pub terrain: Vec<Vec<TileType>>,
    pub position: Vector2,
    pub width: usize,
    pub height: usize,
    pub tile_size: i64,
}

/// The tile index along one axis of the world coordinate `c`.
pub open spec fn tile_of(c: int, origin: int, size: int) -> int {
    (c - origin + size / 2) / size
}

/// Tile code of a level description: 1 is a block, 2 a one-way platform,
/// anything else empty.
pub open spec fn tile_of_code(code: usize) -> TileType {
    if code == 1 {
        TileType::Block
    } else if code == 2 {
        TileType::OneWay
    } else {
        TileType::Empty
    }
}

impl Terrain {
    pub open spec fn wf(&self) -> bool {
        &&& self.terrain@.len() == self.height
        &&& forall|y: int| 0 <= y < self.height ==> (#[trigger] self.terrain@[y])@.len() == self.width
        &&& self.width <= MAX_GRID
        &&& self.height <= MAX_GRID
        &&& 1 <= self.tile_size <= MAX_TILE_SIZE
        &&& -MAX_COORD <= self.position.x <= MAX_COORD
        &&& -MAX_COORD <= self.position.y <= MAX_COORD
    }

    pub open spec fn in_grid(&self, x: int, y: int) -> bool {
        0 <= x < self.width && 0 <= y < self.height
    }

    /// The classification of tile `(x, y)`, `Block` outside the grid.
    pub open spec fn tile(&self, x: int, y: int) -> TileType {
        if self.in_grid(x, y) {
            self.terrain@[y]@[x]
        } else {
            TileType::Block
        }
    }

    pub open spec fn obstacle(&self, x: int, y: int) -> bool {
        self.tile(x, y) == TileType::Block
    }

    pub open spec fn one_way(&self, x: int, y: int) -> bool {
        self.tile(x, y) == TileType::OneWay
    }

    pub open spec fn tile_x(&self, x: int) -> int {
        tile_of(x, self.position.x as int, self.tile_size as int)
    }

    pub open spec fn tile_y(&self, y: int) -> int {
        tile_of(y, self.position.y as int, self.tile_size as int)
    }

    /// Builds a grid from rows of tile codes given top row first.
    pub fn from_codes(codes: &Vec<Vec<usize>>, position: Vector2, tile_size: i64) -> (r: Terrain)
        requires
            1 <= codes@.len() <= MAX_GRID,
            codes@[0]@.len() <= MAX_GRID,
            forall|i: int| 0 <= i < codes@.len() ==> (#[trigger] codes@[i])@.len() == codes@[0]@.len(),
            1 <= tile_size <= MAX_TILE_SIZE,
            -MAX_COORD <= position.x <= MAX_COORD,
            -MAX_COORD <= position.y <= MAX_COORD,
        ensures
            r.wf(),
            r.height == codes@.len(),
            r.width == codes@[0]@.len(),
            r.position == position,
            r.tile_size == tile_size,
            forall|x: int, y: int|
                r.in_grid(x, y) ==> #[trigger] r.tile(x, y) == tile_of_code(
                    codes@[codes@.len() - 1 - y]@[x],
                ),
    {
        let height = codes.len();
        let width = codes[0].len();
        let mut rows: Vec<Vec<TileType>> = Vec::new();
        let mut i: usize = 0;
        while i < height
            invariant
                height == codes@.len(),
                width == codes@[0]@.len(),
                forall|i: int| 0 <= i < codes@.len() ==> (#[trigger] codes@[i])@.len() == width,
                i <= height,
                rows@.len() == i,
                forall|y: int| 0 <= y < i ==> (#[trigger] rows@[y])@.len() == width,
                forall|y: int, x: int|
                    0 <= y < i && 0 <= x < width ==> #[trigger] rows@[y]@[x] == tile_of_code(
                        codes@[height - 1 - y]@[x],
                    ),
            decreases height - i,
        {
            let src = &codes[height - 1 - i];
            let mut row: Vec<TileType> = Vec::new();
            let mut j: usize = 0;
            while j < width
                invariant
                    src@.len() == width,
                    j <= width,
                    row@.len() == j,
                    forall|x: int| 0 <= x < j ==> #[trigger] row@[x] == tile_of_code(src@[x]),
                decreases width - j,
            {
                let code = src[j];
                let t = if code == 1 {
                    TileType::Block
                } else if code == 2 {
                    TileType::OneWay
                } else {
                    TileType::Empty
                };
                row.push(t);
                j += 1;
            }
            rows.push(row);
            i += 1;
        }
        Terrain { terrain: rows, position, width, height, tile_size }
    }

    fn tile_index(c: i64, origin: i64, size: i64) -> (r: i64)
        requires
            -PROBE_SPAN <= c <= PROBE_SPAN,
            -MAX_COORD <= origin <= MAX_COORD,
            1 <= size <= MAX_TILE_SIZE,
        ensures
            r == tile_of(c as int, origin as int, size as int),
            -2 * PROBE_SPAN <= r <= 2 * PROBE_SPAN,
    {
        let n = c - origin + size / 2;
        proof {
            let ni = n as int;
            let si = size as int;
            assert(-2 * PROBE_SPAN <= ni / si <= 2 * PROBE_SPAN) by (nonlinear_arith)
                requires
                    -2 * PROBE_SPAN <= ni <= 2 * PROBE_SPAN,
                    si >= 1,
            ;
        }
        match n.checked_div_euclid(size) {
            Some(q) => q,
            None => 0,
        }
    }

    /// The tile column of world x coordinate `x`.
    pub fn get_tile_x_at_point(&self, x: i64) -> (r: i64)
        requires
            self.wf(),
            -PROBE_SPAN <= x <= PROBE_SPAN,
        ensures
            r == self.tile_x(x as int),
            -2 * PROBE_SPAN <= r <= 2 * PROBE_SPAN,
    {
        Terrain::tile_index(x, self.position.x, self.tile_size)
    }

    /// The tile row of world y coordinate `y`.
    pub fn get_tile_y_at_point(&self, y: i64) -> (r: i64)
        requires
            self.wf(),
            -PROBE_SPAN <= y <= PROBE_SPAN,
        ensures
            r == self.tile_y(y as int),
            -2 * PROBE_SPAN <= r <= 2 * PROBE_SPAN,
    {
        Terrain::tile_index(y, self.position.y, self.tile_size)
    }

    /// The tile (column, row) that contains `point`.
    pub fn get_tile_at_point(&self, point: Vector2) -> (r: Vector2)
        requires
            self.wf(),
            -PROBE_SPAN <= point.x <= PROBE_SPAN,
            -PROBE_SPAN <= point.y <= PROBE_SPAN,
        ensures
            r.x == self.tile_x(point.x as int),
            r.y == self.tile_y(point.y as int),
    {
        Vector2 { x: self.get_tile_x_at_point(point.x), y: self.get_tile_y_at_point(point.y) }
    }

    /// World position of the centre of tile `(x, y)`.
    pub fn get_map_tile_position(&self, x: i64, y: i64) -> (r: Vector2)
        requires
            self.wf(),
            -PROBE_SPAN <= x * self.tile_size <= PROBE_SPAN,
            -PROBE_SPAN <= y * self.tile_size <= PROBE_SPAN,
        ensures
            r.x == x * self.tile_size + self.position.x,
            r.y == y * self.tile_size + self.position.y,
    {
        Vector2 { x: x * self.tile_size + self.position.x, y: y * self.tile_size + self.position.y }
    }

    /// World position of the centre of the tile at `coords`.
    pub fn get_map_tile_position_vec(&self, coords: Vector2) -> (r: Vector2)
        requires
            self.wf(),
            -PROBE_SPAN <= coords.x * self.tile_size <= PROBE_SPAN,
            -PROBE_SPAN <= coords.y * self.tile_size <= PROBE_SPAN,
        ensures
            r.x == coords.x * self.tile_size + self.position.x,
            r.y == coords.y * self.tile_size + self.position.y,
    {
        self.get_map_tile_position(coords.x, coords.y)
    }

    fn in_bounds(&self, x: i64, y: i64) -> (r: Option<(usize, usize)>)
        requires
            self.wf(),
        ensures
            r is Some <==> self.in_grid(x as int, y as int),
            r matches Some((a, b)) ==> a == x && b == y,
    {
        if x < 0 || y < 0 || x as u64 >= self.width as u64 || y as u64 >= self.height as u64 {
            None
        } else {
            Some((x as usize, y as usize))
        }
    }

    /// Classification of tile `(x, y)`; `Block` outside the grid.
    pub fn get_tile(&self, x: i64, y: i64) -> (r: TileType)
        requires
            self.wf(),
        ensures
            r == self.tile(x as int, y as int),
    {
        match self.in_bounds(x, y) {
            Some((a, b)) => self.terrain[b][a],
            None => TileType::Block,
        }
    }

    /// Whether tile `(x, y)` is solid; always so outside the grid.
    pub fn is_obstacle(&self, x: i64, y: i64) -> (r: bool)
        requires
            self.wf(),
        ensures
            r == self.obstacle(x as int, y as int),
            !self.in_grid(x as int, y as int) ==> r,
    {
        let t = self.get_tile(x, y);
        match t {
            TileType::Block => true,
            _ => false,
        }
    }

    /// Whether an actor can stand on tile `(x, y)`: a block or a one-way platform.
    pub fn is_ground(&self, x: i64, y: i64) -> (r: bool)
        requires
            self.wf(),
        ensures
            r == (self.tile(x as int, y as int) != TileType::Empty),
    {
        let t = self.get_tile(x, y);
        match t {
            TileType::Empty => false,
            _ => true,
        }
    }

    /// Whether tile `(x, y)` is a one-way platform.
    pub fn is_one_way_platform(&self, x: i64, y: i64) -> (r: bool)
        requires
            self.wf(),
        ensures
            r == self.one_way(x as int, y as int),
    {
        let t = self.get_tile(x, y);
        match t {
            TileType::OneWay => true,
            _ => false,
        }
    }

    /// Whether tile `(x, y)` is empty; never so outside the grid.
    pub fn is_empty(&self, x: i64, y: i64) -> (r: bool)
        requires
            self.wf(),
        ensures
            r == (self.tile(x as int, y as int) == TileType::Empty),
    {
        let t = self.get_tile(x, y);
        match t {
            TileType::Empty => true,
            _ => false,
        }
    }
}

} // verus!
