//! Which tiles of a map can be walked on.

use vstd::prelude::*;

verus! {

/// Whether a tile lets the player through.
#[derive(Clone, Copy, Debug, PartialEq, Eq, Structural)]
pub enum TileCollision {
    Walkable,
    Blocked,
}

/// One collision value per tile, row by row.
pub struct CollisionMap {
    pub width: u32,
    pub height: u32,
    pub tiles: Vec<TileCollision>,
}

impl CollisionMap {
    /// There is exactly one value per tile.
    pub open spec fn wf(self) -> bool {
        self.tiles@.len() == self.width * self.height
    }

    /// The tile lies on the map.
    pub open spec fn in_bounds(self, x: int, y: int) -> bool {
        0 <= x < self.width && 0 <= y < self.height
    }

    /// The place of the tile in `tiles`.
    pub open spec fn index_of(self, x: int, y: int) -> int {
        y * self.width + x
    }

    /// The tile lies on the map, has a value, and that value is `Walkable`.
    pub open spec fn walkable_at(self, x: int, y: int) -> bool {
        &&& self.in_bounds(x, y)
        &&& self.index_of(x, y) < self.tiles@.len()
        &&& self.tiles@[self.index_of(x, y)] == TileCollision::Walkable
    }

    /// The tile lies on the rim of the map.
    pub open spec fn on_border(self, x: int, y: int) -> bool {
        x == 0 || y == 0 || x == self.width - 1 || y == self.height - 1
    }

    /// A map on which every tile is walkable.
    pub fn new(width: u32, height: u32) -> (map: CollisionMap)
        requires
            width * height <= usize::MAX,
        ensures
            map.wf(),
            map.width == width,
            map.height == height,
            forall|i: int| 0 <= i < map.tiles@.len() ==> map.tiles@[i] == TileCollision::Walkable,
    {
        let n: usize = (width as usize) * (height as usize);
        let mut tiles: Vec<TileCollision> = Vec::new();
        let mut i: usize = 0;
        while i < n
            invariant
                i <= n,
                tiles@.len() == i,
                forall|k: int| 0 <= k < i ==> tiles@[k] == TileCollision::Walkable,
            decreases n - i,
        {
            tiles.push(TileCollision::Walkable);
            i += 1;
        }
        CollisionMap { width, height, tiles }
    }

    /// Sets the value of a tile that lies on the map; any other is ignored.
    pub fn set_tile(&mut self, x: u32, y: u32, collision: TileCollision)
        requires
            old(self).wf(),
        ensures
            final(self).wf(),
            final(self).width == old(self).width,
            final(self).height == old(self).height,
            old(self).in_bounds(x as int, y as int) ==> final(self).tiles@ == old(
                self,
            ).tiles@.update(old(self).index_of(x as int, y as int), collision),
            !old(self).in_bounds(x as int, y as int) ==> final(self).tiles@ == old(self).tiles@,
    {
        if x < self.width && y < self.height {
            let len = self.tiles.len();
            proof {
                lemma_index_in_range(*self, x as int, y as int);
                assert(self.index_of(x as int, y as int) < len);
            }
            let index: usize = (y as usize) * (self.width as usize) + (x as usize);
            self.tiles[index] = collision;
        }
    }

    /// Whether the tile at `(x, y)` lies on the map and can be walked on.
    pub fn is_walkable(&self, x: i32, y: i32) -> (w: bool)
        ensures
            w == self.walkable_at(x as int, y as int),
    {
        if x < 0 || y < 0 || x as i64 >= self.width as i64 || y as i64 >= self.height as i64 {
            return false;
        }
        assert((y as u64) * (self.width as u64) <= 0x7fff_ffff * 0xffff_ffff) by (nonlinear_arith)
            requires
                0 <= y as u64 <= 0x7fff_ffff,
                0 <= self.width as u64 <= 0xffff_ffff,
        ;
        let index: u64 = (y as u64) * (self.width as u64) + (x as u64);
        if index >= self.tiles.len() as u64 {
            return false;
        }
        match self.tiles[index as usize] {
            TileCollision::Walkable => true,
            TileCollision::Blocked => false,
        }
    }

    /// A map whose rim is blocked and whose inside is walkable.
    pub fn with_blocked_border(width: u32, height: u32) -> (map: CollisionMap)
        requires
            width * height <= usize::MAX,
        ensures
            map.wf(),
            map.width == width,
            map.height == height,
            forall|x: int, y: int|
                map.in_bounds(x, y) ==> (#[trigger] map.walkable_at(x, y) <==> !map.on_border(
                    x,
                    y,
                )),
    {
        let mut map = CollisionMap::new(width, height);
        assert forall|a: int, b: int| 0 <= a < width && 0 <= b < height implies #[trigger]
            map.walkable_at(a, b) by {
            lemma_index_in_range(map, a, b);
        }
        let mut y: u32 = 0;
        while y < height
            invariant
                map.wf(),
                map.width == width,
                map.height == height,
                y <= height,
                forall|a: int, b: int|
                    0 <= a < width && 0 <= b < y ==> (#[trigger] map.walkable_at(a, b)
                        <==> !map.on_border(a, b)),
                forall|a: int, b: int|
                    0 <= a < width && y <= b < height ==> #[trigger] map.walkable_at(a, b),
            decreases height - y,
        {
            let mut x: u32 = 0;
            while x < width
                invariant
                    map.wf(),
                    map.width == width,
                    map.height == height,
                    y < height,
                    x <= width,
                    forall|a: int, b: int|
                        0 <= a < width && 0 <= b < y ==> (#[trigger] map.walkable_at(a, b)
                            <==> !map.on_border(a, b)),
                    forall|a: int|
                        0 <= a < x ==> (#[trigger] map.walkable_at(a, y as int) <==> !map.on_border(
                            a,
                            y as int,
                        )),
                    forall|a: int| x <= a < width ==> #[trigger] map.walkable_at(a, y as int),
                    forall|a: int, b: int|
                        0 <= a < width && y < b < height ==> #[trigger] map.walkable_at(a, b),
                decreases width - x,
            {
                if x == 0 || y == 0 || x == width - 1 || y == height - 1 {
                    let ghost before = map;
                    map.set_tile(x, y, TileCollision::Blocked);
                    proof {
                        lemma_set_tile_touches_one(before, map, x as int, y as int);
                    }
                }
                x += 1;
            }
            y += 1;
        }
        map
    }
}

/// On a well-formed map every tile in bounds has a place in `tiles`, and
/// two tiles share a place only if they are the same tile.
pub proof fn lemma_index_in_range(map: CollisionMap, x: int, y: int)
    requires
        map.wf(),
        map.in_bounds(x, y),
    ensures
        0 <= map.index_of(x, y) < map.tiles@.len(),
        0 <= y * map.width <= map.index_of(x, y),
{
    assert(y * map.width + x < map.width * map.height) by (nonlinear_arith)
        requires
            0 <= x < map.width,
            0 <= y < map.height,
    ;
    assert(y * map.width >= 0) by (nonlinear_arith)
        requires
            0 <= y,
            0 <= map.width,
    ;
}

/// Two tiles in bounds share a place in `tiles` only if they are the same.
pub proof fn lemma_index_injective(map: CollisionMap, x1: int, y1: int, x2: int, y2: int)
    requires
        map.in_bounds(x1, y1),
        map.in_bounds(x2, y2),
        map.index_of(x1, y1) == map.index_of(x2, y2),
    ensures
        x1 == x2,
        y1 == y2,
{
    let w = map.width as int;
    if y1 < y2 {
        assert(y2 * w >= (y1 + 1) * w) by (nonlinear_arith)
            requires
                y2 >= y1 + 1,
                w >= 0,
        ;
        assert((y1 + 1) * w == y1 * w + w) by (nonlinear_arith);
    } else if y2 < y1 {
        assert(y1 * w >= (y2 + 1) * w) by (nonlinear_arith)
            requires
                y1 >= y2 + 1,
                w >= 0,
        ;
        assert((y2 + 1) * w == y2 * w + w) by (nonlinear_arith);
    }
}

/// Setting one tile to a value changes whether that tile is walkable and
/// no other.
pub proof fn lemma_set_tile_touches_one(before: CollisionMap, after: CollisionMap, x: int, y: int)
    requires
        before.wf(),
        before.in_bounds(x, y),
        after.width == before.width,
        after.height == before.height,
        after.tiles@ == before.tiles@.update(before.index_of(x, y), TileCollision::Blocked),
    ensures
        !after.walkable_at(x, y),
        forall|a: int, b: int|
            before.in_bounds(a, b) && (a != x || b != y) ==> (#[trigger] after.walkable_at(a, b)
                <==> before.walkable_at(a, b)),
{
    lemma_index_in_range(before, x, y);
    assert forall|a: int, b: int| before.in_bounds(a, b) && (a != x || b != y) implies (
    #[trigger] after.walkable_at(a, b) <==> before.walkable_at(a, b)) by {
        lemma_index_in_range(before, a, b);
        if before.index_of(a, b) == before.index_of(x, y) {
            lemma_index_injective(before, a, b, x, y);
        }
    }
}

} // verus!
