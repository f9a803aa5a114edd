//! Plain data shared by every object kind: vectors, hitboxes, flips, sprite
//! blits, and the tile grid that movement collides with.

use vstd::prelude::*;

verus! {


/// How far a tile query may reach from the origin, in pixels.
pub const QUERY_LIMIT: i64 = 16_777_216;

#[derive(Clone, Copy, Debug, PartialEq, Eq, Structural)]
pub struct Vector {
    pub x: i32,
    pub y: i32,
}

/// A hitbox: offsets and size relative to its object's position.
#[derive(Clone, Copy, Debug, PartialEq, Eq, Structural)]
pub struct Rectangle {
    pub x: i32,
    pub y: i32,
    pub w: i32,
    pub h: i32,
}

#[derive(Clone, Copy, Debug, PartialEq, Eq, Structural)]
pub struct FlipState {
    pub x: bool,
    pub y: bool,
}

/// One sprite blit, in draw order.
#[derive(Clone, Copy, Debug, PartialEq, Eq, Structural)]
pub struct Sprite {
    pub id: u8,
    pub x: i32,
    pub y: i32,
    pub flip: FlipState,
}

/// What a tile cell is to movement.
#[derive(Clone, Copy, Debug, PartialEq, Eq, Structural)]
pub enum TileKind {
    Empty,
    Solid,
    OneWayUp,
    Hazard,
}

/// A read-only grid of tile cells, row by row. Cells outside it are empty.
pub struct TileGrid {
    pub rows: Vec<Vec<TileKind>>,
}

impl TileGrid {
    /// The cell at column `tx`, row `ty`.
    pub open spec fn tile(&self, tx: int, ty: int) -> TileKind {
        if 0 <= ty < self.rows@.len() && 0 <= tx < self.rows@[ty]@.len() {
            self.rows@[ty]@[tx]
        } else {
            TileKind::Empty
        }
    }

    /// Every cell is empty.
    pub open spec fn is_empty_grid(&self) -> bool {
        forall|tx: int, ty: int| #[trigger] self.tile(tx, ty) == TileKind::Empty
    }

    /// Some cell of kind `k` lies under the pixel rectangle with top-left
    /// corner `(x, y)` and size `w` by `h`.
    pub open spec fn region_has(&self, x: int, y: int, w: int, h: int, k: TileKind) -> bool {
        exists|tx: int, ty: int|
            x / 8 <= tx <= (x + w - 1) / 8 && y / 8 <= ty <= (y + h
                - 1) / 8 && #[trigger] self.tile(tx, ty) == k
    }

    pub fn from_rows(rows: Vec<Vec<TileKind>>) -> (g: TileGrid)
        ensures
            g.rows@ == rows@,
    {
        TileGrid { rows }
    }

    /// The cell at column `tx`, row `ty`; empty outside the grid.
    pub fn tile_at(&self, tx: i64, ty: i64) -> (k: TileKind)
        ensures
            k == self.tile(tx as int, ty as int),
    {
        if 0 <= ty && (ty as u64) < (self.rows.len() as u64) {
            let row = &self.rows[ty as usize];
            if 0 <= tx && (tx as u64) < (row.len() as u64) {
                return row[tx as usize];
            }
        }
        TileKind::Empty
    }

    /// Whether a cell of kind `k` lies under the given pixel rectangle.
    pub fn region_contains(&self, x: i64, y: i64, w: i64, h: i64, k: TileKind) -> (r: bool)
        requires
            -QUERY_LIMIT <= x <= QUERY_LIMIT,
            -QUERY_LIMIT <= y <= QUERY_LIMIT,
            1 <= w <= 1024,
            1 <= h <= 1024,
        ensures
            r == self.region_has(x as int, y as int, w as int, h as int, k),
    {
        let c0 = cell_of(x);
        let c1 = cell_of(x + w - 1);
        let r0 = cell_of(y);
        let r1 = cell_of(y + h - 1);
        proof {
            vstd::arithmetic::div_mod::lemma_div_is_ordered(x as int, x + w - 1, 8);
        }
        let mut ty = r0;
        while ty <= r1
            invariant
                r0 <= ty <= r1 + 1,
                c0 <= c1,
                -QUERY_LIMIT <= c1 <= QUERY_LIMIT,
                c0 == x / 8,
                c1 == (x + w - 1) / 8,
                r0 == y / 8,
                r1 == (y + h - 1) / 8,
                -QUERY_LIMIT <= r1 <= QUERY_LIMIT,
                forall|i: int, j: int|
                    c0 <= i <= c1 && r0 <= j < ty ==> #[trigger] self.tile(i, j) != k,
            decreases r1 + 1 - ty,
        {
            let mut tx = c0;
            while tx <= c1
                invariant
                    c0 <= tx <= c1 + 1,
                    r0 <= ty <= r1,
                    c0 == x / 8,
                    c1 == (x + w - 1) / 8,
                    r0 == y / 8,
                    r1 == (y + h - 1) / 8,
                    -QUERY_LIMIT <= c1 <= QUERY_LIMIT,
                    forall|i: int, j: int|
                        c0 <= i <= c1 && r0 <= j < ty ==> #[trigger] self.tile(i, j) != k,
                    forall|i: int| c0 <= i < tx ==> #[trigger] self.tile(i, ty as int) != k,
                decreases c1 + 1 - tx,
            {
                if self.tile_at(tx, ty) == k {
                    assert(self.region_has(x as int, y as int, w as int, h as int, k)) by {
                        assert(self.tile(tx as int, ty as int) == k);
                    }
                    return true;
                }
                tx = tx + 1;
            }
            ty = ty + 1;
        }
        false
    }
}

/// The column or row of the cell holding pixel coordinate `p`.
fn cell_of(p: i64) -> (c: i64)
    requires
        -QUERY_LIMIT - 1024 <= p <= QUERY_LIMIT + 1024,
    ensures
        c == p / 8,
        -QUERY_LIMIT <= c <= QUERY_LIMIT,
{
    let shifted = (p + 8 * QUERY_LIMIT) as u64;
    let c = (shifted / 8) as i64 - QUERY_LIMIT;
    proof {
        let q = p as int / 8;
        let m = p as int % 8;
        vstd::arithmetic::div_mod::lemma_fundamental_div_mod(p as int, 8);
        vstd::arithmetic::div_mod::lemma_mod_bound(p as int, 8);
        vstd::arithmetic::div_mod::lemma_fundamental_div_mod_converse(
            p + 8 * QUERY_LIMIT,
            8,
            q + QUERY_LIMIT,
            m,
        );
    }
    c
}

} // verus!
