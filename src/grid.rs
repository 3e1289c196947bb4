//! The simulation grid: its dimensions, the dispatch size, the toroidal
//! neighbourhood and the counters that seed the initial state.

use vstd::prelude::*;

use crate::WORKGROUP_SIZE;

verus! {

/// Why a pair of grid dimensions was refused.
#[derive(Debug, Clone, Copy, PartialEq, Eq, Structural)]
pub enum GridError {
    /// A dimension is zero.
    Empty,
    /// A dimension is not a multiple of the tile size.
    NotTileAligned,
}

/// Dimensions of the simulation grid, in cells.
#[derive(Debug, Clone, Copy, PartialEq, Eq, Structural)]
pub struct Grid {
    pub width: u32,
    pub height: u32,
}

/// `(loc + offset) mod dim`, the index of a neighbour on a ring of `dim` cells.
pub open spec fn wrap(loc: int, offset: int, dim: int) -> int {
    (loc + offset + dim) % dim
}

impl Grid {
    /// Both dimensions are positive multiples of the tile size.
    pub open spec fn wf(self) -> bool {
        &&& self.width > 0
        &&& self.height > 0
        &&& self.width % WORKGROUP_SIZE == 0
        &&& self.height % WORKGROUP_SIZE == 0
    }

    /// Checks a pair of dimensions at startup: a grid must split evenly into tiles.
    pub fn new(width: u32, height: u32) -> (r: Result<Grid, GridError>)
        ensures
            (width == 0 || height == 0) <==> r == Err::<Grid, GridError>(GridError::Empty),
            (width > 0 && height > 0 && (width % WORKGROUP_SIZE != 0 || height
                % WORKGROUP_SIZE != 0)) <==> r == Err::<Grid, GridError>(
                GridError::NotTileAligned,
            ),
            r is Ok <==> (Grid { width, height }).wf(),
            r is Ok ==> r->Ok_0 == (Grid { width, height }),
    {
        if width == 0 || height == 0 {
            Err(GridError::Empty)
        } else if width % WORKGROUP_SIZE != 0 || height % WORKGROUP_SIZE != 0 {
            Err(GridError::NotTileAligned)
        } else {
            Ok(Grid { width, height })
        }
    }

    /// Number of tiles along each axis: the size of one full-grid dispatch.
    pub fn workgroups(&self) -> (r: (u32, u32))
        requires
            self.wf(),
        ensures
            r.0 * WORKGROUP_SIZE == self.width,
            r.1 * WORKGROUP_SIZE == self.height,
    {
        (self.width / WORKGROUP_SIZE, self.height / WORKGROUP_SIZE)
    }

    /// The cell at offset `(dx, dy)` from `(x, y)`, wrapping around every edge.
    pub fn neighbor(&self, x: u32, y: u32, dx: i32, dy: i32) -> (r: (u32, u32))
        requires
            self.wf(),
            x < self.width,
            y < self.height,
            -1 <= dx <= 1,
            -1 <= dy <= 1,
        ensures
            r.0 == wrap(x as int, dx as int, self.width as int),
            r.1 == wrap(y as int, dy as int, self.height as int),
            r.0 < self.width,
            r.1 < self.height,
    {
        let nx = ((x as i64 + dx as i64 + self.width as i64) % (self.width as i64)) as u32;
        let ny = ((y as i64 + dy as i64 + self.height as i64) % (self.height as i64)) as u32;
        (nx, ny)
    }
}

/// Toroidal wraparound: on every row, the left neighbour of column zero is the
/// last column, and the right neighbour of the last column is column zero; a
/// zero offset stays on the cell itself.
pub proof fn lemma_wraparound(g: Grid, x: int, y: int)
    requires
        g.wf(),
        0 <= x < g.width,
        0 <= y < g.height,
    ensures
        wrap(0, -1, g.width as int) == g.width - 1,
        wrap(g.width - 1, 1, g.width as int) == 0,
        wrap(x, 0, g.width as int) == x,
        wrap(y, 0, g.height as int) == y,
{
    assert((x + 0 + g.width as int) % (g.width as int) == x) by {
        vstd::arithmetic::div_mod::lemma_mod_add_multiples_vanish(x, g.width as int);
        vstd::arithmetic::div_mod::lemma_small_mod(x as nat, g.width as nat);
    }
    assert((0 - 1 + g.width as int) % (g.width as int) == g.width - 1) by {
        vstd::arithmetic::div_mod::lemma_small_mod((g.width - 1) as nat, g.width as nat);
    }
    assert((g.width - 1 + 1 + g.width as int) % (g.width as int) == 0) by {
        vstd::arithmetic::div_mod::lemma_mod_multiples_basic(2, g.width as int);
    }
    assert((y + 0 + g.height as int) % (g.height as int) == y) by {
        vstd::arithmetic::div_mod::lemma_mod_add_multiples_vanish(y, g.height as int);
        vstd::arithmetic::div_mod::lemma_small_mod(y as nat, g.height as nat);
    }
}

/// The counter-based hash of the seeding kernel.
#[verifier::opaque]
pub open spec fn seed_hash(value: u32) -> u32 {
    let s0 = value ^ 2747636419u32;
    let s1 = s0.wrapping_mul(2654435769u32);
    let s2 = s1 ^ (s1 >> 16u32);
    let s3 = s2.wrapping_mul(2654435769u32);
    let s4 = s3 ^ (s3 >> 16u32);
    s4.wrapping_mul(2654435769u32)
}

/// The counter that seeds channel `channel` of cell `(x, y)`: the cell's linear
/// index, offset by one whole grid per channel, in 32-bit arithmetic.
pub open spec fn seed_counter(width: u32, height: u32, x: u32, y: u32, channel: u32) -> u32 {
    channel.wrapping_mul(width.wrapping_mul(height)).wrapping_add(y.wrapping_mul(width)).wrapping_add(x)
}

/// The three hash values from which the seeding kernel draws the red, green and
/// blue values of one cell.
pub open spec fn cell_seed(width: u32, height: u32, x: u32, y: u32) -> Seq<u32> {
    seq![
        seed_hash(seed_counter(width, height, x, y, 0)),
        seed_hash(seed_counter(width, height, x, y, 1)),
        seed_hash(seed_counter(width, height, x, y, 2)),
    ]
}

/// The counter-based hash of the seeding kernel.
pub fn hash(value: u32) -> (r: u32)
    ensures
        r == seed_hash(value),
{
    reveal(seed_hash);
    let mut state = value;
    state = state ^ 2747636419u32;
    state = state.wrapping_mul(2654435769u32);
    state = state ^ (state >> 16u32);
    state = state.wrapping_mul(2654435769u32);
    state = state ^ (state >> 16u32);
    state = state.wrapping_mul(2654435769u32);
    state
}

impl Grid {
    /// The hash values that seed cell `(x, y)`, one per channel; they depend on
    /// the grid's dimensions and the cell alone.
    pub fn init_seed(&self, x: u32, y: u32) -> (r: [u32; 3])
        requires
            self.wf(),
            x < self.width,
            y < self.height,
        ensures
            r@ == cell_seed(self.width, self.height, x, y),
    {
        let total = self.width.wrapping_mul(self.height);
        let index = y.wrapping_mul(self.width).wrapping_add(x);
        let red = hash(index);
        let green = hash(total.wrapping_add(index));
        let blue = hash(2u32.wrapping_mul(total).wrapping_add(index));
        let r = [red, green, blue];
        assert(r@ =~= cell_seed(self.width, self.height, x, y));
        r
    }
}

/// Seeding is deterministic: two grids of the same dimensions are seeded alike,
/// cell for cell.
pub proof fn lemma_init_deterministic(a: Grid, b: Grid, x: u32, y: u32)
    requires
        a.wf(),
        b.wf(),
        a.width == b.width,
        a.height == b.height,
    ensures
        cell_seed(a.width, a.height, x, y) == cell_seed(b.width, b.height, x, y),
{
}

/// Index of channel `c` of cell `(x, y)` among all channels of all cells, laid
/// out channel after channel, row after row.
pub open spec fn linear_counter(w: int, h: int, x: int, y: int, c: int) -> int {
    c * (w * h) + y * w + x
}

proof fn lemma_seed_counter_linear(g: Grid, x: u32, y: u32, c: u32)
    requires
        g.wf(),
        3 * (g.width as int * g.height as int) <= 0x1_0000_0000,
        x < g.width,
        y < g.height,
        c < 3,
    ensures
        seed_counter(g.width, g.height, x, y, c) == linear_counter(
            g.width as int,
            g.height as int,
            x as int,
            y as int,
            c as int,
        ),
        linear_counter(g.width as int, g.height as int, x as int, y as int, c as int) < 3 * (
        g.width as int * g.height as int),
{
    let w = g.width as int;
    let h = g.height as int;
    let wh = w * h;
    assert(0 < wh < 0x1_0000_0000) by (nonlinear_arith)
        requires
            3 * wh <= 0x1_0000_0000,
            wh == w * h,
            w > 0,
            h > 0,
    ;
    vstd::arithmetic::div_mod::lemma_small_mod(wh as nat, 0x1_0000_0000nat);
    assert(g.width.wrapping_mul(g.height) == wh);
    assert(c * wh <= 2 * wh) by (nonlinear_arith)
        requires
            c < 3,
            c >= 0,
            wh > 0,
    ;
    vstd::arithmetic::div_mod::lemma_small_mod((c * wh) as nat, 0x1_0000_0000nat);
    assert(c.wrapping_mul(g.width.wrapping_mul(g.height)) == c * wh);
    assert(y * w + w <= wh) by (nonlinear_arith)
        requires
            y < h,
            y >= 0,
            w > 0,
            wh == w * h,
    ;
    vstd::arithmetic::div_mod::lemma_small_mod((y * w) as nat, 0x1_0000_0000nat);
    assert(y.wrapping_mul(g.width) == y * w);
}

/// Independent channels: on a grid of at most 2^32 / 3 cells, no two channels
/// of any two cells are seeded from the same counter.
pub proof fn lemma_seed_counters_distinct(g: Grid, x1: u32, y1: u32, c1: u32, x2: u32, y2: u32, c2: u32)
    requires
        g.wf(),
        3 * (g.width as int * g.height as int) <= 0x1_0000_0000,
        x1 < g.width,
        x2 < g.width,
        y1 < g.height,
        y2 < g.height,
        c1 < 3,
        c2 < 3,
        x1 != x2 || y1 != y2 || c1 != c2,
    ensures
        seed_counter(g.width, g.height, x1, y1, c1) != seed_counter(g.width, g.height, x2, y2, c2),
{
    lemma_seed_counter_linear(g, x1, y1, c1);
    lemma_seed_counter_linear(g, x2, y2, c2);
    let w = g.width as int;
    let h = g.height as int;
    assert(forall|xa: int, ya: int, ca: int, xb: int, yb: int, cb: int|
        0 <= xa < w && 0 <= xb < w && 0 <= ya < h && 0 <= yb < h && 0 <= ca && 0 <= cb && (ca < cb
            || (ca == cb && ya < yb) || (ca == cb && ya == yb && xa < xb)) ==> #[trigger] linear_counter(
            w,
            h,
            xa,
            ya,
            ca,
        ) < #[trigger] linear_counter(w, h, xb, yb, cb)) by {
        assert forall|xa: int, ya: int, ca: int, xb: int, yb: int, cb: int|
            0 <= xa < w && 0 <= xb < w && 0 <= ya < h && 0 <= yb < h && 0 <= ca && 0 <= cb && (ca
                < cb || (ca == cb && ya < yb) || (ca == cb && ya == yb && xa < xb)) implies linear_counter(
            w,
            h,
            xa,
            ya,
            ca,
        ) < linear_counter(w, h, xb, yb, cb) by {
            if ca < cb {
                assert(ca * (w * h) + ya * w + xa < cb * (w * h) + yb * w + xb) by (nonlinear_arith)
                    requires
                        0 <= xa < w,
                        0 <= xb,
                        0 <= ya < h,
                        0 <= yb,
                        0 <= ca < cb,
                ;
            } else if ya < yb {
                assert(ya * w + xa < yb * w + xb) by (nonlinear_arith)
                    requires
                        0 <= xa < w,
                        0 <= xb,
                        0 <= ya < yb,
                ;
            }
        }
    }
    if c1 < c2 || (c1 == c2 && y1 < y2) || (c1 == c2 && y1 == y2 && x1 < x2) {
        assert(linear_counter(w, h, x1 as int, y1 as int, c1 as int) < linear_counter(
            w,
            h,
            x2 as int,
            y2 as int,
            c2 as int,
        ));
    } else {
        assert(linear_counter(w, h, x2 as int, y2 as int, c2 as int) < linear_counter(
            w,
            h,
            x1 as int,
            y1 as int,
            c1 as int,
        ));
    }
}

} // verus!
