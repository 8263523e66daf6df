//! Dense sampling of a tree over a square grid.
//!
//! `sample` turns one tree and a diameter `d` into a row-major buffer of
//! `d * d` scalars: cell `(x, y)` holds the tree's value at the normalized
//! coordinate `(x / (d - 1), y / (d - 1))` (with divisor one when `d == 1`).
//! Sampling is organized per row, and each row works on its own clone of
//! the tree, so rows share nothing; the buffer is pinned cell by cell to
//! `spec_eval`, which makes the result a function of the tree, the
//! diameter and the engine alone.

use crate::laws::lemma_equiv_eval;
use crate::scalar::{Scalar, UNIT};
use crate::tree::{spec_eval, Noise, NoiseEngine, NoiseFunc, Pos};
use vstd::arithmetic::div_mod::{
    lemma_div_by_multiple, lemma_div_pos_is_pos, lemma_fundamental_div_mod, lemma_mod_bound,
};
use vstd::arithmetic::mul::{lemma_mul_inequality, lemma_mul_is_commutative};
use vstd::prelude::*;

verus! {

/// The divisor of the grid's coordinate mapping: `diameter - 1`, with the
/// zero divisor of a one-cell grid replaced by one.
pub open spec fn grid_divisor(diameter: usize) -> int {
    if diameter <= 1 {
        1
    } else {
        diameter - 1
    }
}

/// The normalized coordinate of grid index `i`: `i / (diameter - 1)`,
/// rounded down to the nearest representable scalar.
pub open spec fn grid_coord(i: int, diameter: usize) -> Scalar {
    Scalar { bits: ((i * 65536) / grid_divisor(diameter)) as i64 }
}

/// The normalized 2D coordinate of grid cell `(x, y)`.
pub open spec fn grid_pos(x: int, y: int, diameter: usize) -> Pos {
    Pos { x: grid_coord(x, diameter), y: grid_coord(y, diameter) }
}

/// The value a sampled buffer holds at cell `(x, y)`.
pub open spec fn grid_value<F: NoiseFunc, E: NoiseEngine>(
    t: Noise<F>,
    x: int,
    y: int,
    diameter: usize,
    e: E,
) -> Scalar {
    spec_eval(t, grid_pos(x, y, diameter), e)
}

/// The two grid corners map to the two corners of the unit square: index
/// zero to coordinate zero, and index `diameter - 1` to coordinate one.
pub proof fn lemma_grid_corners(diameter: usize)
    requires
        1 <= diameter,
    ensures
        grid_coord(0, diameter) == (Scalar { bits: 0 }),
        2 <= diameter ==> grid_coord(diameter - 1, diameter) == (Scalar { bits: UNIT }),
{
    if 2 <= diameter {
        lemma_div_by_multiple(65536, diameter - 1);
        lemma_mul_is_commutative(65536, diameter - 1);
    }
}

/// One row of samples, at row index `y`: the unit of parallel work. A
/// host that fans rows out to workers gives each its own clone of the
/// tree and may check for cancellation between rows.
pub fn sample_row<F: NoiseFunc, E: NoiseEngine>(
    tree: &Noise<F>,
    y: usize,
    diameter: usize,
    engine: &E,
) -> (row: Vec<Scalar>)
    requires
        y < diameter,
    ensures
        row.len() == diameter,
        forall|x: int|
            0 <= x < diameter ==> row[x] == grid_value(*tree, x, y as int, diameter, *engine),
{
    let den: u64 = if diameter <= 1 {
        1
    } else {
        (diameter - 1) as u64
    };
    let cy = Scalar::from_ratio(y as u64, den);
    let mut row: Vec<Scalar> = Vec::new();
    let mut x: usize = 0;
    while x < diameter
        invariant
            x <= diameter,
            y < diameter,
            den as int == grid_divisor(diameter),
            y as int * 65536 / den as int == cy.bits,
            row.len() == x,
            forall|i: int|
                0 <= i < x ==> row[i] == grid_value(*tree, i, y as int, diameter, *engine),
        decreases diameter - x,
    {
        let cx = Scalar::from_ratio(x as u64, den);
        let v = tree.eval(Pos { x: cx, y: cy }, engine);
        proof {
            assert(Pos { x: cx, y: cy } == grid_pos(x as int, y as int, diameter));
        }
        row.push(v);
        x = x + 1;
    }
    row
}

/// A row-major square grid of sampled scalars with its side length.
pub struct NoiseOutput {
    /// Side length of the square grid.
    pub diameter: usize,
    /// The samples, row by row: cell `(x, y)` is at index `y * diameter + x`.
    pub samples: Vec<Scalar>,
}

impl NoiseOutput {
    /// A well-formed output holds exactly one sample per grid cell.
    pub open spec fn well_formed(&self) -> bool {
        self.samples.len() == self.diameter * self.diameter
    }

    /// A buffer of the given diameter filled with the default value zero.
    pub fn new(diameter: usize) -> (out: NoiseOutput)
        requires
            diameter * diameter <= usize::MAX,
        ensures
            out.diameter == diameter,
            out.well_formed(),
            forall|i: int| 0 <= i < out.samples.len() ==> out.samples[i] == (Scalar { bits: 0 }),
    {
        let mut samples: Vec<Scalar> = Vec::new();
        let mut i: usize = 0;
        proof {
            lemma_mul_inequality(0, diameter as int, diameter as int);
        }
        while i < diameter * diameter
            invariant
                diameter * diameter <= usize::MAX,
                i <= diameter * diameter,
                samples.len() == i,
                forall|k: int| 0 <= k < i ==> samples[k] == (Scalar { bits: 0 }),
            decreases diameter * diameter - i,
        {
            samples.push(Scalar { bits: 0 });
            i = i + 1;
        }
        NoiseOutput { diameter, samples }
    }

    /// The sample at cell `(x, y)`.
    pub fn at(&self, x: usize, y: usize) -> (r: Scalar)
        requires
            self.well_formed(),
            x < self.diameter,
            y < self.diameter,
        ensures
            r == self.samples[y as int * self.diameter as int + x as int],
    {
        proof {
            lemma_cell_index_in_range(x as int, y as int, self.diameter as usize);
        }
        self.samples[y * self.diameter + x]
    }

    /// A copy of row `y`, left to right.
    pub fn row(&self, y: usize) -> (row: Vec<Scalar>)
        requires
            self.well_formed(),
            y < self.diameter,
        ensures
            row.len() == self.diameter,
            forall|x: int|
                0 <= x < self.diameter ==> row[x] == self.samples[y as int * self.diameter as int
                    + x],
    {
        let mut row: Vec<Scalar> = Vec::new();
        let mut x: usize = 0;
        while x < self.diameter
            invariant
                self.well_formed(),
                y < self.diameter,
                x <= self.diameter,
                row.len() == x,
                forall|i: int|
                    0 <= i < x ==> row[i] == self.samples[y as int * self.diameter as int + i],
            decreases self.diameter - x,
        {
            row.push(self.at(x, y));
            x = x + 1;
        }
        row
    }

    /// All rows, top to bottom: the grid split into its units of work.
    pub fn rows(&self) -> (r: Vec<Vec<Scalar>>)
        requires
            self.well_formed(),
        ensures
            r.len() == self.diameter,
            forall|y: int| 0 <= y < self.diameter ==> r[y].len() == self.diameter,
            forall|y: int, x: int|
                0 <= y < self.diameter && 0 <= x < self.diameter ==> r[y][x]
                    == self.samples[y * self.diameter + x],
    {
        let mut r: Vec<Vec<Scalar>> = Vec::new();
        let mut y: usize = 0;
        while y < self.diameter
            invariant
                self.well_formed(),
                y <= self.diameter,
                r.len() == y,
                forall|j: int| 0 <= j < y ==> r[j].len() == self.diameter,
                forall|j: int, x: int|
                    0 <= j < y && 0 <= x < self.diameter ==> r[j][x] == self.samples[j
                        * self.diameter + x],
            decreases self.diameter - y,
        {
            r.push(self.row(y));
            y = y + 1;
        }
        r
    }

    /// Each sample mapped onto `[0, 1]` by `(v + 1) / 2`: the intensities a
    /// consumer displays as a grayscale image.
    pub fn intensities(&self) -> (out: Vec<Scalar>)
        ensures
            out.len() == self.samples.len(),
            forall|i: int|
                0 <= i < out.len() ==> out[i] == crate::scalar::s_to_unsigned_unit(
                    self.samples[i],
                ),
    {
        let mut out: Vec<Scalar> = Vec::new();
        let mut i: usize = 0;
        while i < self.samples.len()
            invariant
                i <= self.samples.len(),
                out.len() == i,
                forall|k: int|
                    0 <= k < i ==> out[k] == crate::scalar::s_to_unsigned_unit(self.samples[k]),
            decreases self.samples.len() - i,
        {
            out.push(self.samples[i].to_unsigned_unit());
            i = i + 1;
        }
        out
    }
}

/// A cell's row-major index lies inside the buffer.
proof fn lemma_cell_index_in_range(x: int, y: int, diameter: usize)
    requires
        0 <= x < diameter,
        0 <= y < diameter,
    ensures
        0 <= y * diameter + x < diameter * diameter,
        y * diameter + x < (y + 1) * diameter,
{
    lemma_mul_inequality(0, y, diameter as int);
    lemma_mul_inequality(y + 1, diameter as int, diameter as int);
    assert((y + 1) * diameter == y * diameter + diameter) by (nonlinear_arith);
}

/// Samples `tree` over a `diameter x diameter` grid, row by row, each row
/// on its own clone of the tree. The buffer is a function of the tree, the
/// diameter and the engine alone, so re-running this on the same inputs
/// reproduces it exactly.
pub fn sample<F: NoiseFunc, E: NoiseEngine>(
    tree: &Noise<F>,
    diameter: usize,
    engine: &E,
) -> (out: NoiseOutput)
    requires
        1 <= diameter,
        diameter * diameter <= usize::MAX,
    ensures
        out.diameter == diameter,
        out.well_formed(),
        forall|x: int, y: int|
            0 <= x < diameter && 0 <= y < diameter ==> out.samples[y * diameter + x] == grid_value(
                *tree,
                x,
                y,
                diameter,
                *engine,
            ),
{
    let mut samples: Vec<Scalar> = Vec::new();
    let mut y: usize = 0;
    proof {
        lemma_mul_inequality(0, diameter as int, diameter as int);
    }
    while y < diameter
        invariant
            1 <= diameter,
            diameter * diameter <= usize::MAX,
            y <= diameter,
            samples.len() == y * diameter,
            forall|xx: int, yy: int|
                0 <= xx < diameter && 0 <= yy < y ==> samples[yy * diameter + xx] == grid_value(
                    *tree,
                    xx,
                    yy,
                    diameter,
                    *engine,
                ),
        decreases diameter - y,
    {
        let worker_tree = tree.clone();
        let mut row = sample_row(&worker_tree, y, diameter, engine);
        proof {
            assert forall|xx: int| 0 <= xx < diameter implies row[xx] == grid_value(
                *tree,
                xx,
                y as int,
                diameter,
                *engine,
            ) by {
                lemma_equiv_eval(
                    worker_tree,
                    *tree,
                    grid_pos(xx, y as int, diameter),
                    *engine,
                );
            }
            lemma_cell_index_in_range(0, y as int, diameter);
            assert((y + 1) * diameter == y * diameter + diameter) by (nonlinear_arith);
        }
        let ghost old_samples = samples;
        samples.append(&mut row);
        proof {
            assert forall|xx: int, yy: int|
                0 <= xx < diameter && 0 <= yy < y + 1 implies samples[yy * diameter + xx]
                == grid_value(*tree, xx, yy, diameter, *engine) by {
                lemma_cell_index_in_range(xx, yy, diameter);
                if yy < y {
                    assert(yy * diameter + xx < y * diameter) by {
                        lemma_mul_inequality(yy + 1, y as int, diameter as int);
                        assert((yy + 1) * diameter == yy * diameter + diameter)
                            by (nonlinear_arith);
                    }
                    assert(samples[yy * diameter + xx] == old_samples[yy * diameter + xx]);
                } else {
                    assert(yy * diameter + xx - y * diameter == xx);
                }
            }
        }
        y = y + 1;
    }
    proof {
        lemma_mul_is_commutative(diameter as int, diameter as int);
    }
    NoiseOutput { diameter, samples }
}

/// The sampling contract pins every cell, so any two buffers that satisfy
/// it for the same tree, diameter and engine are equal.
pub proof fn lemma_sample_deterministic<F: NoiseFunc, E: NoiseEngine>(
    t: Noise<F>,
    diameter: usize,
    e: E,
    s1: Seq<Scalar>,
    s2: Seq<Scalar>,
)
    requires
        1 <= diameter,
        s1.len() == diameter * diameter,
        s2.len() == diameter * diameter,
        forall|x: int, y: int|
            0 <= x < diameter && 0 <= y < diameter ==> s1[y * diameter + x] == grid_value(
                t,
                x,
                y,
                diameter,
                e,
            ),
        forall|x: int, y: int|
            0 <= x < diameter && 0 <= y < diameter ==> s2[y * diameter + x] == grid_value(
                t,
                x,
                y,
                diameter,
                e,
            ),
    ensures
        s1 == s2,
{
    assert forall|i: int| 0 <= i < s1.len() implies s1[i] == s2[i] by {
        let d = diameter as int;
        let y = i / d;
        let x = i % d;
        lemma_fundamental_div_mod(i, d);
        lemma_mod_bound(i, d);
        assert(0 <= y) by {
            lemma_div_pos_is_pos(i, d);
        }
        if y >= d {
            lemma_mul_inequality(d, y, d);
            lemma_mul_is_commutative(y, d);
            lemma_mul_is_commutative(d, d);
            assert(false);
        }
        lemma_mul_is_commutative(d, y);
        assert(i == y * d + x);
        assert(s1[y * d + x] == grid_value(t, x, y, diameter, e));
        assert(s2[y * d + x] == grid_value(t, x, y, diameter, e));
    }
    assert(s1 =~= s2);
}

/// Index of triangle corner `c` of cell `(cx, cy)` in the triangle list
/// of a grid with `side` cells per row.
pub open spec fn tri_index(cx: int, cy: int, c: int, side: int) -> int {
    6 * (cy * side + cx) + c
}

/// Column offset of triangle corner `c` within its grid cell: the six
/// corners of the two triangles of one cell, in issue order.
pub open spec fn corner_dx(c: int) -> int {
    if c == 2 || c == 3 || c == 5 {
        1
    } else {
        0
    }
}

/// Row offset of triangle corner `c` within its grid cell.
pub open spec fn corner_dy(c: int) -> int {
    if c == 1 || c == 4 || c == 5 {
        1
    } else {
        0
    }
}

impl NoiseOutput {
    /// The sample at cell `(x, y)` scaled by `height_scale`: the height of
    /// a 3D surface vertex built from this buffer.
    pub fn height_at(&self, x: usize, y: usize, height_scale: Scalar) -> (r: Scalar)
        requires
            self.well_formed(),
            x < self.diameter,
            y < self.diameter,
        ensures
            r == crate::scalar::s_mul(
                self.samples[y as int * self.diameter as int + x as int],
                height_scale,
            ),
    {
        self.at(x, y).mul(height_scale)
    }

    /// The heights of the four neighbors of cell `(x, y)`, in the order
    /// north, east, south, west, with indices clamped at the grid's edge
    /// (a border cell is its own missing neighbor).
    pub fn neighbor_heights(&self, x: usize, y: usize, height_scale: Scalar) -> (r: (
        Scalar,
        Scalar,
        Scalar,
        Scalar,
    ))
        requires
            self.well_formed(),
            x < self.diameter,
            y < self.diameter,
        ensures
            r.0 == crate::scalar::s_mul(
                self.samples[(if y == 0 { y as int } else { y - 1 }) * self.diameter as int + x as int],
                height_scale,
            ),
            r.1 == crate::scalar::s_mul(
                self.samples[y as int * self.diameter as int + (if x == self.diameter - 1 { x as int } else { x + 1 })],
                height_scale,
            ),
            r.2 == crate::scalar::s_mul(
                self.samples[(if y == self.diameter - 1 { y as int } else { y + 1 }) * self.diameter as int + x as int],
                height_scale,
            ),
            r.3 == crate::scalar::s_mul(
                self.samples[y as int * self.diameter as int + (if x == 0 { x as int } else { x - 1 })],
                height_scale,
            ),
    {
        let north_y = if y == 0 {
            y
        } else {
            y - 1
        };
        let east_x = if x == self.diameter - 1 {
            x
        } else {
            x + 1
        };
        let south_y = if y == self.diameter - 1 {
            y
        } else {
            y + 1
        };
        let west_x = if x == 0 {
            x
        } else {
            x - 1
        };
        (
            self.height_at(x, north_y, height_scale),
            self.height_at(east_x, y, height_scale),
            self.height_at(x, south_y, height_scale),
            self.height_at(west_x, y, height_scale),
        )
    }
}

/// The triangle list of a heightfield mesh over a square grid: each of
/// the `(diameter - 1)^2` cells contributes two triangles, six vertices in
/// all, and each vertex is named by its grid indices `(x, y)`. Cell
/// `(cx, cy)` owns the six consecutive entries starting at
/// `6 * (cy * (diameter - 1) + cx)`.
pub fn grid_triangles(diameter: usize) -> (r: Vec<(usize, usize)>)
    requires
        1 <= diameter,
        6 * (diameter - 1) * (diameter - 1) <= usize::MAX,
    ensures
        r.len() == 6 * (diameter - 1) * (diameter - 1),
        forall|cx: int, cy: int, c: int|
            0 <= cx < diameter - 1 && 0 <= cy < diameter - 1 && 0 <= c < 6 ==> r[#[trigger] tri_index(
                cx,
                cy,
                c,
                diameter - 1,
            )] == ((cx + corner_dx(c)) as usize, (cy + corner_dy(c)) as usize),
{
    let side = diameter - 1;
    let mut r: Vec<(usize, usize)> = Vec::new();
    let mut cy: usize = 0;
    proof {
        lemma_mul_inequality(0, side as int, side as int);
        assert(6 * (side as int * side as int) == 6 * side as int * side as int)
            by (nonlinear_arith);
    }
    while cy < side
        invariant
            side == diameter - 1,
            6 * (diameter - 1) * (diameter - 1) <= usize::MAX,
            cy <= side,
            r.len() == 6 * (cy * side),
            forall|px: int, py: int, c: int|
                0 <= px < side && 0 <= py < cy && 0 <= c < 6 ==> r[#[trigger] tri_index(
                    px,
                    py,
                    c,
                    side as int,
                )] == ((px + corner_dx(c)) as usize, (py + corner_dy(c)) as usize),
        decreases side - cy,
    {
        let mut cx: usize = 0;
        proof {
            lemma_row_block_bound(cy as int, side as int);
        }
        while cx < side
            invariant
                side == diameter - 1,
                6 * (diameter - 1) * (diameter - 1) <= usize::MAX,
                cy < side,
                cx <= side,
                r.len() == 6 * (cy * side + cx),
                forall|px: int, py: int, c: int|
                    0 <= px < side && 0 <= py < cy && 0 <= c < 6 ==> r[#[trigger] tri_index(
                        px,
                        py,
                        c,
                        side as int,
                    )] == ((px + corner_dx(c)) as usize, (py + corner_dy(c)) as usize),
                forall|px: int, c: int|
                    0 <= px < cx && 0 <= c < 6 ==> r[#[trigger] tri_index(px, cy as int, c, side as int)]
                        == ((px + corner_dx(c)) as usize, (cy + corner_dy(c)) as usize),
            decreases side - cx,
        {
            proof {
                lemma_cell_block_bound(cx as int, cy as int, side as int);
            }
            let ghost base = r@.len() as int;
            r.push((cx, cy));
            r.push((cx, cy + 1));
            r.push((cx + 1, cy));
            r.push((cx + 1, cy));
            r.push((cx, cy + 1));
            r.push((cx + 1, cy + 1));
            proof {
                assert forall|px: int, py: int, c: int|
                    0 <= px < side && 0 <= py < cy && 0 <= c < 6 implies r[tri_index(
                    px,
                    py,
                    c,
                    side as int,
                )] == ((px + corner_dx(c)) as usize, (py + corner_dy(c)) as usize) by {
                    lemma_mul_inequality(py + 1, cy as int, side as int);
                    assert((py + 1) * (side as int) == py * (side as int) + side)
                        by (nonlinear_arith);
                    lemma_mul_inequality(0, cy as int, side as int);
                    assert(tri_index(px, py, c, side as int) < base);
                }
                assert forall|px: int, c: int| 0 <= px < cx + 1 && 0 <= c < 6 implies r[tri_index(
                    px,
                    cy as int,
                    c,
                    side as int,
                )] == ((px + corner_dx(c)) as usize, (cy + corner_dy(c)) as usize) by {
                    if px < cx {
                        assert(tri_index(px, cy as int, c, side as int) < base);
                    } else {
                        assert(tri_index(px, cy as int, c, side as int) == base + c);
                    }
                }
            }
            cx = cx + 1;
        }
        proof {
            assert(cy * side + side == (cy + 1) * side) by (nonlinear_arith);
        }
        cy = cy + 1;
    }
    proof {
        assert(6 * (side as int * side as int) == 6 * side as int * side as int)
            by (nonlinear_arith);
    }
    r
}

/// The block of a row of cells ends within the whole triangle list.
proof fn lemma_row_block_bound(cy: int, side: int)
    requires
        0 <= cy < side,
    ensures
        6 * (cy * side) + 6 * side <= 6 * (side * side),
        cy * side + side == (cy + 1) * side,
{
    lemma_mul_inequality(cy + 1, side, side);
    assert(cy * side + side == (cy + 1) * side) by (nonlinear_arith);
    assert(6 * ((cy + 1) * side) <= 6 * (side * side)) by {
        lemma_mul_inequality(cy + 1, side, side);
    }
}

/// The block of one cell ends within its row's block.
proof fn lemma_cell_block_bound(cx: int, cy: int, side: int)
    requires
        0 <= cx < side,
        0 <= cy < side,
    ensures
        6 * (cy * side + cx) + 6 <= 6 * (side * side),
        6 * (cy * side + cx) + 6 == 6 * (cy * side + (cx + 1)),
{
    lemma_row_block_bound(cy, side);
    lemma_mul_inequality(0, cy, side);
}

} // verus!
