//! The mathematical model of a raster: a grid of pixels.
//!
//! A pixel is the byte group of its samples (one sample per channel); a grid
//! is the rows of a raster in row-major order. The exact pixel permutations
//! performed by rotation, flip and crop are defined here, together with the
//! laws they obey: flipping twice, a half turn twice, and four quarter turns
//! are each the identity, and the full-frame crop returns the image unchanged.

use vstd::prelude::*;

verus! {

/// The byte group of one pixel's samples.
pub type PixelBytes = Seq<u8>;

/// The rows of a raster, row-major: `g[y][x]` is the pixel at column `x` of row `y`.
pub type PixelGrid = Seq<Seq<Seq<u8>>>;

/// The number of rows.
pub open spec fn grid_height(g: PixelGrid) -> nat {
    g.len()
}

/// The number of columns, read off the first row.
pub open spec fn grid_width(g: PixelGrid) -> nat {
    if g.len() == 0 {
        0
    } else {
        g[0].len()
    }
}

/// Every row has the same length: the grid is rectangular.
pub open spec fn is_rect(g: PixelGrid) -> bool {
    forall|i: int| 0 <= i < g.len() ==> (#[trigger] g[i]).len() == grid_width(g)
}

/// Every pixel's byte group has exactly `n` bytes.
pub open spec fn pixels_sized(g: PixelGrid, n: nat) -> bool {
    forall|i: int, j: int|
        0 <= i < g.len() && 0 <= j < g[i].len() ==> (#[trigger] g[i][j]).len() == n
}

/// The number of bytes in one row: the sum of its pixels' byte groups.
pub open spec fn row_bytes(r: Seq<Seq<u8>>) -> nat
    decreases r.len(),
{
    if r.len() == 0 {
        0
    } else {
        row_bytes(r.drop_last()) + r.last().len()
    }
}

/// The number of bytes in the raster's buffer: the sum over all rows.
pub open spec fn grid_bytes(g: PixelGrid) -> nat
    decreases g.len(),
{
    if g.len() == 0 {
        0
    } else {
        grid_bytes(g.drop_last()) + row_bytes(g.last())
    }
}

/// The grid mirrored along the vertical axis: each row reversed.
pub open spec fn flip_h_grid(g: PixelGrid) -> PixelGrid {
    Seq::new(g.len(), |i: int| Seq::new(g[i].len(), |j: int| g[i][g[i].len() - 1 - j]))
}

/// The grid mirrored along the horizontal axis: the rows in reverse order.
pub open spec fn flip_v_grid(g: PixelGrid) -> PixelGrid {
    Seq::new(g.len(), |i: int| g[g.len() - 1 - i])
}

/// The grid turned a quarter turn clockwise: the pixel at column `x` of row
/// `y` moves to column `height - 1 - y` of row `x`.
pub open spec fn rot90_grid(g: PixelGrid) -> PixelGrid {
    Seq::new(grid_width(g), |i: int| Seq::new(g.len(), |j: int| g[g.len() - 1 - j][i]))
}

/// The grid turned a half turn: rows reversed and each row reversed.
pub open spec fn rot180_grid(g: PixelGrid) -> PixelGrid {
    flip_h_grid(flip_v_grid(g))
}

/// The grid turned a quarter turn counter-clockwise: the pixel at column `x`
/// of row `y` moves to column `y` of row `width - 1 - x`.
pub open spec fn rot270_grid(g: PixelGrid) -> PixelGrid {
    Seq::new(grid_width(g), |i: int| Seq::new(g.len(), |j: int| g[j][grid_width(g) - 1 - i]))
}

/// The `w` by `h` sub-rectangle of the grid whose top-left corner is at
/// column `x` of row `y`.
pub open spec fn sub_grid(g: PixelGrid, x: nat, y: nat, w: nat, h: nat) -> PixelGrid {
    Seq::new(h, |i: int| Seq::new(w, |j: int| g[y + i][x + j]))
}

/// A horizontal flip keeps the shape of the grid and the size of every pixel.
pub proof fn lemma_flip_h_wf(g: PixelGrid, n: nat)
    requires
        is_rect(g),
        pixels_sized(g, n),
    ensures
        flip_h_grid(g).len() == g.len(),
        grid_width(flip_h_grid(g)) == grid_width(g),
        is_rect(flip_h_grid(g)),
        pixels_sized(flip_h_grid(g), n),
{
}

/// A vertical flip keeps the shape of the grid and the size of every pixel.
pub proof fn lemma_flip_v_wf(g: PixelGrid, n: nat)
    requires
        is_rect(g),
        pixels_sized(g, n),
        g.len() > 0,
    ensures
        flip_v_grid(g).len() == g.len(),
        grid_width(flip_v_grid(g)) == grid_width(g),
        is_rect(flip_v_grid(g)),
        pixels_sized(flip_v_grid(g), n),
{
}

/// A quarter turn swaps the width and the height and keeps pixel sizes.
pub proof fn lemma_rot90_wf(g: PixelGrid, n: nat)
    requires
        is_rect(g),
        pixels_sized(g, n),
        g.len() > 0,
        grid_width(g) > 0,
    ensures
        rot90_grid(g).len() == grid_width(g),
        grid_width(rot90_grid(g)) == g.len(),
        is_rect(rot90_grid(g)),
        pixels_sized(rot90_grid(g), n),
{
}

/// A half turn keeps the shape of the grid and the size of every pixel.
pub proof fn lemma_rot180_wf(g: PixelGrid, n: nat)
    requires
        is_rect(g),
        pixels_sized(g, n),
        g.len() > 0,
    ensures
        rot180_grid(g).len() == g.len(),
        grid_width(rot180_grid(g)) == grid_width(g),
        is_rect(rot180_grid(g)),
        pixels_sized(rot180_grid(g), n),
{
    lemma_flip_v_wf(g, n);
    lemma_flip_h_wf(flip_v_grid(g), n);
}

/// A counter-clockwise quarter turn swaps the width and the height and keeps
/// pixel sizes.
pub proof fn lemma_rot270_wf(g: PixelGrid, n: nat)
    requires
        is_rect(g),
        pixels_sized(g, n),
        g.len() > 0,
        grid_width(g) > 0,
    ensures
        rot270_grid(g).len() == grid_width(g),
        grid_width(rot270_grid(g)) == g.len(),
        is_rect(rot270_grid(g)),
        pixels_sized(rot270_grid(g), n),
{
}

/// A sub-rectangle that lies within the grid is rectangular and keeps pixel
/// sizes.
pub proof fn lemma_sub_grid_wf(g: PixelGrid, x: nat, y: nat, w: nat, h: nat, n: nat)
    requires
        is_rect(g),
        pixels_sized(g, n),
        x + w <= grid_width(g),
        y + h <= g.len(),
        w > 0,
        h > 0,
    ensures
        sub_grid(g, x, y, w, h).len() == h,
        grid_width(sub_grid(g, x, y, w, h)) == w,
        is_rect(sub_grid(g, x, y, w, h)),
        pixels_sized(sub_grid(g, x, y, w, h), n),
{
}

/// A row whose pixels all hold `n` bytes holds `len * n` bytes in all.
pub proof fn lemma_row_bytes(r: Seq<Seq<u8>>, n: nat)
    requires
        forall|j: int| 0 <= j < r.len() ==> (#[trigger] r[j]).len() == n,
    ensures
        row_bytes(r) == r.len() * n,
    decreases r.len(),
{
    if r.len() == 0 {
    } else {
        lemma_row_bytes(r.drop_last(), n);
        assert((r.len() - 1) * n + n == r.len() * n) by (nonlinear_arith);
    }
}

/// Law: the buffer of a rectangular grid whose pixels hold `n` bytes each
/// holds exactly `height * width * n` bytes — the buffer-length invariant
/// of the canonical image model.
pub proof fn lemma_grid_bytes(g: PixelGrid, n: nat)
    requires
        is_rect(g),
        pixels_sized(g, n),
    ensures
        grid_bytes(g) == g.len() * (grid_width(g) * n),
    decreases g.len(),
{
    if g.len() == 0 {
    } else {
        let head = g.drop_last();
        assert forall|i: int| 0 <= i < head.len() implies (#[trigger] head[i]).len()
            == grid_width(head) by {
            assert(head[i] == g[i]);
            if head.len() > 0 {
                assert(head[0] == g[0]);
            }
        }
        assert forall|i: int, j: int|
            0 <= i < head.len() && 0 <= j < head[i].len() implies (#[trigger] head[i][j]).len()
            == n by {
            assert(head[i] == g[i]);
        }
        lemma_grid_bytes(head, n);
        assert forall|j: int| 0 <= j < g.last().len() implies (#[trigger] g.last()[j]).len()
            == n by {
            assert(g.last() == g[g.len() - 1]);
        }
        lemma_row_bytes(g.last(), n);
        if g.len() == 1 {
            assert(grid_bytes(head) == 0);
        } else {
            assert(grid_width(head) == grid_width(g)) by {
                assert(head[0] == g[0]);
            }
        }
        assert(g.last().len() == grid_width(g));
        assert((g.len() - 1) * (grid_width(g) * n) + grid_width(g) * n == g.len() * (grid_width(g)
            * n)) by (nonlinear_arith);
    }
}

/// Law: flipping along the vertical axis twice restores every pixel.
pub proof fn lemma_flip_h_involutive(g: PixelGrid)
    ensures
        flip_h_grid(flip_h_grid(g)) == g,
{
    let f = flip_h_grid(flip_h_grid(g));
    assert forall|i: int| 0 <= i < g.len() implies f[i] =~= g[i] by {
        assert forall|j: int| 0 <= j < g[i].len() implies f[i][j] == g[i][j] by {}
    }
    assert(f =~= g);
}

/// Law: flipping along the horizontal axis twice restores every pixel.
pub proof fn lemma_flip_v_involutive(g: PixelGrid)
    ensures
        flip_v_grid(flip_v_grid(g)) == g,
{
    assert(flip_v_grid(flip_v_grid(g)) =~= g);
}

/// Law: two half turns restore every pixel.
pub proof fn lemma_rot180_involutive(g: PixelGrid)
    ensures
        rot180_grid(rot180_grid(g)) == g,
{
    let r = rot180_grid(rot180_grid(g));
    assert forall|i: int| 0 <= i < g.len() implies r[i] =~= g[i] by {
        assert forall|j: int| 0 <= j < g[i].len() implies r[i][j] == g[i][j] by {}
    }
    assert(r =~= g);
}

/// Law: four clockwise quarter turns restore every pixel of a non-empty
/// rectangular grid.
pub proof fn lemma_rot90_four_times(g: PixelGrid)
    requires
        is_rect(g),
        g.len() > 0,
        grid_width(g) > 0,
    ensures
        rot90_grid(rot90_grid(rot90_grid(rot90_grid(g)))) == g,
{
    let r1 = rot90_grid(g);
    let r2 = rot90_grid(r1);
    let r3 = rot90_grid(r2);
    let r4 = rot90_grid(r3);
    assert forall|i: int| 0 <= i < g.len() implies r4[i] =~= g[i] by {
        assert forall|j: int| 0 <= j < g[i].len() implies r4[i][j] == g[i][j] by {}
    }
    assert(r4 =~= g);
}

/// Law: a clockwise quarter turn followed by a counter-clockwise quarter
/// turn restores every pixel of a non-empty rectangular grid.
pub proof fn lemma_rot270_undoes_rot90(g: PixelGrid)
    requires
        is_rect(g),
        g.len() > 0,
        grid_width(g) > 0,
    ensures
        rot270_grid(rot90_grid(g)) == g,
{
    let r = rot270_grid(rot90_grid(g));
    assert forall|i: int| 0 <= i < g.len() implies r[i] =~= g[i] by {
        assert forall|j: int| 0 <= j < g[i].len() implies r[i][j] == g[i][j] by {}
    }
    assert(r =~= g);
}

/// Law: the crop that covers the whole frame returns the grid unchanged.
pub proof fn lemma_sub_grid_full(g: PixelGrid)
    requires
        is_rect(g),
    ensures
        sub_grid(g, 0, 0, grid_width(g), grid_height(g)) == g,
{
    let s = sub_grid(g, 0, 0, grid_width(g), grid_height(g));
    assert forall|i: int| 0 <= i < g.len() implies s[i] =~= g[i] by {
        assert forall|j: int| 0 <= j < g[i].len() implies s[i][j] == g[i][j] by {}
    }
    assert(s =~= g);
}

} // verus!
