//! Mathematical model of an LED layout: a sequence that gives, for each LED
//! index, the `(col, row)` cell it lights on a `w × h` grid.
//!
//! The transforms here (rotation, flips, concatenation) are the spec-level
//! counterparts of the executable methods of the layout types, and the lemmas
//! show that they keep a layout a bijection onto its grid.

use vstd::prelude::*;

verus! {

/// One LED position: `(col, row)`.
pub type Cell = (u16, u16);

/// Row-major index of the cell `(c, r)` on a grid `w` cells wide.
pub open spec fn cell_index(c: int, r: int, w: int) -> int {
    r * w + c
}

/// Some LED of `m` lights cell `(c, r)`.
pub open spec fn covered(m: Seq<Cell>, c: int, r: int) -> bool {
    exists|i: int| 0 <= i < m.len() && #[trigger] m[i].0 == c && m[i].1 == r
}

/// Every LED of `m` lies inside the `w × h` grid.
pub open spec fn in_bounds(m: Seq<Cell>, w: int, h: int) -> bool {
    forall|i: int| 0 <= i < m.len() ==> (#[trigger] m[i]).0 < w && m[i].1 < h
}

/// No two LEDs of `m` light the same cell.
pub open spec fn no_duplicates(m: Seq<Cell>) -> bool {
    forall|i: int, j: int|
        0 <= i < m.len() && 0 <= j < m.len() && i != j ==> #[trigger] m[i] != #[trigger] m[j]
}

/// Every cell of the `w × h` grid is lit by some LED of `m`.
pub open spec fn covers(m: Seq<Cell>, w: int, h: int) -> bool {
    forall|c: int, r: int| 0 <= c < w && 0 <= r < h ==> #[trigger] covered(m, c, r)
}

/// `m` maps its LEDs one-to-one onto the cells of a non-empty `w × h` grid.
pub open spec fn valid_layout(m: Seq<Cell>, w: int, h: int) -> bool {
    &&& w > 0
    &&& h > 0
    &&& m.len() == w * h
    &&& in_bounds(m, w, h)
    &&& no_duplicates(m)
    &&& covers(m, w, h)
}

/// Rotation by 90° clockwise of a layout `h` rows high: `(c, r)` goes to `(h - 1 - r, c)`.
pub open spec fn rotate_cw_seq(m: Seq<Cell>, h: int) -> Seq<Cell> {
    Seq::new(m.len(), |i: int| (((h - 1 - m[i].1) as u16), m[i].0))
}

/// Mirror of the columns of a layout `w` columns wide: `(c, r)` goes to `(w - 1 - c, r)`.
pub open spec fn flip_h_seq(m: Seq<Cell>, w: int) -> Seq<Cell> {
    Seq::new(m.len(), |i: int| (((w - 1 - m[i].0) as u16), m[i].1))
}

/// Mirror of the rows of a layout `h` rows high: `(c, r)` goes to `(c, h - 1 - r)`.
pub open spec fn flip_v_seq(m: Seq<Cell>, h: int) -> Seq<Cell> {
    Seq::new(m.len(), |i: int| (m[i].0, ((h - 1 - m[i].1) as u16)))
}

/// Rotation by 180°: `(c, r)` goes to `(w - 1 - c, h - 1 - r)`.
pub open spec fn rotate_180_seq(m: Seq<Cell>, w: int, h: int) -> Seq<Cell> {
    Seq::new(m.len(), |i: int| (((w - 1 - m[i].0) as u16), ((h - 1 - m[i].1) as u16)))
}

/// Rotation by 90° counter-clockwise of a layout `w` columns wide: `(c, r)` goes to `(r, w - 1 - c)`.
pub open spec fn rotate_ccw_seq(m: Seq<Cell>, w: int) -> Seq<Cell> {
    Seq::new(m.len(), |i: int| (m[i].1, ((w - 1 - m[i].0) as u16)))
}

/// Transposition: `(c, r)` goes to `(r, c)`.
pub open spec fn transpose_seq(m: Seq<Cell>) -> Seq<Cell> {
    Seq::new(m.len(), |i: int| (m[i].1, m[i].0))
}

/// Every column moved right by `dw`.
pub open spec fn shift_cols_seq(m: Seq<Cell>, dw: int) -> Seq<Cell> {
    Seq::new(m.len(), |i: int| (((m[i].0 + dw) as u16), m[i].1))
}

/// Every row moved down by `dh`.
pub open spec fn shift_rows_seq(m: Seq<Cell>, dh: int) -> Seq<Cell> {
    Seq::new(m.len(), |i: int| (m[i].0, ((m[i].1 + dh) as u16)))
}

/// Side by side: the LEDs of `left`, then those of `right` moved `w` columns to the right.
pub open spec fn concat_h_seq(left: Seq<Cell>, right: Seq<Cell>, w: int) -> Seq<Cell> {
    left + shift_cols_seq(right, w)
}

/// One above the other: the LEDs of `top`, then those of `bottom` moved `h` rows down.
pub open spec fn concat_v_seq(top: Seq<Cell>, bottom: Seq<Cell>, h: int) -> Seq<Cell> {
    top + shift_rows_seq(bottom, h)
}

/// Inverse lookup: `inv[cell_index(c, r, w)]` is the LED that lights `(c, r)`.
pub open spec fn is_inverse(m: Seq<Cell>, inv: Seq<u16>, w: int) -> bool {
    &&& inv.len() == m.len()
    &&& forall|i: int|
        0 <= i < m.len() ==> #[trigger] inv[cell_index(m[i].0 as int, m[i].1 as int, w)] == i
}

// ---------------------------------------------------------------------------
// Arithmetic on cell indices
// ---------------------------------------------------------------------------

/// A cell inside the grid has an index inside `0..w*h`.
pub proof fn lemma_cell_index_bounds(c: int, r: int, w: int, h: int)
    requires
        0 <= c < w,
        0 <= r < h,
    ensures
        0 <= cell_index(c, r, w) < w * h,
{
    assert(0 <= r * w + c < w * h) by (nonlinear_arith)
        requires
            0 <= c < w,
            0 <= r < h,
    ;
}

/// Two cells of the same grid with the same index are the same cell.
pub proof fn lemma_cell_index_injective(c1: int, r1: int, c2: int, r2: int, w: int)
    requires
        0 <= c1 < w,
        0 <= c2 < w,
        0 <= r1,
        0 <= r2,
        cell_index(c1, r1, w) == cell_index(c2, r2, w),
    ensures
        c1 == c2,
        r1 == r2,
{
    if r1 < r2 {
        assert(r1 * w + c1 < r2 * w + c2) by (nonlinear_arith)
            requires
                0 <= c1 < w,
                0 <= c2,
                r1 < r2,
        ;
    } else if r2 < r1 {
        assert(r2 * w + c2 < r1 * w + c1) by (nonlinear_arith)
            requires
                0 <= c2 < w,
                0 <= c1,
                r2 < r1,
        ;
    }
}

/// Every index in `0..w*h` is the index of a cell of the grid.
pub proof fn lemma_cell_index_onto(k: int, w: int, h: int)
    requires
        0 <= k < w * h,
        w > 0,
    ensures
        0 <= k % w < w,
        0 <= k / w < h,
        cell_index(k % w, k / w, w) == k,
{
    assert(k == (k / w) * w + k % w && 0 <= k % w < w) by (nonlinear_arith)
        requires
            w > 0,
    ;
    assert(0 <= k / w < h) by (nonlinear_arith)
        requires
            w > 0,
            0 <= k < w * h,
            k == (k / w) * w + k % w,
            0 <= k % w < w,
    ;
}

// ---------------------------------------------------------------------------
// Facts about valid layouts
// ---------------------------------------------------------------------------

/// In a valid layout both sides fit in a `u16` coordinate, and the grid is not empty.
pub proof fn lemma_valid_dims(m: Seq<Cell>, w: int, h: int)
    requires
        valid_layout(m, w, h),
    ensures
        w <= 0x1_0000,
        h <= 0x1_0000,
        m.len() >= 1,
        m.len() >= w,
        m.len() >= h,
{
    assert(covered(m, w - 1, h - 1));
    assert(w * h >= w && w * h >= h && w * h >= 1) by (nonlinear_arith)
        requires
            w > 0,
            h > 0,
    ;
}

/// A rotated valid layout is valid on the grid with its sides swapped.
pub proof fn lemma_rotate_cw_valid(m: Seq<Cell>, w: int, h: int)
    requires
        valid_layout(m, w, h),
    ensures
        valid_layout(rotate_cw_seq(m, h), h, w),
{
    lemma_valid_dims(m, w, h);
    let m2 = rotate_cw_seq(m, h);
    assert(h * w == w * h) by (nonlinear_arith);
    assert forall|i: int, j: int|
        0 <= i < m2.len() && 0 <= j < m2.len() && i != j implies #[trigger] m2[i]
        != #[trigger] m2[j] by {
        assert(m[i] != m[j]);
    }
    assert forall|c: int, r: int| 0 <= c < h && 0 <= r < w implies #[trigger] covered(
        m2,
        c,
        r,
    ) by {
        assert(covered(m, r, h - 1 - c));
        let i = choose|i: int| 0 <= i < m.len() && #[trigger] m[i].0 == r && m[i].1 == h - 1 - c;
        assert(m2[i].0 == c && m2[i].1 == r);
    }
}

/// A mirrored valid layout is valid on the same grid.
pub proof fn lemma_flip_h_valid(m: Seq<Cell>, w: int, h: int)
    requires
        valid_layout(m, w, h),
    ensures
        valid_layout(flip_h_seq(m, w), w, h),
{
    lemma_valid_dims(m, w, h);
    let m2 = flip_h_seq(m, w);
    assert forall|i: int, j: int|
        0 <= i < m2.len() && 0 <= j < m2.len() && i != j implies #[trigger] m2[i]
        != #[trigger] m2[j] by {
        assert(m[i] != m[j]);
    }
    assert forall|c: int, r: int| 0 <= c < w && 0 <= r < h implies #[trigger] covered(
        m2,
        c,
        r,
    ) by {
        assert(covered(m, w - 1 - c, r));
        let i = choose|i: int| 0 <= i < m.len() && #[trigger] m[i].0 == w - 1 - c && m[i].1 == r;
        assert(m2[i].0 == c && m2[i].1 == r);
    }
}

/// Two valid layouts with the same number of rows, side by side, make a valid layout.
pub proof fn lemma_concat_h_valid(left: Seq<Cell>, right: Seq<Cell>, w: int, w2: int, h: int)
    requires
        valid_layout(left, w, h),
        valid_layout(right, w2, h),
        w + w2 <= 0x1_0000,
    ensures
        valid_layout(concat_h_seq(left, right, w), w + w2, h),
{
    let s = shift_cols_seq(right, w);
    let m = concat_h_seq(left, right, w);
    let n = left.len();
    assert(m.len() == (w + w2) * h) by (nonlinear_arith)
        requires
            m.len() == left.len() + right.len(),
            left.len() == w * h,
            right.len() == w2 * h,
    ;
    assert forall|i: int| 0 <= i < m.len() implies (#[trigger] m[i]).0 < w + w2 && m[i].1 < h by {
        if i >= n {
            assert(m[i] == s[i - n]);
            assert(right[i - n].0 < w2);
        } else {
            assert(m[i] == left[i]);
        }
    }
    assert forall|i: int, j: int|
        0 <= i < m.len() && 0 <= j < m.len() && i != j implies #[trigger] m[i]
        != #[trigger] m[j] by {
        if i < n && j < n {
            assert(left[i] != left[j]);
        } else if i >= n && j >= n {
            assert(right[i - n] != right[j - n]);
        } else if i < n {
            assert(m[i] == left[i]);
            assert(m[j] == s[j - n]);
        } else {
            assert(m[j] == left[j]);
            assert(m[i] == s[i - n]);
        }
    }
    assert forall|c: int, r: int| 0 <= c < w + w2 && 0 <= r < h implies #[trigger] covered(
        m,
        c,
        r,
    ) by {
        if c < w {
            assert(covered(left, c, r));
            let i = choose|i: int|
                0 <= i < left.len() && #[trigger] left[i].0 == c && left[i].1 == r;
            assert(m[i] == left[i]);
        } else {
            assert(covered(right, c - w, r));
            let i = choose|i: int|
                0 <= i < right.len() && #[trigger] right[i].0 == c - w && right[i].1 == r;
            assert(m[n + i] == s[i]);
        }
    }
}

/// Rotating four times gives back the layout.
pub proof fn lemma_rotate_cw_four_times(m: Seq<Cell>, w: int, h: int)
    requires
        valid_layout(m, w, h),
    ensures
        rotate_cw_seq(rotate_cw_seq(rotate_cw_seq(rotate_cw_seq(m, h), w), h), w) == m,
{
    lemma_valid_dims(m, w, h);
    let m1 = rotate_cw_seq(m, h);
    let m2 = rotate_cw_seq(m1, w);
    let m3 = rotate_cw_seq(m2, h);
    let m4 = rotate_cw_seq(m3, w);
    assert forall|i: int| 0 <= i < m.len() implies #[trigger] m4[i] == m[i] by {
        assert(m[i].0 < w && m[i].1 < h);
    }
    assert(m4 =~= m);
}

/// Mirroring twice gives back the layout.
pub proof fn lemma_flip_h_twice(m: Seq<Cell>, w: int, h: int)
    requires
        valid_layout(m, w, h),
    ensures
        flip_h_seq(flip_h_seq(m, w), w) == m,
{
    lemma_valid_dims(m, w, h);
    let m2 = flip_h_seq(flip_h_seq(m, w), w);
    assert forall|i: int| 0 <= i < m.len() implies #[trigger] m2[i] == m[i] by {
        assert(m[i].0 < w);
    }
    assert(m2 =~= m);
}

/// Two quarter turns make a half turn.
pub proof fn lemma_rotate_cw_twice(m: Seq<Cell>, w: int, h: int)
    requires
        valid_layout(m, w, h),
    ensures
        rotate_cw_seq(rotate_cw_seq(m, h), w) == rotate_180_seq(m, w, h),
{
    lemma_valid_dims(m, w, h);
    let a = rotate_cw_seq(rotate_cw_seq(m, h), w);
    let b = rotate_180_seq(m, w, h);
    assert forall|i: int| 0 <= i < m.len() implies #[trigger] a[i] == b[i] by {
        assert(m[i].0 < w && m[i].1 < h);
    }
    assert(a =~= b);
}

/// Three quarter turns make a quarter turn the other way.
pub proof fn lemma_rotate_cw_thrice(m: Seq<Cell>, w: int, h: int)
    requires
        valid_layout(m, w, h),
    ensures
        rotate_cw_seq(rotate_cw_seq(rotate_cw_seq(m, h), w), h) == rotate_ccw_seq(m, w),
{
    lemma_valid_dims(m, w, h);
    let a = rotate_cw_seq(rotate_cw_seq(rotate_cw_seq(m, h), w), h);
    let b = rotate_ccw_seq(m, w);
    assert forall|i: int| 0 <= i < m.len() implies #[trigger] a[i] == b[i] by {
        assert(m[i].0 < w && m[i].1 < h);
    }
    assert(a =~= b);
}

/// A quarter turn, a mirror of the columns and a quarter turn back mirror the rows.
pub proof fn lemma_flip_v_by_rotation(m: Seq<Cell>, w: int, h: int)
    requires
        valid_layout(m, w, h),
    ensures
        rotate_ccw_seq(flip_h_seq(rotate_cw_seq(m, h), h), h) == flip_v_seq(m, h),
{
    lemma_valid_dims(m, w, h);
    let a = rotate_ccw_seq(flip_h_seq(rotate_cw_seq(m, h), h), h);
    let b = flip_v_seq(m, h);
    assert forall|i: int| 0 <= i < m.len() implies #[trigger] a[i] == b[i] by {
        assert(m[i].0 < w && m[i].1 < h);
    }
    assert(a =~= b);
}

/// A quarter turn followed by a mirror of the columns transposes the layout.
pub proof fn lemma_transpose_by_rotation(m: Seq<Cell>, w: int, h: int)
    requires
        valid_layout(m, w, h),
    ensures
        flip_h_seq(rotate_cw_seq(m, h), h) == transpose_seq(m),
{
    lemma_valid_dims(m, w, h);
    let a = flip_h_seq(rotate_cw_seq(m, h), h);
    let b = transpose_seq(m);
    assert forall|i: int| 0 <= i < m.len() implies #[trigger] a[i] == b[i] by {
        assert(m[i].0 < w && m[i].1 < h);
    }
    assert(a =~= b);
}

/// Stacking is transposed side-by-side placement of transposed layouts.
pub proof fn lemma_concat_v_by_transpose(top: Seq<Cell>, bottom: Seq<Cell>, h: int)
    ensures
        transpose_seq(concat_h_seq(transpose_seq(top), transpose_seq(bottom), h))
            == concat_v_seq(top, bottom, h),
{
    let a = transpose_seq(concat_h_seq(transpose_seq(top), transpose_seq(bottom), h));
    let b = concat_v_seq(top, bottom, h);
    let n = top.len();
    assert forall|i: int| 0 <= i < a.len() implies #[trigger] a[i] == b[i] by {
        if i >= n {
            assert(b[i] == shift_rows_seq(bottom, h)[i - n]);
        }
    }
    assert(a =~= b);
}

// ---------------------------------------------------------------------------
// Serpentine layouts
// ---------------------------------------------------------------------------

/// Position along a lane of `len` cells that is walked forward on even lanes and
/// backward on odd ones.
pub open spec fn snake(pos: int, lane: int, len: int) -> int {
    if lane % 2 == 0 {
        pos
    } else {
        len - 1 - pos
    }
}

/// LED index of cell `(c, r)` when the strip snakes down and up the columns of a grid `h` rows high.
pub open spec fn serpentine_column_major_index(c: int, r: int, h: int) -> int {
    cell_index(snake(r, c, h), c, h)
}

/// LED index of cell `(c, r)` when the strip snakes right and left along the rows of a grid `w` wide.
pub open spec fn serpentine_row_major_index(c: int, r: int, w: int) -> int {
    cell_index(snake(c, r, w), r, w)
}

/// The serpentine column-major layout of a `w × h` grid.
pub open spec fn serpentine_column_major_seq(w: int, h: int) -> Seq<Cell> {
    Seq::new((w * h) as nat, |i: int| (((i / h) as u16), (snake(i % h, i / h, h) as u16)))
}

/// The serpentine row-major layout of a `w × h` grid.
pub open spec fn serpentine_row_major_seq(w: int, h: int) -> Seq<Cell> {
    Seq::new((w * h) as nat, |i: int| ((snake(i % w, i / w, w) as u16), ((i / w) as u16)))
}

/// The serpentine column-major layout lights `(c, r)` with LED `serpentine_column_major_index(c, r, h)`,
/// and is valid.
pub proof fn lemma_serpentine_column_major(w: int, h: int)
    requires
        0 < w <= 0x1_0000,
        0 < h <= 0x1_0000,
    ensures
        valid_layout(serpentine_column_major_seq(w, h), w, h),
        forall|c: int, r: int|
            0 <= c < w && 0 <= r < h ==> {
                let k = #[trigger] serpentine_column_major_index(c, r, h);
                &&& 0 <= k < w * h
                &&& serpentine_column_major_seq(w, h)[k].0 == c
                &&& serpentine_column_major_seq(w, h)[k].1 == r
            },
{
    let m = serpentine_column_major_seq(w, h);
    assert(h * w == w * h) by (nonlinear_arith);
    assert forall|c: int, r: int| 0 <= c < w && 0 <= r < h implies {
        let k = #[trigger] serpentine_column_major_index(c, r, h);
        &&& 0 <= k < w * h
        &&& m[k].0 == c
        &&& m[k].1 == r
    } by {
        let p = snake(r, c, h);
        let k = cell_index(p, c, h);
        lemma_cell_index_bounds(p, c, h, w);
        lemma_cell_index_onto(k, h, w);
        lemma_cell_index_injective(k % h, k / h, p, c, h);
    }
    assert forall|i: int| 0 <= i < m.len() implies (#[trigger] m[i]).0 < w && m[i].1 < h by {
        lemma_cell_index_onto(i, h, w);
    }
    assert forall|i: int, j: int|
        0 <= i < m.len() && 0 <= j < m.len() && i != j implies #[trigger] m[i]
        != #[trigger] m[j] by {
        lemma_cell_index_onto(i, h, w);
        lemma_cell_index_onto(j, h, w);
        if m[i] == m[j] {
            assert(i / h == j / h);
            assert(i % h == j % h);
        }
    }
    assert forall|c: int, r: int| 0 <= c < w && 0 <= r < h implies #[trigger] covered(m, c, r) by {
        let k = serpentine_column_major_index(c, r, h);
        assert(m[k].0 == c && m[k].1 == r);
    }
}

/// The serpentine row-major layout lights `(c, r)` with LED `serpentine_row_major_index(c, r, w)`,
/// and is valid.
pub proof fn lemma_serpentine_row_major(w: int, h: int)
    requires
        0 < w <= 0x1_0000,
        0 < h <= 0x1_0000,
    ensures
        valid_layout(serpentine_row_major_seq(w, h), w, h),
        forall|c: int, r: int|
            0 <= c < w && 0 <= r < h ==> {
                let k = #[trigger] serpentine_row_major_index(c, r, w);
                &&& 0 <= k < w * h
                &&& serpentine_row_major_seq(w, h)[k].0 == c
                &&& serpentine_row_major_seq(w, h)[k].1 == r
            },
{
    let m = serpentine_row_major_seq(w, h);
    assert forall|c: int, r: int| 0 <= c < w && 0 <= r < h implies {
        let k = #[trigger] serpentine_row_major_index(c, r, w);
        &&& 0 <= k < w * h
        &&& m[k].0 == c
        &&& m[k].1 == r
    } by {
        let p = snake(c, r, w);
        let k = cell_index(p, r, w);
        lemma_cell_index_bounds(p, r, w, h);
        lemma_cell_index_onto(k, w, h);
        lemma_cell_index_injective(k % w, k / w, p, r, w);
    }
    assert forall|i: int| 0 <= i < m.len() implies (#[trigger] m[i]).0 < w && m[i].1 < h by {
        lemma_cell_index_onto(i, w, h);
    }
    assert forall|i: int, j: int|
        0 <= i < m.len() && 0 <= j < m.len() && i != j implies #[trigger] m[i]
        != #[trigger] m[j] by {
        lemma_cell_index_onto(i, w, h);
        lemma_cell_index_onto(j, w, h);
        if m[i] == m[j] {
            assert(i / w == j / w);
            assert(i % w == j % w);
        }
    }
    assert forall|c: int, r: int| 0 <= c < w && 0 <= r < h implies #[trigger] covered(m, c, r) by {
        let k = serpentine_row_major_index(c, r, w);
        assert(m[k].0 == c && m[k].1 == r);
    }
}

/// Distinct cells of the grid have distinct serpentine column-major indexes.
pub proof fn lemma_serpentine_column_major_injective(c1: int, r1: int, c2: int, r2: int, w: int, h: int)
    requires
        0 <= c1 < w,
        0 <= c2 < w,
        0 <= r1 < h,
        0 <= r2 < h,
        serpentine_column_major_index(c1, r1, h) == serpentine_column_major_index(c2, r2, h),
    ensures
        c1 == c2,
        r1 == r2,
{
    lemma_cell_index_injective(snake(r1, c1, h), c1, snake(r2, c2, h), c2, h);
}

/// Distinct cells of the grid have distinct serpentine row-major indexes.
pub proof fn lemma_serpentine_row_major_injective(c1: int, r1: int, c2: int, r2: int, w: int, h: int)
    requires
        0 <= c1 < w,
        0 <= c2 < w,
        0 <= r1 < h,
        0 <= r2 < h,
        serpentine_row_major_index(c1, r1, w) == serpentine_row_major_index(c2, r2, w),
    ensures
        c1 == c2,
        r1 == r2,
{
    lemma_cell_index_injective(snake(c1, r1, w), r1, snake(c2, r2, w), r2, w);
}

/// A quarter turn back undoes a quarter turn.
pub proof fn lemma_rotate_ccw_after_cw(m: Seq<Cell>, w: int, h: int)
    requires
        valid_layout(m, w, h),
    ensures
        rotate_ccw_seq(rotate_cw_seq(m, h), h) == m,
{
    lemma_valid_dims(m, w, h);
    let a = rotate_ccw_seq(rotate_cw_seq(m, h), h);
    assert forall|i: int| 0 <= i < m.len() implies #[trigger] a[i] == m[i] by {
        assert(m[i].0 < w && m[i].1 < h);
    }
    assert(a =~= m);
}

/// Two half turns give back the layout.
pub proof fn lemma_rotate_180_twice(m: Seq<Cell>, w: int, h: int)
    requires
        valid_layout(m, w, h),
    ensures
        rotate_180_seq(rotate_180_seq(m, w, h), w, h) == m,
{
    lemma_valid_dims(m, w, h);
    let a = rotate_180_seq(rotate_180_seq(m, w, h), w, h);
    assert forall|i: int| 0 <= i < m.len() implies #[trigger] a[i] == m[i] by {
        assert(m[i].0 < w && m[i].1 < h);
    }
    assert(a =~= m);
}

/// Mirroring the rows twice gives back the layout.
pub proof fn lemma_flip_v_twice(m: Seq<Cell>, w: int, h: int)
    requires
        valid_layout(m, w, h),
    ensures
        flip_v_seq(flip_v_seq(m, h), h) == m,
{
    lemma_valid_dims(m, w, h);
    let a = flip_v_seq(flip_v_seq(m, h), h);
    assert forall|i: int| 0 <= i < m.len() implies #[trigger] a[i] == m[i] by {
        assert(m[i].1 < h);
    }
    assert(a =~= m);
}

} // verus!
