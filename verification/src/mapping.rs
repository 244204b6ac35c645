//! LED index → `(col, row)` mapping for a grid of `ROWS × COLS` LEDs, with the
//! generators and transforms that led2d devices use.

use vstd::prelude::*;

use crate::grid::{
    cell_index, concat_h_seq, concat_v_seq, covered, covers, flip_h_seq, flip_v_seq, in_bounds,
    lemma_cell_index_bounds, lemma_cell_index_injective, lemma_cell_index_onto,
    lemma_concat_h_valid, lemma_concat_v_by_transpose, lemma_flip_h_valid, lemma_flip_v_by_rotation,
    lemma_rotate_cw_thrice, lemma_rotate_cw_twice, lemma_rotate_cw_valid,
    lemma_transpose_by_rotation, lemma_valid_dims, rotate_180_seq, rotate_ccw_seq, rotate_cw_seq,
    shift_cols_seq, valid_layout, Cell, lemma_serpentine_column_major,
    lemma_serpentine_column_major_injective, lemma_serpentine_row_major,
    lemma_serpentine_row_major_injective, serpentine_column_major_index,
    serpentine_column_major_seq, serpentine_row_major_index, serpentine_row_major_seq, snake,
};

verus! {

/// Checked LED index → `(col, row)` mapping for a grid of `ROWS` rows and `COLS` columns.
#[derive(Clone, Copy, Debug, PartialEq, Eq)]
pub struct LedLayout<const N: usize, const ROWS: usize, const COLS: usize> {
    pub map: [(u16, u16); N],
}

impl<const N: usize, const ROWS: usize, const COLS: usize> LedLayout<N, ROWS, COLS> {
    /// The `(col, row)` of each LED, by LED index.
    pub open spec fn cells(&self) -> Seq<Cell> {
        self.map@
    }

    /// The layout is a bijection from the `N` LEDs onto the `COLS × ROWS` grid.
    pub open spec fn wf(&self) -> bool {
        valid_layout(self.cells(), COLS as int, ROWS as int)
    }

    /// Whether `map` covers every cell of the `COLS × ROWS` grid exactly once.
    pub fn is_valid(map: &[(u16, u16); N]) -> (valid: bool)
        ensures
            valid == valid_layout(map@, COLS as int, ROWS as int),
    {
        if COLS == 0 || ROWS == 0 {
            return false;
        }
        if COLS > N || N / COLS != ROWS || N % COLS != 0 {
            proof {
                if COLS as int * ROWS as int == N as int {
                    assert(N as int / COLS as int == ROWS as int && N as int % COLS as int == 0)
                        by (nonlinear_arith)
                        requires
                            COLS > 0,
                            COLS as int * ROWS as int == N as int,
                    ;
                    assert(COLS as int <= N as int) by (nonlinear_arith)
                        requires
                            ROWS > 0,
                            COLS as int * ROWS as int == N as int,
                    ;
                }
            }
            return false;
        }
        proof {
            assert(COLS as int * ROWS as int == N as int) by (nonlinear_arith)
                requires
                    COLS > 0,
                    N as int / COLS as int == ROWS as int,
                    N as int % COLS as int == 0,
            ;
        }
        let mut seen = [false; N];
        let mut i: usize = 0;
        while i < N
            invariant
                0 <= i <= N,
                COLS > 0,
                ROWS > 0,
                COLS as int * ROWS as int == N as int,
                seen@.len() == N,
                forall|k: int| 0 <= k < i ==> (#[trigger] map@[k]).0 < COLS && map@[k].1 < ROWS,
                forall|k: int|
                    0 <= k < i ==> 0 <= #[trigger] cell_index(
                        map@[k].0 as int,
                        map@[k].1 as int,
                        COLS as int,
                    ) < N,
                forall|k: int, l: int| 0 <= k < i && 0 <= l < i && k != l ==> map@[k] != map@[l],
                forall|k: int|
                    0 <= k < i ==> #[trigger] seen@[cell_index(
                        map@[k].0 as int,
                        map@[k].1 as int,
                        COLS as int,
                    )],
                forall|x: int|
                    0 <= x < N && #[trigger] seen@[x] ==> exists|k: int|
                        0 <= k < i && cell_index(map@[k].0 as int, map@[k].1 as int, COLS as int)
                            == x,
            decreases N - i,
        {
            let (c, r) = map[i];
            if c as usize >= COLS || r as usize >= ROWS {
                return false;
            }
            proof {
                lemma_cell_index_bounds(c as int, r as int, COLS as int, ROWS as int);
            }
            let cell = r as usize * COLS + c as usize;
            if seen[cell] {
                proof {
                    let k = choose|k: int|
                        0 <= k < i && cell_index(map@[k].0 as int, map@[k].1 as int, COLS as int)
                            == cell as int;
                    lemma_cell_index_injective(
                        map@[k].0 as int,
                        map@[k].1 as int,
                        c as int,
                        r as int,
                        COLS as int,
                    );
                    assert(map@[k] == map@[i as int]);
                }
                return false;
            }
            proof {
                assert forall|k: int| 0 <= k < i implies map@[k] != map@[i as int] by {
                    if map@[k] == map@[i as int] {
                        assert(seen@[cell_index(map@[k].0 as int, map@[k].1 as int, COLS as int)]);
                    }
                }
            }
            let ghost old_seen = seen@;
            seen[cell] = true;
            proof {
                assert forall|x: int| 0 <= x < N && #[trigger] seen@[x] implies exists|k: int|
                    0 <= k < i + 1 && cell_index(map@[k].0 as int, map@[k].1 as int, COLS as int)
                        == x by {
                    if x != cell {
                        assert(old_seen[x]);
                    } else {
                        assert(cell_index(
                            map@[i as int].0 as int,
                            map@[i as int].1 as int,
                            COLS as int,
                        ) == x);
                    }
                }
            }
            i += 1;
        }
        let mut k: usize = 0;
        while k < N
            invariant
                0 <= k <= N,
                COLS > 0,
                COLS as int * ROWS as int == N as int,
                seen@.len() == N,
                in_bounds(map@, COLS as int, ROWS as int),
                forall|x: int|
                    0 <= x < N && #[trigger] seen@[x] ==> exists|j: int|
                        0 <= j < N && cell_index(map@[j].0 as int, map@[j].1 as int, COLS as int)
                            == x,
                forall|j: int|
                    0 <= j < N ==> #[trigger] seen@[cell_index(
                        map@[j].0 as int,
                        map@[j].1 as int,
                        COLS as int,
                    )],
                forall|x: int| 0 <= x < k ==> #[trigger] seen@[x],
            decreases N - k,
        {
            if !seen[k] {
                proof {
                    lemma_cell_index_onto(k as int, COLS as int, ROWS as int);
                    let c = k as int % COLS as int;
                    let r = k as int / COLS as int;
                    if covered(map@, c, r) {
                        let j = choose|j: int| 0 <= j < map@.len() && #[trigger] map@[j].0 == c
                            && map@[j].1 == r;
                        assert(seen@[cell_index(map@[j].0 as int, map@[j].1 as int, COLS as int)]);
                    }
                    assert(!covers(map@, COLS as int, ROWS as int));
                }
                return false;
            }
            k += 1;
        }
        proof {
            assert forall|c: int, r: int| 0 <= c < COLS && 0 <= r < ROWS implies #[trigger] covered(
                map@,
                c,
                r,
            ) by {
                lemma_cell_index_bounds(c, r, COLS as int, ROWS as int);
                let x = cell_index(c, r, COLS as int);
                assert(seen@[x]);
                let j = choose|j: int|
                    0 <= j < N && cell_index(map@[j].0 as int, map@[j].1 as int, COLS as int) == x;
                lemma_cell_index_injective(
                    map@[j].0 as int,
                    map@[j].1 as int,
                    c,
                    r,
                    COLS as int,
                );
            }
        }
        true
    }

    /// Builds a layout from a mapping that covers every cell of the grid exactly once.
    pub fn new(map: [(u16, u16); N]) -> (layout: Self)
        requires
            valid_layout(map@, COLS as int, ROWS as int),
        ensures
            layout.wf(),
            layout.cells() == map@,
    {
        Self { map }
    }

    /// Whether both layouts put every LED in the same cell.
    pub fn equals(&self, other: &Self) -> (same: bool)
        ensures
            same == (self.cells() == other.cells()),
    {
        let mut i: usize = 0;
        while i < N
            invariant
                0 <= i <= N,
                self.map@.len() == N,
                other.map@.len() == N,
                forall|k: int| 0 <= k < i ==> self.map@[k] == other.map@[k],
            decreases N - i,
        {
            if self.map[i].0 != other.map[i].0 || self.map[i].1 != other.map[i].1 {
                return false;
            }
            i += 1;
        }
        assert(self.map@ =~= other.map@);
        true
    }

    /// Linear mapping for a single-row strip: LED `i` is at `(i, 0)`.
    pub fn linear_h() -> (layout: Self)
        requires
            ROWS == 1,
            COLS == N,
            N > 0,
            N <= 0x1_0000,
        ensures
            layout.wf(),
            forall|i: int| 0 <= i < N ==> #[trigger] layout.cells()[i] == (i as u16, 0u16),
    {
        let mut mapping = [(0u16, 0u16); N];
        let mut column_index: usize = 0;
        while column_index < COLS
            invariant
                0 <= column_index <= COLS,
                COLS == N,
                N <= 0x1_0000,
                mapping@.len() == N,
                forall|i: int| 0 <= i < column_index ==> #[trigger] mapping@[i] == (i as u16, 0u16),
            decreases COLS - column_index,
        {
            mapping[column_index] = (column_index as u16, 0);
            column_index += 1;
        }
        proof {
            assert forall|c: int, r: int| 0 <= c < COLS && 0 <= r < ROWS implies #[trigger] covered(
                mapping@,
                c,
                r,
            ) by {
                assert(mapping@[c] == (c as u16, 0u16));
                assert(mapping@[c].0 == c && mapping@[c].1 == r);
            }
        }
        Self { map: mapping }
    }

    /// Linear mapping for a single-column strip: LED `i` is at `(0, i)`.
    pub fn linear_v() -> (layout: Self)
        requires
            COLS == 1,
            ROWS == N,
            N > 0,
            N <= 0x1_0000,
        ensures
            layout.wf(),
            forall|i: int| 0 <= i < N ==> #[trigger] layout.cells()[i] == (0u16, i as u16),
    {
        let mut mapping = [(0u16, 0u16); N];
        let mut row_index: usize = 0;
        while row_index < ROWS
            invariant
                0 <= row_index <= ROWS,
                ROWS == N,
                N <= 0x1_0000,
                mapping@.len() == N,
                forall|i: int| 0 <= i < row_index ==> #[trigger] mapping@[i] == (0u16, i as u16),
            decreases ROWS - row_index,
        {
            mapping[row_index] = (0, row_index as u16);
            row_index += 1;
        }
        proof {
            assert forall|c: int, r: int| 0 <= c < COLS && 0 <= r < ROWS implies #[trigger] covered(
                mapping@,
                c,
                r,
            ) by {
                assert(mapping@[r] == (0u16, r as u16));
                assert(mapping@[r].0 == c && mapping@[r].1 == r);
            }
        }
        Self { map: mapping }
    }

    /// Serpentine column-major layout: even columns run top to bottom, odd columns bottom to top.
    pub fn serpentine_column_major() -> (layout: Self)
        requires
            COLS > 0,
            ROWS > 0,
            COLS as int * ROWS as int == N as int,
            COLS <= 0x1_0000,
            ROWS <= 0x1_0000,
        ensures
            layout.wf(),
            layout.cells() == serpentine_column_major_seq(COLS as int, ROWS as int),
    {
        proof {
            lemma_serpentine_column_major(COLS as int, ROWS as int);
            assert(ROWS as int * COLS as int == N as int) by (nonlinear_arith)
                requires
                    COLS as int * ROWS as int == N as int,
            ;
        }
        let mut mapping = [(0u16, 0u16); N];
        let mut row_index: usize = 0;
        while row_index < ROWS
            invariant
                0 <= row_index <= ROWS,
                COLS > 0,
                COLS as int * ROWS as int == N as int,
                ROWS as int * COLS as int == N as int,
                COLS <= 0x1_0000,
                ROWS <= 0x1_0000,
                mapping@.len() == N,
                forall|c: int, r: int|
                    0 <= c < COLS && 0 <= r < row_index ==> mapping@[#[trigger] serpentine_column_major_index(
                        c,
                        r,
                        ROWS as int,
                    )] == (c as u16, r as u16),
            decreases ROWS - row_index,
        {
            let mut column_index: usize = 0;
            while column_index < COLS
                invariant
                    0 <= column_index <= COLS,
                    0 <= row_index < ROWS,
                    COLS as int * ROWS as int == N as int,
                    ROWS as int * COLS as int == N as int,
                    COLS <= 0x1_0000,
                    ROWS <= 0x1_0000,
                    mapping@.len() == N,
                    forall|c: int, r: int|
                        (0 <= c < COLS && 0 <= r < row_index) || (0 <= c < column_index && r
                            == row_index) ==> mapping@[#[trigger] serpentine_column_major_index(
                            c,
                            r,
                            ROWS as int,
                        )] == (c as u16, r as u16),
                decreases COLS - column_index,
            {
                let ghost p = snake(row_index as int, column_index as int, ROWS as int);
                proof {
                    lemma_cell_index_bounds(p, column_index as int, ROWS as int, COLS as int);
                }
                let led_index = if column_index % 2 == 0 {
                    column_index * ROWS + row_index
                } else {
                    column_index * ROWS + (ROWS - 1 - row_index)
                };
                let ghost old_mapping = mapping@;
                mapping[led_index] = (column_index as u16, row_index as u16);
                proof {
                    assert forall|c: int, r: int|
                        (0 <= c < COLS && 0 <= r < row_index) || (0 <= c < column_index + 1 && r
                            == row_index) implies mapping@[#[trigger] serpentine_column_major_index(
                        c,
                        r,
                        ROWS as int,
                    )] == (c as u16, r as u16) by {
                        if c != column_index || r != row_index {
                            if serpentine_column_major_index(c, r, ROWS as int) == led_index {
                                lemma_serpentine_column_major_injective(
                                    c,
                                    r,
                                    column_index as int,
                                    row_index as int,
                                    COLS as int,
                                    ROWS as int,
                                );
                            }
                            let k = serpentine_column_major_index(c, r, ROWS as int);
                            lemma_cell_index_bounds(snake(r, c, ROWS as int), c, ROWS as int, COLS as int);
                            assert(old_mapping[k] == (c as u16, r as u16));
                        }
                    }
                }
                column_index += 1;
            }
            row_index += 1;
        }
        proof {
            let target = serpentine_column_major_seq(COLS as int, ROWS as int);
            assert forall|i: int| 0 <= i < N implies #[trigger] mapping@[i] == target[i] by {
                lemma_cell_index_onto(i, ROWS as int, COLS as int);
                let c = i / ROWS as int;
                let r = snake(i % ROWS as int, c, ROWS as int);
                assert(serpentine_column_major_index(c, r, ROWS as int) == i);
            }
            assert(mapping@ =~= target);
        }
        Self { map: mapping }
    }

    /// Serpentine row-major layout: even rows run left to right, odd rows right to left.
    pub fn serpentine_row_major() -> (layout: Self)
        requires
            COLS > 0,
            ROWS > 0,
            COLS as int * ROWS as int == N as int,
            COLS <= 0x1_0000,
            ROWS <= 0x1_0000,
        ensures
            layout.wf(),
            layout.cells() == serpentine_row_major_seq(COLS as int, ROWS as int),
    {
        proof {
            lemma_serpentine_row_major(COLS as int, ROWS as int);
        }
        let mut mapping = [(0u16, 0u16); N];
        let mut row_index: usize = 0;
        while row_index < ROWS
            invariant
                0 <= row_index <= ROWS,
                COLS > 0,
                COLS as int * ROWS as int == N as int,
                COLS <= 0x1_0000,
                ROWS <= 0x1_0000,
                mapping@.len() == N,
                forall|c: int, r: int|
                    0 <= c < COLS && 0 <= r < row_index ==> mapping@[#[trigger] serpentine_row_major_index(
                        c,
                        r,
                        COLS as int,
                    )] == (c as u16, r as u16),
            decreases ROWS - row_index,
        {
            let mut column_index: usize = 0;
            while column_index < COLS
                invariant
                    0 <= column_index <= COLS,
                    0 <= row_index < ROWS,
                    COLS as int * ROWS as int == N as int,
                    COLS <= 0x1_0000,
                    ROWS <= 0x1_0000,
                    mapping@.len() == N,
                    forall|c: int, r: int|
                        (0 <= c < COLS && 0 <= r < row_index) || (0 <= c < column_index && r
                            == row_index) ==> mapping@[#[trigger] serpentine_row_major_index(
                            c,
                            r,
                            COLS as int,
                        )] == (c as u16, r as u16),
                decreases COLS - column_index,
            {
                let ghost p = snake(column_index as int, row_index as int, COLS as int);
                proof {
                    lemma_cell_index_bounds(p, row_index as int, COLS as int, ROWS as int);
                }
                let led_index = if row_index % 2 == 0 {
                    row_index * COLS + column_index
                } else {
                    row_index * COLS + (COLS - 1 - column_index)
                };
                let ghost old_mapping = mapping@;
                mapping[led_index] = (column_index as u16, row_index as u16);
                proof {
                    assert forall|c: int, r: int|
                        (0 <= c < COLS && 0 <= r < row_index) || (0 <= c < column_index + 1 && r
                            == row_index) implies mapping@[#[trigger] serpentine_row_major_index(
                        c,
                        r,
                        COLS as int,
                    )] == (c as u16, r as u16) by {
                        if c != column_index || r != row_index {
                            if serpentine_row_major_index(c, r, COLS as int) == led_index {
                                lemma_serpentine_row_major_injective(
                                    c,
                                    r,
                                    column_index as int,
                                    row_index as int,
                                    COLS as int,
                                    ROWS as int,
                                );
                            }
                            let k = serpentine_row_major_index(c, r, COLS as int);
                            lemma_cell_index_bounds(snake(c, r, COLS as int), r, COLS as int, ROWS as int);
                            assert(old_mapping[k] == (c as u16, r as u16));
                        }
                    }
                }
                column_index += 1;
            }
            row_index += 1;
        }
        proof {
            let target = serpentine_row_major_seq(COLS as int, ROWS as int);
            assert forall|i: int| 0 <= i < N implies #[trigger] mapping@[i] == target[i] by {
                lemma_cell_index_onto(i, COLS as int, ROWS as int);
                let r = i / COLS as int;
                let c = snake(i % COLS as int, r, COLS as int);
                assert(serpentine_row_major_index(c, r, COLS as int) == i);
            }
            assert(mapping@ =~= target);
        }
        Self { map: mapping }
    }

    /// Rotate 90° clockwise: `(c, r)` goes to `(ROWS - 1 - r, c)` on the `ROWS × COLS` grid.
    pub fn rotate_cw(self) -> (rotated: LedLayout<N, COLS, ROWS>)
        requires
            self.wf(),
        ensures
            rotated.wf(),
            rotated.cells() == rotate_cw_seq(self.cells(), ROWS as int),
    {
        proof {
            lemma_valid_dims(self.map@, COLS as int, ROWS as int);
            lemma_rotate_cw_valid(self.map@, COLS as int, ROWS as int);
        }
        let mut out = [(0u16, 0u16); N];
        let mut i: usize = 0;
        while i < N
            invariant
                0 <= i <= N,
                self.wf(),
                ROWS <= 0x1_0000,
                out@.len() == N,
                forall|k: int|
                    0 <= k < i ==> #[trigger] out@[k] == rotate_cw_seq(self.map@, ROWS as int)[k],
            decreases N - i,
        {
            let (c, r) = self.map[i];
            out[i] = ((ROWS - 1 - r as usize) as u16, c);
            i += 1;
        }
        assert(out@ =~= rotate_cw_seq(self.map@, ROWS as int));
        LedLayout { map: out }
    }

    /// Mirror the columns: `(c, r)` goes to `(COLS - 1 - c, r)`.
    pub fn flip_h(self) -> (flipped: Self)
        requires
            self.wf(),
        ensures
            flipped.wf(),
            flipped.cells() == flip_h_seq(self.cells(), COLS as int),
    {
        proof {
            lemma_valid_dims(self.map@, COLS as int, ROWS as int);
            lemma_flip_h_valid(self.map@, COLS as int, ROWS as int);
        }
        let mut out = [(0u16, 0u16); N];
        let mut i: usize = 0;
        while i < N
            invariant
                0 <= i <= N,
                self.wf(),
                COLS <= 0x1_0000,
                out@.len() == N,
                forall|k: int|
                    0 <= k < i ==> #[trigger] out@[k] == flip_h_seq(self.map@, COLS as int)[k],
            decreases N - i,
        {
            let (c, r) = self.map[i];
            out[i] = ((COLS - 1 - c as usize) as u16, r);
            i += 1;
        }
        assert(out@ =~= flip_h_seq(self.map@, COLS as int));
        LedLayout { map: out }
    }

    /// Rotate 180°: `(c, r)` goes to `(COLS - 1 - c, ROWS - 1 - r)`.
    pub fn rotate_180(self) -> (rotated: Self)
        requires
            self.wf(),
        ensures
            rotated.wf(),
            rotated.cells() == rotate_180_seq(self.cells(), COLS as int, ROWS as int),
    {
        proof {
            lemma_rotate_cw_twice(self.map@, COLS as int, ROWS as int);
        }
        self.rotate_cw().rotate_cw()
    }

    /// Rotate 90° counter-clockwise: `(c, r)` goes to `(r, COLS - 1 - c)` on the `ROWS × COLS` grid.
    pub fn rotate_ccw(self) -> (rotated: LedLayout<N, COLS, ROWS>)
        requires
            self.wf(),
        ensures
            rotated.wf(),
            rotated.cells() == rotate_ccw_seq(self.cells(), COLS as int),
    {
        proof {
            lemma_rotate_cw_thrice(self.map@, COLS as int, ROWS as int);
        }
        self.rotate_cw().rotate_cw().rotate_cw()
    }

    /// Mirror the rows: `(c, r)` goes to `(c, ROWS - 1 - r)`.
    pub fn flip_v(self) -> (flipped: Self)
        requires
            self.wf(),
        ensures
            flipped.wf(),
            flipped.cells() == flip_v_seq(self.cells(), ROWS as int),
    {
        proof {
            lemma_flip_v_by_rotation(self.map@, COLS as int, ROWS as int);
        }
        self.rotate_cw().flip_h().rotate_ccw()
    }

    /// Place `right` to the right of this layout; its LEDs come after this layout's.
    pub fn concat_h<const N2: usize, const OUT_N: usize, const W2: usize, const OUT_W: usize>(
        self,
        right: LedLayout<N2, ROWS, W2>,
    ) -> (combined: LedLayout<OUT_N, ROWS, OUT_W>)
        requires
            self.wf(),
            right.wf(),
            OUT_N == N + N2,
            OUT_W == COLS + W2,
            OUT_W <= 0x1_0000,
        ensures
            combined.wf(),
            combined.cells() == concat_h_seq(self.cells(), right.cells(), COLS as int),
    {
        proof {
            lemma_concat_h_valid(self.map@, right.map@, COLS as int, W2 as int, ROWS as int);
        }
        let mut out = [(0u16, 0u16); OUT_N];
        let mut i: usize = 0;
        while i < N
            invariant
                0 <= i <= N,
                OUT_N == N + N2,
                out@.len() == OUT_N,
                self.map@.len() == N,
                forall|k: int| 0 <= k < i ==> #[trigger] out@[k] == self.map@[k],
            decreases N - i,
        {
            out[i] = self.map[i];
            i += 1;
        }
        let mut j: usize = 0;
        while j < N2
            invariant
                0 <= j <= N2,
                OUT_N == N + N2,
                OUT_W == COLS + W2,
                out@.len() == OUT_N,
                self.map@.len() == N,
                right.wf(),
                forall|k: int| 0 <= k < N ==> #[trigger] out@[k] == self.map@[k],
                forall|k: int|
                    0 <= k < j ==> #[trigger] out@[N + k] == shift_cols_seq(
                        right.map@,
                        COLS as int,
                    )[k],
            decreases N2 - j,
        {
            let (c, r) = right.map[j];
            proof {
                assert(right.map@[j as int].0 < W2);
            }
            out[N + j] = ((c as usize + COLS) as u16, r);
            j += 1;
        }
        let ghost expected = concat_h_seq(self.map@, right.map@, COLS as int);
        assert forall|k: int| 0 <= k < OUT_N implies #[trigger] out@[k] == expected[k] by {
            if k >= N {
                assert(out@[N + (k - N)] == shift_cols_seq(right.map@, COLS as int)[k - N]);
            }
        }
        assert(out@ =~= expected);
        LedLayout { map: out }
    }

    /// Place `bottom` below this layout; its LEDs come after this layout's.
    pub fn concat_v<const N2: usize, const OUT_N: usize, const H2: usize, const OUT_H: usize>(
        self,
        bottom: LedLayout<N2, H2, COLS>,
    ) -> (combined: LedLayout<OUT_N, OUT_H, COLS>)
        requires
            self.wf(),
            bottom.wf(),
            OUT_N == N + N2,
            OUT_H == ROWS + H2,
            OUT_H <= 0x1_0000,
        ensures
            combined.wf(),
            combined.cells() == concat_v_seq(self.cells(), bottom.cells(), ROWS as int),
    {
        proof {
            lemma_transpose_by_rotation(self.map@, COLS as int, ROWS as int);
            lemma_transpose_by_rotation(bottom.map@, COLS as int, H2 as int);
        }
        let top_t = self.rotate_cw().flip_h();
        let bot_t = bottom.rotate_cw().flip_h();
        let combined_t: LedLayout<OUT_N, COLS, OUT_H> = top_t.concat_h::<N2, OUT_N, H2, OUT_H>(
            bot_t,
        );
        proof {
            lemma_transpose_by_rotation(combined_t.map@, OUT_H as int, COLS as int);
            lemma_concat_v_by_transpose(self.map@, bottom.map@, ROWS as int);
        }
        combined_t.rotate_cw().flip_h()
    }
}

} // verus!
