//! The `(col, row)` position of each LED of a strip laid out on a `W × H` grid.
//!
//! A [`LedLayout`] is a bijection from LED indexes onto the cells of the grid.
//! Linear and serpentine layouts are built in; rotations, flips and
//! concatenation derive new layouts from old ones.

use vstd::prelude::*;

use crate::grid::{
    cell_index, concat_h_seq, concat_v_seq, covered, covers, flip_h_seq, flip_v_seq, in_bounds,
    is_inverse, lemma_cell_index_bounds, lemma_cell_index_injective, lemma_cell_index_onto,
    lemma_concat_h_valid, lemma_concat_v_by_transpose, lemma_flip_h_valid, lemma_flip_v_by_rotation,
    lemma_rotate_cw_thrice, lemma_rotate_cw_twice, lemma_rotate_cw_valid,
    lemma_transpose_by_rotation, lemma_valid_dims, rotate_180_seq, rotate_ccw_seq, rotate_cw_seq,
    shift_cols_seq, valid_layout, Cell, lemma_serpentine_column_major,
    lemma_serpentine_column_major_injective, lemma_serpentine_row_major,
    lemma_serpentine_row_major_injective, serpentine_column_major_index,
    serpentine_column_major_seq, serpentine_row_major_index, serpentine_row_major_seq, snake,
};

verus! {

/// Which LED lights each `(col, row)` cell of a `W × H` grid (`N == W * H` LEDs).
#[derive(Clone, Copy, Debug, PartialEq, Eq)]
pub struct LedLayout<const N: usize, const W: usize, const H: usize> {
    map: [(u16, u16); N],
}

impl<const N: usize, const W: usize, const H: usize> LedLayout<N, W, H> {
    /// The `(col, row)` of each LED, by LED index.
    pub closed spec fn cells(&self) -> Seq<Cell> {
        self.map@
    }

    /// The layout is a bijection from the `N` LEDs onto the `W × H` grid.
    pub open spec fn wf(&self) -> bool {
        valid_layout(self.cells(), W as int, H as int)
    }

    /// Whether `map` covers every cell of the `W × H` grid exactly once.
    pub fn is_valid(map: &[(u16, u16); N]) -> (valid: bool)
        ensures
            valid == valid_layout(map@, W as int, H as int),
    {
        if W == 0 || H == 0 {
            return false;
        }
        if W > N || N / W != H || N % W != 0 {
            proof {
                if W as int * H as int == N as int {
                    assert(N as int / W as int == H as int && N as int % W as int == 0)
                        by (nonlinear_arith)
                        requires
                            W > 0,
                            W as int * H as int == N as int,
                    ;
                    assert(W as int <= N as int) by (nonlinear_arith)
                        requires
                            H > 0,
                            W as int * H as int == N as int,
                    ;
                }
            }
            return false;
        }
        proof {
            assert(W as int * H as int == N as int) by (nonlinear_arith)
                requires
                    W > 0,
                    N as int / W as int == H as int,
                    N as int % W as int == 0,
            ;
        }
        let mut seen = [false; N];
        let mut i: usize = 0;
        while i < N
            invariant
                0 <= i <= N,
                W > 0,
                H > 0,
                W as int * H as int == N as int,
                seen@.len() == N,
                forall|k: int| 0 <= k < i ==> (#[trigger] map@[k]).0 < W && map@[k].1 < H,
                forall|k: int|
                    0 <= k < i ==> 0 <= #[trigger] cell_index(
                        map@[k].0 as int,
                        map@[k].1 as int,
                        W as int,
                    ) < N,
                forall|k: int, l: int| 0 <= k < i && 0 <= l < i && k != l ==> map@[k] != map@[l],
                forall|k: int|
                    0 <= k < i ==> #[trigger] seen@[cell_index(
                        map@[k].0 as int,
                        map@[k].1 as int,
                        W as int,
                    )],
                forall|x: int|
                    0 <= x < N && #[trigger] seen@[x] ==> exists|k: int|
                        0 <= k < i && cell_index(map@[k].0 as int, map@[k].1 as int, W as int)
                            == x,
            decreases N - i,
        {
            let (c, r) = map[i];
            if c as usize >= W || r as usize >= H {
                return false;
            }
            proof {
                lemma_cell_index_bounds(c as int, r as int, W as int, H as int);
            }
            let cell = r as usize * W + c as usize;
            if seen[cell] {
                proof {
                    let k = choose|k: int|
                        0 <= k < i && cell_index(map@[k].0 as int, map@[k].1 as int, W as int)
                            == cell as int;
                    lemma_cell_index_injective(
                        map@[k].0 as int,
                        map@[k].1 as int,
                        c as int,
                        r as int,
                        W as int,
                    );
                    assert(map@[k] == map@[i as int]);
                }
                return false;
            }
            proof {
                assert forall|k: int| 0 <= k < i implies map@[k] != map@[i as int] by {
                    if map@[k] == map@[i as int] {
                        assert(seen@[cell_index(map@[k].0 as int, map@[k].1 as int, W as int)]);
                    }
                }
            }
            let ghost old_seen = seen@;
            seen[cell] = true;
            proof {
                assert forall|x: int| 0 <= x < N && #[trigger] seen@[x] implies exists|k: int|
                    0 <= k < i + 1 && cell_index(map@[k].0 as int, map@[k].1 as int, W as int)
                        == x by {
                    if x != cell {
                        assert(old_seen[x]);
                    } else {
                        assert(cell_index(
                            map@[i as int].0 as int,
                            map@[i as int].1 as int,
                            W as int,
                        ) == x);
                    }
                }
            }
            i += 1;
        }
        let mut k: usize = 0;
        while k < N
            invariant
                0 <= k <= N,
                W > 0,
                W as int * H as int == N as int,
                seen@.len() == N,
                in_bounds(map@, W as int, H as int),
                forall|x: int|
                    0 <= x < N && #[trigger] seen@[x] ==> exists|j: int|
                        0 <= j < N && cell_index(map@[j].0 as int, map@[j].1 as int, W as int)
                            == x,
                forall|j: int|
                    0 <= j < N ==> #[trigger] seen@[cell_index(
                        map@[j].0 as int,
                        map@[j].1 as int,
                        W as int,
                    )],
                forall|x: int| 0 <= x < k ==> #[trigger] seen@[x],
            decreases N - k,
        {
            if !seen[k] {
                proof {
                    lemma_cell_index_onto(k as int, W as int, H as int);
                    let c = k as int % W as int;
                    let r = k as int / W as int;
                    if covered(map@, c, r) {
                        let j = choose|j: int| 0 <= j < map@.len() && #[trigger] map@[j].0 == c
                            && map@[j].1 == r;
                        assert(seen@[cell_index(map@[j].0 as int, map@[j].1 as int, W as int)]);
                    }
                    assert(!covers(map@, W as int, H as int));
                }
                return false;
            }
            k += 1;
        }
        proof {
            assert forall|c: int, r: int| 0 <= c < W && 0 <= r < H implies #[trigger] covered(
                map@,
                c,
                r,
            ) by {
                lemma_cell_index_bounds(c, r, W as int, H as int);
                let x = cell_index(c, r, W as int);
                assert(seen@[x]);
                let j = choose|j: int|
                    0 <= j < N && cell_index(map@[j].0 as int, map@[j].1 as int, W as int) == x;
                lemma_cell_index_injective(
                    map@[j].0 as int,
                    map@[j].1 as int,
                    c,
                    r,
                    W as int,
                );
            }
        }
        true
    }

    /// Access the checked `(col, row)` mapping.
    pub fn map(&self) -> (m: &[(u16, u16); N])
        ensures
            m@ == self.cells(),
    {
        &self.map
    }

    /// Builds a layout from a mapping that covers every cell of the grid exactly once.
    pub fn new(map: [(u16, u16); N]) -> (layout: Self)
        requires
            valid_layout(map@, W as int, H as int),
        ensures
            layout.wf(),
            layout.cells() == map@,
    {
        Self { map }
    }

    /// Whether both layouts put every LED in the same cell.
    pub fn equals(&self, other: &Self) -> (same: bool)
        ensures
            same == (self.cells() == other.cells()),
    {
        let mut i: usize = 0;
        while i < N
            invariant
                0 <= i <= N,
                self.map@.len() == N,
                other.map@.len() == N,
                forall|k: int| 0 <= k < i ==> self.map@[k] == other.map@[k],
            decreases N - i,
        {
            if self.map[i].0 != other.map[i].0 || self.map[i].1 != other.map[i].1 {
                return false;
            }
            i += 1;
        }
        assert(self.map@ =~= other.map@);
        true
    }

    /// Reverse lookup: entry `row * W + col` is the index of the LED at `(col, row)`.
    pub fn mapping_by_xy(&self) -> (inverse: [u16; N])
        requires
            self.wf(),
            N <= u16::MAX,
        ensures
            is_inverse(self.cells(), inverse@, W as int),
    {
        let mut mapping = [0u16; N];
        let mut led_index: usize = 0;
        while led_index < N
            invariant
                0 <= led_index <= N,
                N <= u16::MAX,
                self.wf(),
                mapping@.len() == N,
                forall|i: int|
                    0 <= i < led_index ==> 0 <= #[trigger] cell_index(
                        self.map@[i].0 as int,
                        self.map@[i].1 as int,
                        W as int,
                    ) < N,
                forall|i: int|
                    0 <= i < led_index ==> #[trigger] mapping@[cell_index(
                        self.map@[i].0 as int,
                        self.map@[i].1 as int,
                        W as int,
                    )] == i,
            decreases N - led_index,
        {
            let (col, row) = self.map[led_index];
            proof {
                lemma_cell_index_bounds(col as int, row as int, W as int, H as int);
            }
            let target_index = row as usize * W + col as usize;
            proof {
                assert forall|i: int| 0 <= i < led_index implies cell_index(
                    self.map@[i].0 as int,
                    self.map@[i].1 as int,
                    W as int,
                ) != target_index by {
                    assert(self.map@[i] != self.map@[led_index as int]);
                    if cell_index(self.map@[i].0 as int, self.map@[i].1 as int, W as int)
                        == target_index {
                        lemma_cell_index_injective(
                            self.map@[i].0 as int,
                            self.map@[i].1 as int,
                            col as int,
                            row as int,
                            W as int,
                        );
                    }
                }
            }
            mapping[target_index] = led_index as u16;
            led_index += 1;
        }
        mapping
    }

    /// Linear mapping for a single-row strip: LED `i` is at `(i, 0)`.
    pub fn linear_h() -> (layout: Self)
        requires
            H == 1,
            W == N,
            N > 0,
            N <= 0x1_0000,
        ensures
            layout.wf(),
            forall|i: int| 0 <= i < N ==> #[trigger] layout.cells()[i] == (i as u16, 0u16),
    {
        let mut mapping = [(0u16, 0u16); N];
        let mut column_index: usize = 0;
        while column_index < W
            invariant
                0 <= column_index <= W,
                W == N,
                N <= 0x1_0000,
                mapping@.len() == N,
                forall|i: int| 0 <= i < column_index ==> #[trigger] mapping@[i] == (i as u16, 0u16),
            decreases W - column_index,
        {
            mapping[column_index] = (column_index as u16, 0);
            column_index += 1;
        }
        proof {
            assert forall|c: int, r: int| 0 <= c < W && 0 <= r < H implies #[trigger] covered(
                mapping@,
                c,
                r,
            ) by {
                assert(mapping@[c] == (c as u16, 0u16));
                assert(mapping@[c].0 == c && mapping@[c].1 == r);
            }
        }
        Self { map: mapping }
    }

    /// Linear mapping for a single-column strip: LED `i` is at `(0, i)`.
    pub fn linear_v() -> (layout: Self)
        requires
            W == 1,
            H == N,
            N > 0,
            N <= 0x1_0000,
        ensures
            layout.wf(),
            forall|i: int| 0 <= i < N ==> #[trigger] layout.cells()[i] == (0u16, i as u16),
    {
        let mut mapping = [(0u16, 0u16); N];
        let mut row_index: usize = 0;
        while row_index < H
            invariant
                0 <= row_index <= H,
                H == N,
                N <= 0x1_0000,
                mapping@.len() == N,
                forall|i: int| 0 <= i < row_index ==> #[trigger] mapping@[i] == (0u16, i as u16),
            decreases H - row_index,
        {
            mapping[row_index] = (0, row_index as u16);
            row_index += 1;
        }
        proof {
            assert forall|c: int, r: int| 0 <= c < W && 0 <= r < H implies #[trigger] covered(
                mapping@,
                c,
                r,
            ) by {
                assert(mapping@[r] == (0u16, r as u16));
                assert(mapping@[r].0 == c && mapping@[r].1 == r);
            }
        }
        Self { map: mapping }
    }

    /// Serpentine column-major layout: even columns run top to bottom, odd columns bottom to top.
    pub fn serpentine_column_major() -> (layout: Self)
        requires
            W > 0,
            H > 0,
            W as int * H as int == N as int,
            W <= 0x1_0000,
            H <= 0x1_0000,
        ensures
            layout.wf(),
            layout.cells() == serpentine_column_major_seq(W as int, H as int),
    {
        proof {
            lemma_serpentine_column_major(W as int, H as int);
            assert(H as int * W as int == N as int) by (nonlinear_arith)
                requires
                    W as int * H as int == N as int,
            ;
        }
        let mut mapping = [(0u16, 0u16); N];
        let mut row_index: usize = 0;
        while row_index < H
            invariant
                0 <= row_index <= H,
                W > 0,
                W as int * H as int == N as int,
                H as int * W as int == N as int,
                W <= 0x1_0000,
                H <= 0x1_0000,
                mapping@.len() == N,
                forall|c: int, r: int|
                    0 <= c < W && 0 <= r < row_index ==> mapping@[#[trigger] serpentine_column_major_index(
                        c,
                        r,
                        H as int,
                    )] == (c as u16, r as u16),
            decreases H - row_index,
        {
            let mut column_index: usize = 0;
            while column_index < W
                invariant
                    0 <= column_index <= W,
                    0 <= row_index < H,
                    W as int * H as int == N as int,
                    H as int * W as int == N as int,
                    W <= 0x1_0000,
                    H <= 0x1_0000,
                    mapping@.len() == N,
                    forall|c: int, r: int|
                        (0 <= c < W && 0 <= r < row_index) || (0 <= c < column_index && r
                            == row_index) ==> mapping@[#[trigger] serpentine_column_major_index(
                            c,
                            r,
                            H as int,
                        )] == (c as u16, r as u16),
                decreases W - column_index,
            {
                let ghost p = snake(row_index as int, column_index as int, H as int);
                proof {
                    lemma_cell_index_bounds(p, column_index as int, H as int, W as int);
                }
                let led_index = if column_index % 2 == 0 {
                    column_index * H + row_index
                } else {
                    column_index * H + (H - 1 - row_index)
                };
                let ghost old_mapping = mapping@;
                mapping[led_index] = (column_index as u16, row_index as u16);
                proof {
                    assert forall|c: int, r: int|
                        (0 <= c < W && 0 <= r < row_index) || (0 <= c < column_index + 1 && r
                            == row_index) implies mapping@[#[trigger] serpentine_column_major_index(
                        c,
                        r,
                        H as int,
                    )] == (c as u16, r as u16) by {
                        if c != column_index || r != row_index {
                            if serpentine_column_major_index(c, r, H as int) == led_index {
                                lemma_serpentine_column_major_injective(
                                    c,
                                    r,
                                    column_index as int,
                                    row_index as int,
                                    W as int,
                                    H as int,
                                );
                            }
                            let k = serpentine_column_major_index(c, r, H as int);
                            lemma_cell_index_bounds(snake(r, c, H as int), c, H as int, W as int);
                            assert(old_mapping[k] == (c as u16, r as u16));
                        }
                    }
                }
                column_index += 1;
            }
            row_index += 1;
        }
        proof {
            let target = serpentine_column_major_seq(W as int, H as int);
            assert forall|i: int| 0 <= i < N implies #[trigger] mapping@[i] == target[i] by {
                lemma_cell_index_onto(i, H as int, W as int);
                let c = i / H as int;
                let r = snake(i % H as int, c, H as int);
                assert(serpentine_column_major_index(c, r, H as int) == i);
            }
            assert(mapping@ =~= target);
        }
        Self { map: mapping }
    }

    /// Serpentine row-major layout: even rows run left to right, odd rows right to left.
    pub fn serpentine_row_major() -> (layout: Self)
        requires
            W > 0,
            H > 0,
            W as int * H as int == N as int,
            W <= 0x1_0000,
            H <= 0x1_0000,
        ensures
            layout.wf(),
            layout.cells() == serpentine_row_major_seq(W as int, H as int),
    {
        proof {
            lemma_serpentine_row_major(W as int, H as int);
        }
        let mut mapping = [(0u16, 0u16); N];
        let mut row_index: usize = 0;
        while row_index < H
            invariant
                0 <= row_index <= H,
                W > 0,
                W as int * H as int == N as int,
                W <= 0x1_0000,
                H <= 0x1_0000,
                mapping@.len() == N,
                forall|c: int, r: int|
                    0 <= c < W && 0 <= r < row_index ==> mapping@[#[trigger] serpentine_row_major_index(
                        c,
                        r,
                        W as int,
                    )] == (c as u16, r as u16),
            decreases H - row_index,
        {
            let mut column_index: usize = 0;
            while column_index < W
                invariant
                    0 <= column_index <= W,
                    0 <= row_index < H,
                    W as int * H as int == N as int,
                    W <= 0x1_0000,
                    H <= 0x1_0000,
                    mapping@.len() == N,
                    forall|c: int, r: int|
                        (0 <= c < W && 0 <= r < row_index) || (0 <= c < column_index && r
                            == row_index) ==> mapping@[#[trigger] serpentine_row_major_index(
                            c,
                            r,
                            W as int,
                        )] == (c as u16, r as u16),
                decreases W - column_index,
            {
                let ghost p = snake(column_index as int, row_index as int, W as int);
                proof {
                    lemma_cell_index_bounds(p, row_index as int, W as int, H as int);
                }
                let led_index = if row_index % 2 == 0 {
                    row_index * W + column_index
                } else {
                    row_index * W + (W - 1 - column_index)
                };
                let ghost old_mapping = mapping@;
                mapping[led_index] = (column_index as u16, row_index as u16);
                proof {
                    assert forall|c: int, r: int|
                        (0 <= c < W && 0 <= r < row_index) || (0 <= c < column_index + 1 && r
                            == row_index) implies mapping@[#[trigger] serpentine_row_major_index(
                        c,
                        r,
                        W as int,
                    )] == (c as u16, r as u16) by {
                        if c != column_index || r != row_index {
                            if serpentine_row_major_index(c, r, W as int) == led_index {
                                lemma_serpentine_row_major_injective(
                                    c,
                                    r,
                                    column_index as int,
                                    row_index as int,
                                    W as int,
                                    H as int,
                                );
                            }
                            let k = serpentine_row_major_index(c, r, W as int);
                            lemma_cell_index_bounds(snake(c, r, W as int), r, W as int, H as int);
                            assert(old_mapping[k] == (c as u16, r as u16));
                        }
                    }
                }
                column_index += 1;
            }
            row_index += 1;
        }
        proof {
            let target = serpentine_row_major_seq(W as int, H as int);
            assert forall|i: int| 0 <= i < N implies #[trigger] mapping@[i] == target[i] by {
                lemma_cell_index_onto(i, W as int, H as int);
                let r = i / W as int;
                let c = snake(i % W as int, r, W as int);
                assert(serpentine_row_major_index(c, r, W as int) == i);
            }
            assert(mapping@ =~= target);
        }
        Self { map: mapping }
    }

    /// Rotate 90° clockwise: `(c, r)` goes to `(H - 1 - r, c)` on the `H × W` grid.
    pub fn rotate_cw(self) -> (rotated: LedLayout<N, H, W>)
        requires
            self.wf(),
        ensures
            rotated.wf(),
            rotated.cells() == rotate_cw_seq(self.cells(), H as int),
    {
        proof {
            lemma_valid_dims(self.map@, W as int, H as int);
            lemma_rotate_cw_valid(self.map@, W as int, H as int);
        }
        let mut out = [(0u16, 0u16); N];
        let mut i: usize = 0;
        while i < N
            invariant
                0 <= i <= N,
                self.wf(),
                H <= 0x1_0000,
                out@.len() == N,
                forall|k: int|
                    0 <= k < i ==> #[trigger] out@[k] == rotate_cw_seq(self.map@, H as int)[k],
            decreases N - i,
        {
            let (c, r) = self.map[i];
            out[i] = ((H - 1 - r as usize) as u16, c);
            i += 1;
        }
        assert(out@ =~= rotate_cw_seq(self.map@, H as int));
        LedLayout { map: out }
    }

    /// Mirror the columns: `(c, r)` goes to `(W - 1 - c, r)`.
    pub fn flip_h(self) -> (flipped: Self)
        requires
            self.wf(),
        ensures
            flipped.wf(),
            flipped.cells() == flip_h_seq(self.cells(), W as int),
    {
        proof {
            lemma_valid_dims(self.map@, W as int, H as int);
            lemma_flip_h_valid(self.map@, W as int, H as int);
        }
        let mut out = [(0u16, 0u16); N];
        let mut i: usize = 0;
        while i < N
            invariant
                0 <= i <= N,
                self.wf(),
                W <= 0x1_0000,
                out@.len() == N,
                forall|k: int|
                    0 <= k < i ==> #[trigger] out@[k] == flip_h_seq(self.map@, W as int)[k],
            decreases N - i,
        {
            let (c, r) = self.map[i];
            out[i] = ((W - 1 - c as usize) as u16, r);
            i += 1;
        }
        assert(out@ =~= flip_h_seq(self.map@, W as int));
        LedLayout { map: out }
    }

    /// Rotate 180°: `(c, r)` goes to `(W - 1 - c, H - 1 - r)`.
    pub fn rotate_180(self) -> (rotated: Self)
        requires
            self.wf(),
        ensures
            rotated.wf(),
            rotated.cells() == rotate_180_seq(self.cells(), W as int, H as int),
    {
        proof {
            lemma_rotate_cw_twice(self.map@, W as int, H as int);
        }
        self.rotate_cw().rotate_cw()
    }

    /// Rotate 90° counter-clockwise: `(c, r)` goes to `(r, W - 1 - c)` on the `H × W` grid.
    pub fn rotate_ccw(self) -> (rotated: LedLayout<N, H, W>)
        requires
            self.wf(),
        ensures
            rotated.wf(),
            rotated.cells() == rotate_ccw_seq(self.cells(), W as int),
    {
        proof {
            lemma_rotate_cw_thrice(self.map@, W as int, H as int);
        }
        self.rotate_cw().rotate_cw().rotate_cw()
    }

    /// Mirror the rows: `(c, r)` goes to `(c, H - 1 - r)`.
    pub fn flip_v(self) -> (flipped: Self)
        requires
            self.wf(),
        ensures
            flipped.wf(),
            flipped.cells() == flip_v_seq(self.cells(), H as int),
    {
        proof {
            lemma_flip_v_by_rotation(self.map@, W as int, H as int);
        }
        self.rotate_cw().flip_h().rotate_ccw()
    }

    /// Place `right` to the right of this layout; its LEDs come after this layout's.
    pub fn concat_h<const N2: usize, const OUT_N: usize, const W2: usize, const OUT_W: usize>(
        self,
        right: LedLayout<N2, W2, H>,
    ) -> (combined: LedLayout<OUT_N, OUT_W, H>)
        requires
            self.wf(),
            right.wf(),
            OUT_N == N + N2,
            OUT_W == W + W2,
            OUT_W <= 0x1_0000,
        ensures
            combined.wf(),
            combined.cells() == concat_h_seq(self.cells(), right.cells(), W as int),
    {
        proof {
            lemma_concat_h_valid(self.map@, right.map@, W as int, W2 as int, H as int);
        }
        let mut out = [(0u16, 0u16); OUT_N];
        let mut i: usize = 0;
        while i < N
            invariant
                0 <= i <= N,
                OUT_N == N + N2,
                out@.len() == OUT_N,
                self.map@.len() == N,
                forall|k: int| 0 <= k < i ==> #[trigger] out@[k] == self.map@[k],
            decreases N - i,
        {
            out[i] = self.map[i];
            i += 1;
        }
        let mut j: usize = 0;
        while j < N2
            invariant
                0 <= j <= N2,
                OUT_N == N + N2,
                OUT_W == W + W2,
                out@.len() == OUT_N,
                self.map@.len() == N,
                right.wf(),
                forall|k: int| 0 <= k < N ==> #[trigger] out@[k] == self.map@[k],
                forall|k: int|
                    0 <= k < j ==> #[trigger] out@[N + k] == shift_cols_seq(
                        right.map@,
                        W as int,
                    )[k],
            decreases N2 - j,
        {
            let (c, r) = right.map[j];
            proof {
                assert(right.map@[j as int].0 < W2);
            }
            out[N + j] = ((c as usize + W) as u16, r);
            j += 1;
        }
        let ghost expected = concat_h_seq(self.map@, right.map@, W as int);
        assert forall|k: int| 0 <= k < OUT_N implies #[trigger] out@[k] == expected[k] by {
            if k >= N {
                assert(out@[N + (k - N)] == shift_cols_seq(right.map@, W as int)[k - N]);
            }
        }
        assert(out@ =~= expected);
        LedLayout { map: out }
    }

    /// Place `bottom` below this layout; its LEDs come after this layout's.
    pub fn concat_v<const N2: usize, const OUT_N: usize, const H2: usize, const OUT_H: usize>(
        self,
        bottom: LedLayout<N2, W, H2>,
    ) -> (combined: LedLayout<OUT_N, W, OUT_H>)
        requires
            self.wf(),
            bottom.wf(),
            OUT_N == N + N2,
            OUT_H == H + H2,
            OUT_H <= 0x1_0000,
        ensures
            combined.wf(),
            combined.cells() == concat_v_seq(self.cells(), bottom.cells(), H as int),
    {
        proof {
            lemma_transpose_by_rotation(self.map@, W as int, H as int);
            lemma_transpose_by_rotation(bottom.map@, W as int, H2 as int);
        }
        let top_t = self.rotate_cw().flip_h();
        let bot_t = bottom.rotate_cw().flip_h();
        let combined_t: LedLayout<OUT_N, OUT_H, W> = top_t.concat_h::<N2, OUT_N, H2, OUT_H>(
            bot_t,
        );
        proof {
            lemma_transpose_by_rotation(combined_t.map@, OUT_H as int, W as int);
            lemma_concat_v_by_transpose(self.map@, bottom.map@, H as int);
        }
        combined_t.rotate_cw().flip_h()
    }
}

/// Four quarter turns clockwise give back the same layout.
pub proof fn rotate_cw_four_times_is_identity<const N: usize, const W: usize, const H: usize>(
    layout: LedLayout<N, W, H>,
)
    requires
        layout.wf(),
    ensures
        rotate_cw_seq(
            rotate_cw_seq(rotate_cw_seq(rotate_cw_seq(layout.cells(), H as int), W as int), H as int),
            W as int,
        ) == layout.cells(),
{
    crate::grid::lemma_rotate_cw_four_times(layout.cells(), W as int, H as int);
}

/// A quarter turn counter-clockwise undoes a quarter turn clockwise.
pub proof fn rotate_ccw_undoes_rotate_cw<const N: usize, const W: usize, const H: usize>(
    layout: LedLayout<N, W, H>,
)
    requires
        layout.wf(),
    ensures
        rotate_ccw_seq(rotate_cw_seq(layout.cells(), H as int), H as int) == layout.cells(),
{
    crate::grid::lemma_rotate_ccw_after_cw(layout.cells(), W as int, H as int);
}

/// Two half turns give back the same layout.
pub proof fn rotate_180_twice_is_identity<const N: usize, const W: usize, const H: usize>(
    layout: LedLayout<N, W, H>,
)
    requires
        layout.wf(),
    ensures
        rotate_180_seq(rotate_180_seq(layout.cells(), W as int, H as int), W as int, H as int)
            == layout.cells(),
{
    crate::grid::lemma_rotate_180_twice(layout.cells(), W as int, H as int);
}

/// Mirroring the columns twice gives back the same layout.
pub proof fn flip_h_twice_is_identity<const N: usize, const W: usize, const H: usize>(
    layout: LedLayout<N, W, H>,
)
    requires
        layout.wf(),
    ensures
        flip_h_seq(flip_h_seq(layout.cells(), W as int), W as int) == layout.cells(),
{
    crate::grid::lemma_flip_h_twice(layout.cells(), W as int, H as int);
}

/// Mirroring the rows twice gives back the same layout.
pub proof fn flip_v_twice_is_identity<const N: usize, const W: usize, const H: usize>(
    layout: LedLayout<N, W, H>,
)
    requires
        layout.wf(),
    ensures
        flip_v_seq(flip_v_seq(layout.cells(), H as int), H as int) == layout.cells(),
{
    crate::grid::lemma_flip_v_twice(layout.cells(), W as int, H as int);
}

} // verus!
