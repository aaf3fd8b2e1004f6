//! The piece: a tetromino shape in a 4x4 mask, with a position on the board.

use vstd::prelude::*;

verus! {

/// A piece mask: a 4x4 occupancy grid, row-major.
pub type Mask = Seq<Seq<bool>>;

/// The mask has exactly four rows of four cells each.
pub open spec fn mask_wf(m: Mask) -> bool {
    &&& m.len() == 4
    &&& m[0].len() == 4
    &&& m[1].len() == 4
    &&& m[2].len() == 4
    &&& m[3].len() == 4
}

/// Cell (r, c) of the mask is occupied; false outside the 4x4 frame.
pub open spec fn mask_occ(m: Mask, r: int, c: int) -> bool {
    0 <= r < 4 && 0 <= c < 4 && m[r][c]
}

/// Row r of the mask holds no occupied cell.
pub open spec fn row_empty(m: Mask, r: int) -> bool {
    !(m[r][0] || m[r][1] || m[r][2] || m[r][3])
}

/// Column c of the mask holds no occupied cell.
pub open spec fn col_empty(m: Mask, c: int) -> bool {
    !(m[0][c] || m[1][c] || m[2][c] || m[3][c])
}

/// At least one cell of the mask is occupied.
pub open spec fn mask_nonempty(m: Mask) -> bool {
    !(row_empty(m, 0) && row_empty(m, 1) && row_empty(m, 2) && row_empty(m, 3))
}

/// The topmost occupied row and the leftmost occupied column are both index 0.
pub open spec fn mask_normal(m: Mask) -> bool {
    !row_empty(m, 0) && !col_empty(m, 0)
}

/// The mask after a quarter turn clockwise: cell (r, c) comes from (3 - c, r).
pub open spec fn rotated(m: Mask) -> Mask {
    Seq::new(4, |r: int| Seq::new(4, |c: int| m[3 - c][r]))
}

/// The mask with every occupied cell moved up by dr rows and left by dc columns.
pub open spec fn shifted(m: Mask, dr: int, dc: int) -> Mask {
    Seq::new(4, |r: int| Seq::new(4, |c: int| mask_occ(m, r + dr, c + dc)))
}

/// Index of the topmost row holding an occupied cell; 4 if the mask is empty.
pub open spec fn first_occupied_row(m: Mask) -> int {
    if !row_empty(m, 0) {
        0
    } else if !row_empty(m, 1) {
        1
    } else if !row_empty(m, 2) {
        2
    } else if !row_empty(m, 3) {
        3
    } else {
        4
    }
}

/// Index of the leftmost column holding an occupied cell; 4 if the mask is empty.
pub open spec fn first_occupied_col(m: Mask) -> int {
    if !col_empty(m, 0) {
        0
    } else if !col_empty(m, 1) {
        1
    } else if !col_empty(m, 2) {
        2
    } else if !col_empty(m, 3) {
        3
    } else {
        4
    }
}

/// The mask with its occupied cells pulled to the top-left corner of the frame.
pub open spec fn normalized(m: Mask) -> Mask {
    shifted(m, first_occupied_row(m), first_occupied_col(m))
}

/// One rotation as the piece performs it: quarter turn, then re-normalize.
pub open spec fn rotation_step(m: Mask) -> Mask {
    normalized(rotated(m))
}

/// The abstract value of a 4x4 block array.
pub open spec fn mask_of(b: [[bool; 4]; 4]) -> Mask {
    Seq::new(4, |r: int| Seq::new(4, |c: int| b[r][c]))
}

/// A nonempty mask has an occupied cell.
pub proof fn lemma_nonempty_witness(m: Mask)
    requires
        mask_nonempty(m),
    ensures
        exists|r: int, c: int| mask_occ(m, r, c),
{
    if m[0][0] {
        assert(mask_occ(m, 0, 0));
    } else if m[0][1] {
        assert(mask_occ(m, 0, 1));
    } else if m[0][2] {
        assert(mask_occ(m, 0, 2));
    } else if m[0][3] {
        assert(mask_occ(m, 0, 3));
    } else if m[1][0] {
        assert(mask_occ(m, 1, 0));
    } else if m[1][1] {
        assert(mask_occ(m, 1, 1));
    } else if m[1][2] {
        assert(mask_occ(m, 1, 2));
    } else if m[1][3] {
        assert(mask_occ(m, 1, 3));
    } else if m[2][0] {
        assert(mask_occ(m, 2, 0));
    } else if m[2][1] {
        assert(mask_occ(m, 2, 1));
    } else if m[2][2] {
        assert(mask_occ(m, 2, 2));
    } else if m[2][3] {
        assert(mask_occ(m, 2, 3));
    } else if m[3][0] {
        assert(mask_occ(m, 3, 0));
    } else if m[3][1] {
        assert(mask_occ(m, 3, 1));
    } else if m[3][2] {
        assert(mask_occ(m, 3, 2));
    } else {
        assert(m[3][3]);
        assert(mask_occ(m, 3, 3));
    }
}

/// A quarter turn keeps the mask occupied.
pub proof fn lemma_rotated_nonempty(m: Mask)
    requires
        mask_nonempty(m),
    ensures
        mask_nonempty(rotated(m)),
{
}

/// Normalization keeps the mask occupied and leaves its topmost occupied row
/// and leftmost occupied column at index 0.
pub proof fn lemma_normalized_normal(m: Mask)
    requires
        mask_nonempty(m),
    ensures
        mask_nonempty(normalized(m)),
        mask_normal(normalized(m)),
{
}

/// Whether cell (r, c) of a block array is occupied; false outside the frame.
fn cell_at(b: &[[bool; 4]; 4], r: usize, c: usize) -> (v: bool)
    ensures
        v == mask_occ(mask_of(*b), r as int, c as int),
{
    if r < 4 && c < 4 {
        b[r][c]
    } else {
        false
    }
}

/// Whether row r of a block array holds no occupied cell.
fn row_empty_at(b: &[[bool; 4]; 4], r: usize) -> (v: bool)
    requires
        r < 4,
    ensures
        v == row_empty(mask_of(*b), r as int),
{
    !(b[r][0] || b[r][1] || b[r][2] || b[r][3])
}

/// Whether column c of a block array holds no occupied cell.
fn col_empty_at(b: &[[bool; 4]; 4], c: usize) -> (v: bool)
    requires
        c < 4,
    ensures
        v == col_empty(mask_of(*b), c as int),
{
    !(b[0][c] || b[1][c] || b[2][c] || b[3][c])
}

/// One row of a shifted mask: cells (rr, dc) through (rr, dc + 3) of the array.
fn shift_row(b: &[[bool; 4]; 4], rr: usize, dc: usize) -> (row: [bool; 4])
    requires
        rr <= 8,
        dc <= 4,
    ensures
        forall|c: int|
            0 <= c < 4 ==> row@[c] == mask_occ(mask_of(*b), rr as int, c + dc),
{
    let row = [
        cell_at(b, rr, dc),
        cell_at(b, rr, dc + 1),
        cell_at(b, rr, dc + 2),
        cell_at(b, rr, dc + 3),
    ];
    row
}

/// A block array holding the given array's mask shifted up by dr and left by dc.
fn shift_blocks(b: &[[bool; 4]; 4], dr: usize, dc: usize) -> (nb: [[bool; 4]; 4])
    requires
        dr <= 4,
        dc <= 4,
    ensures
        mask_of(nb) == shifted(mask_of(*b), dr as int, dc as int),
{
    let nb: [[bool; 4]; 4] = [
        shift_row(b, dr, dc),
        shift_row(b, dr + 1, dc),
        shift_row(b, dr + 2, dc),
        shift_row(b, dr + 3, dc),
    ];
    proof {
        let s = shifted(mask_of(*b), dr as int, dc as int);
        assert forall|r: int, c: int| 0 <= r < 4 && 0 <= c < 4 implies mask_of(nb)[r][c] == s[r][c] by {
            assert(mask_of(nb)[r][c] == nb@[r]@[c]);
        }
        assert forall|r: int| 0 <= r < 4 implies mask_of(nb)[r] =~= s[r] by {
        }
        assert(mask_of(nb) =~~= s);
    }
    nb
}

/// One piece: its shape mask and its (row, col) offset on the board grid.
pub struct Tetromino {
    /// 4x4 occupancy mask of the shape, row-major.
    pub blocks: [[bool; 4]; 4],
    /// Row of the mask's top-left corner within the board grid.
    pub row: usize,
    /// Column of the mask's top-left corner within the board grid.
    pub col: usize,
}

/// The abstract state of a piece.
pub struct TetrominoView {
    /// The shape mask.
    pub mask: Mask,
    /// Row offset on the board.
    pub row: int,
    /// Column offset on the board.
    pub col: int,
}

impl View for Tetromino {
    type V = TetrominoView;

    open spec fn view(&self) -> TetrominoView {
        TetrominoView { mask: mask_of(self.blocks), row: self.row as int, col: self.col as int }
    }
}

impl Tetromino {
    /// The abstract mask of this piece.
    pub open spec fn mask(self) -> Mask {
        mask_of(self.blocks)
    }

    /// A piece always holds a nonempty mask, normalized to the top-left corner.
    pub open spec fn wf(self) -> bool {
        mask_nonempty(self.mask()) && mask_normal(self.mask())
    }

    /// Move the piece one column to the left; at the left wall it stays put.
    pub fn move_left(&mut self)
        ensures
            final(self).col == if old(self).col > 0 {
                (old(self).col - 1) as int
            } else {
                old(self).col as int
            },
            final(self).row == old(self).row,
            final(self).blocks == old(self).blocks,
    {
        if self.col > 0 {
            self.col = self.col - 1;
        }
    }

    /// Move the piece one column to the right.
    pub fn move_right(&mut self)
        requires
            old(self).col < usize::MAX,
        ensures
            final(self).col == old(self).col + 1,
            final(self).row == old(self).row,
            final(self).blocks == old(self).blocks,
    {
        self.col = self.col + 1;
    }

    /// Move the piece one row down.
    pub fn move_down(&mut self)
        requires
            old(self).row < usize::MAX,
        ensures
            final(self).row == old(self).row + 1,
            final(self).col == old(self).col,
            final(self).blocks == old(self).blocks,
    {
        self.row = self.row + 1;
    }

    /// Shift the occupied cells to the top-left corner of the 4x4 frame.
    #[verifier::rlimit(50)]
    pub fn normalise(&mut self)
        requires
            mask_nonempty(old(self).mask()),
        ensures
            final(self).mask() == normalized(old(self).mask()),
            final(self).row == old(self).row,
            final(self).col == old(self).col,
            final(self).wf(),
    {
        let b = self.blocks;
        let dr: usize = if !row_empty_at(&b, 0) {
            0
        } else if !row_empty_at(&b, 1) {
            1
        } else if !row_empty_at(&b, 2) {
            2
        } else if !row_empty_at(&b, 3) {
            3
        } else {
            4
        };
        let dc: usize = if !col_empty_at(&b, 0) {
            0
        } else if !col_empty_at(&b, 1) {
            1
        } else if !col_empty_at(&b, 2) {
            2
        } else if !col_empty_at(&b, 3) {
            3
        } else {
            4
        };
        proof {
            assert(dr == first_occupied_row(mask_of(b)));
            assert(dc == first_occupied_col(mask_of(b)));
        }
        self.blocks = shift_blocks(&b, dr, dc);
        proof {
            lemma_normalized_normal(mask_of(b));
        }
    }

    /// Turn the piece a quarter turn clockwise and re-normalize the mask.
    pub fn rotate(&mut self)
        requires
            mask_nonempty(old(self).mask()),
        ensures
            final(self).mask() == rotation_step(old(self).mask()),
            final(self).row == old(self).row,
            final(self).col == old(self).col,
            final(self).wf(),
    {
        let b = self.blocks;
        let nb: [[bool; 4]; 4] = [
            [b[3][0], b[2][0], b[1][0], b[0][0]],
            [b[3][1], b[2][1], b[1][1], b[0][1]],
            [b[3][2], b[2][2], b[1][2], b[0][2]],
            [b[3][3], b[2][3], b[1][3], b[0][3]],
        ];
        self.blocks = nb;
        proof {
            assert(mask_of(nb) =~~= rotated(mask_of(b)));
            lemma_rotated_nonempty(mask_of(b));
        }
        self.normalise();
    }

    /// Build a piece at the board's top-left corner from an authored mask.
    /// The authored shapes sit at the bottom of the frame, upside down, so
    /// construction normalizes and then applies a half turn.
    pub fn new(blocks: [[bool; 4]; 4]) -> (t: Tetromino)
        requires
            mask_nonempty(mask_of(blocks)),
        ensures
            t.mask() == rotation_step(rotation_step(normalized(mask_of(blocks)))),
            t.row == 0,
            t.col == 0,
            t.wf(),
    {
        let mut t = Tetromino { blocks, row: 0, col: 0 };
        t.normalise();
        t.rotate();
        t.rotate();
        t
    }

    /// Move the piece one row up.
    pub fn move_up(&mut self)
        requires
            old(self).row > 0,
        ensures
            final(self).row == old(self).row - 1,
            final(self).col == old(self).col,
            final(self).blocks == old(self).blocks,
    {
        self.row = self.row - 1;
    }
}

} // verus!
