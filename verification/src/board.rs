//! The board: the occupancy grid, the falling piece, and the bag of upcoming pieces.

use vstd::prelude::*;
use rand::seq::SliceRandom;
use crate::tetromino::{
    lemma_nonempty_witness, mask_nonempty, mask_normal, mask_occ, Mask, Tetromino, TetrominoView,
};
use crate::shapes::{generate_batch, spawn_masks, spawn_views, views_of};

verus! {

/// The abstract value of the 20x10 occupancy grid: a sequence of rows.
pub open spec fn grid_of(g: [[bool; 10]; 20]) -> Seq<Seq<bool>> {
    Seq::new(20, |r: int| g[r]@)
}

/// Cell (r, c) stops a piece: it lies outside the grid or is occupied.
pub open spec fn solid_at(g: Seq<Seq<bool>>, r: int, c: int) -> bool {
    !(0 <= r < 20 && 0 <= c < 10) || g[r][c]
}

/// A piece with the given mask, placed at (pr, pc), collides with the grid:
/// some occupied mask cell maps outside the grid or onto an occupied cell.
pub open spec fn overlaps(g: Seq<Seq<bool>>, m: Mask, pr: int, pc: int) -> bool {
    exists|r: int, c: int| mask_occ(m, r, c) && solid_at(g, pr + r, pc + c)
}

/// The grid with the given mask committed at (pr, pc).
pub open spec fn committed(g: Seq<Seq<bool>>, m: Mask, pr: int, pc: int) -> Seq<Seq<bool>> {
    Seq::new(g.len(), |r: int| Seq::new(g[r].len(), |c: int| g[r][c] || mask_occ(m, r - pr, c - pc)))
}

/// Every cell of the row is occupied.
pub open spec fn row_full(row: Seq<bool>) -> bool {
    forall|c: int| 0 <= c < row.len() ==> row[c]
}

/// A row with no occupied cell.
pub open spec fn empty_row() -> Seq<bool> {
    Seq::new(10, |c: int| false)
}

/// The rows of the grid that are not full, in order.
pub open spec fn kept_rows(g: Seq<Seq<bool>>) -> Seq<Seq<bool>> {
    g.filter(|row: Seq<bool>| !row_full(row))
}

/// The grid after the line clear: every full row is removed, the rows above it
/// fall one row, and as many empty rows enter at the top.
pub open spec fn grid_clear(g: Seq<Seq<bool>>) -> Seq<Seq<bool>> {
    Seq::new(
        g.len(),
        |r: int|
            if r < g.len() - kept_rows(g).len() {
                empty_row()
            } else {
                kept_rows(g)[r - (g.len() - kept_rows(g).len())]
            },
    )
}

/// A piece that may enter play: well formed and sitting at the spawn position.
pub open spec fn piece_ready(v: TetrominoView) -> bool {
    mask_nonempty(v.mask) && mask_normal(v.mask) && v.row == 0 && v.col == 0
}

/// Relies on rand's `SliceRandom::shuffle` (a Fisher-Yates shuffle): it
/// permutes the slice in place, so the length and the multiset of pieces are
/// unchanged; the order that comes out is arbitrary.
#[verifier::external_body]
fn shuffle_pieces(v: &mut Vec<Tetromino>)
    ensures
        final(v)@.len() == old(v)@.len(),
        views_of(final(v)@).to_multiset() == views_of(old(v)@).to_multiset(),
{
    v.shuffle(&mut rand::thread_rng());
}

/// A nonempty piece that collides nowhere sits inside the grid.
pub proof fn lemma_no_overlap_bounds(g: Seq<Seq<bool>>, m: Mask, pr: int, pc: int)
    requires
        mask_nonempty(m),
        !overlaps(g, m, pr, pc),
        pr >= 0,
        pc >= 0,
    ensures
        pr <= 19,
        pc <= 9,
{
    lemma_nonempty_witness(m);
    let (r, c) = choose|r: int, c: int| mask_occ(m, r, c);
    assert(!solid_at(g, pr + r, pc + c));
}

/// Every view in a fresh batch is ready for play.
proof fn lemma_spawn_views_ready(v: TetrominoView)
    requires
        spawn_views().to_multiset().count(v) > 0,
    ensures
        piece_ready(v),
        spawn_masks().contains(v.mask),
{
    broadcast use vstd::seq_lib::group_to_multiset_ensures;

    assert(spawn_views().contains(v));
    let i = choose|i: int| 0 <= i < spawn_views().len() && spawn_views()[i] == v;
    assert(v.mask == spawn_masks()[i]);
    if i == 0 {
        assert(piece_ready(v));
    } else if i == 1 {
        assert(piece_ready(v));
    } else if i == 2 {
        assert(piece_ready(v));
    } else if i == 3 {
        assert(piece_ready(v));
    } else if i == 4 {
        assert(piece_ready(v));
    } else if i == 5 {
        assert(piece_ready(v));
    } else {
        assert(piece_ready(v));
    }
}

/// An empty grid keeps no rows.
proof fn lemma_kept_rows_empty()
    ensures
        kept_rows(Seq::<Seq<bool>>::empty()) == Seq::<Seq<bool>>::empty(),
{
    reveal(Seq::filter);
}

/// Scanning one more row keeps it exactly when it is not full.
proof fn lemma_kept_rows_push(s: Seq<Seq<bool>>, row: Seq<bool>)
    ensures
        kept_rows(s.push(row)) == if row_full(row) {
            kept_rows(s)
        } else {
            kept_rows(s).push(row)
        },
{
    reveal(Seq::filter);
    assert(s.push(row).drop_last() =~= s);
    assert(s.push(row).last() == row);
}

/// Whether every cell of the row is occupied.
fn row_full_at(row: &[bool; 10]) -> (v: bool)
    ensures
        v == row_full(row@),
{
    let mut c: usize = 0;
    while c < 10
        invariant
            c <= 10,
            forall|j: int| 0 <= j < c ==> row@[j],
        decreases 10 - c,
    {
        if !row[c] {
            proof {
                assert(!row@[c as int]);
            }
            return false;
        }
        c = c + 1;
    }
    true
}

/// A row of ten empty cells.
fn make_empty_row() -> (row: [bool; 10])
    ensures
        row@ == empty_row(),
{
    let row = [false, false, false, false, false, false, false, false, false, false];
    proof {
        assert(row@ =~= empty_row());
    }
    row
}

/// A full batch of the seven canonical pieces in a fresh random order.
fn fresh_bag() -> (bag: Vec<Tetromino>)
    ensures
        bag@.len() == 7,
        forall|i: int| 0 <= i < 7 ==> piece_ready(#[trigger] bag@[i]@),
        views_of(bag@).to_multiset() == spawn_views().to_multiset(),
{
    let mut batch = generate_batch();
    shuffle_pieces(&mut batch);
    let ghost shuffled = batch@;
    proof {
        broadcast use vstd::seq_lib::group_to_multiset_ensures;

        assert(views_of(shuffled).to_multiset() == spawn_views().to_multiset());
        assert forall|i: int| 0 <= i < shuffled.len() implies piece_ready(
            #[trigger] shuffled[i]@,
        ) by {
            assert(views_of(shuffled)[i] == shuffled[i]@);
            assert(views_of(shuffled).to_multiset().count(shuffled[i]@) > 0);
            lemma_spawn_views_ready(shuffled[i]@);
        }
    }
    batch
}

/// A 20x10 grid with every cell empty.
fn empty_grid() -> (g: [[bool; 10]; 20])
    ensures
        forall|r: int, c: int| 0 <= r < 20 && 0 <= c < 10 ==> !(#[trigger] grid_of(g)[r][c]),
{
    let mut g = [[false; 10]; 20];
    let mut r: usize = 0;
    while r < 20
        invariant
            r <= 20,
            forall|j: int| 0 <= j < r ==> #[trigger] g@[j]@ == empty_row(),
        decreases 20 - r,
    {
        let er = make_empty_row();
        g[r] = er;
        r = r + 1;
    }
    g
}

/// Write every occupied cell of the piece's mask into the grid at the piece's
/// position. The piece must not collide: every occupied cell lands in bounds.
pub fn commit_mask(grid: &mut [[bool; 10]; 20], t: &Tetromino)
    requires
        t.wf(),
        !overlaps(grid_of(*old(grid)), t@.mask, t@.row, t@.col),
    ensures
        grid_of(*final(grid)) == committed(grid_of(*old(grid)), t@.mask, t@.row, t@.col),
{
    proof {
        lemma_no_overlap_bounds(grid_of(*old(grid)), t@.mask, t@.row, t@.col);
    }
    let pr = t.row;
    let pc = t.col;
    let ghost g0 = grid_of(*old(grid));
    let ghost m = t@.mask;
    let mut x: usize = 0;
    while x < 4
        invariant
            x <= 4,
            pr <= 19,
            pc <= 9,
            pr == t.row,
            pc == t.col,
            m == t@.mask,
            g0 == grid_of(*old(grid)),
            !overlaps(g0, m, pr as int, pc as int),
            forall|r: int, c: int|
                0 <= r < 20 && 0 <= c < 10 ==> #[trigger] grid@[r]@[c] == (g0[r][c] || (mask_occ(
                    m,
                    r - pr,
                    c - pc,
                ) && r - pr < x)),
        decreases 4 - x,
    {
        let mut y: usize = 0;
        while y < 4
            invariant
                x < 4,
                y <= 4,
                pr <= 19,
                pc <= 9,
                pr == t.row,
                pc == t.col,
                m == t@.mask,
                g0 == grid_of(*old(grid)),
                !overlaps(g0, m, pr as int, pc as int),
                forall|r: int, c: int|
                    0 <= r < 20 && 0 <= c < 10 ==> #[trigger] grid@[r]@[c] == (g0[r][c] || (
                    mask_occ(m, r - pr, c - pc) && (r - pr < x || (r - pr == x && c - pc < y)))),
            decreases 4 - y,
        {
            if t.blocks[x][y] {
                proof {
                    assert(mask_occ(m, x as int, y as int));
                    assert(!solid_at(g0, pr + x, pc + y));
                }
                let gr = pr + x;
                let gc = pc + y;
                let mut row = grid[gr];
                row[gc] = true;
                grid[gr] = row;
            }
            y = y + 1;
        }
        x = x + 1;
    }
    proof {
        let done = committed(g0, m, pr as int, pc as int);
        assert forall|r: int| 0 <= r < 20 implies grid_of(*grid)[r] =~= done[r] by {
            assert forall|c: int| 0 <= c < 10 implies grid@[r]@[c] == done[r][c] by {
                assert(grid@[r]@[c] == (g0[r][c] || (mask_occ(m, r - pr, c - pc) && r - pr < 4)));
            }
        }
        assert(grid_of(*grid) =~~= done);
    }
}

/// The game state: the settled grid, the falling piece, the bag of upcoming
/// pieces, and whether the game is still running.
pub struct Board {
    /// 20x10 occupancy grid of settled cells, row-major; the falling piece is
    /// not part of it.
    pub grid: [[bool; 10]; 20],
    /// The pieces left in the current shuffle cycle; dealt from the back.
    pub bag: Vec<Tetromino>,
    /// The piece currently in play.
    pub active: Tetromino,
    /// False once a freshly spawned piece collides with the settled terrain.
    pub alive: bool,
}

impl Board {
    /// The abstract grid.
    pub open spec fn grid_view(self) -> Seq<Seq<bool>> {
        grid_of(self.grid)
    }

    /// Every piece waiting in the bag is ready for play.
    pub open spec fn bag_wf(self) -> bool {
        forall|i: int| 0 <= i < self.bag@.len() ==> piece_ready(#[trigger] self.bag@[i]@)
    }

    /// The board invariant: the active piece and the bag are well formed, and
    /// while the game runs the active piece collides with nothing.
    pub open spec fn wf(self) -> bool {
        &&& self.active.wf()
        &&& self.bag_wf()
        &&& (self.alive ==> !overlaps(
            self.grid_view(),
            self.active@.mask,
            self.active@.row,
            self.active@.col,
        ))
    }

    /// Whether (x, y) stops a piece: outside the grid, or an occupied cell.
    pub fn block(&self, x: usize, y: usize) -> (v: bool)
        ensures
            v == solid_at(self.grid_view(), x as int, y as int),
    {
        if x >= 20 || y >= 10 {
            return true;
        }
        self.grid[x][y]
    }

    /// Whether the given piece collides with the grid at its own position.
    pub fn is_overlapping(&self, t: &Tetromino) -> (v: bool)
        requires
            t.row <= usize::MAX - 3,
            t.col <= usize::MAX - 3,
        ensures
            v == overlaps(self.grid_view(), t@.mask, t@.row, t@.col),
    {
        let ghost g = self.grid_view();
        let ghost m = t@.mask;
        let mut x: usize = 0;
        while x < 4
            invariant
                x <= 4,
                t.row <= usize::MAX - 3,
                t.col <= usize::MAX - 3,
                g == self.grid_view(),
                m == t@.mask,
                forall|r: int, c: int|
                    0 <= r < x && 0 <= c < 4 ==> !(mask_occ(m, r, c) && solid_at(
                        g,
                        t@.row + r,
                        t@.col + c,
                    )),
            decreases 4 - x,
        {
            let mut y: usize = 0;
            while y < 4
                invariant
                    x < 4,
                    y <= 4,
                    t.row <= usize::MAX - 3,
                    t.col <= usize::MAX - 3,
                    g == self.grid_view(),
                    m == t@.mask,
                    forall|r: int, c: int|
                        0 <= r < x && 0 <= c < 4 ==> !(mask_occ(m, r, c) && solid_at(
                            g,
                            t@.row + r,
                            t@.col + c,
                        )),
                    forall|c: int|
                        0 <= c < y ==> !(mask_occ(m, x as int, c) && solid_at(
                            g,
                            t@.row + x,
                            t@.col + c,
                        )),
                decreases 4 - y,
            {
                if t.blocks[x][y] && self.block(t.row + x, t.col + y) {
                    proof {
                        assert(mask_occ(m, x as int, y as int) && solid_at(
                            g,
                            t@.row + x,
                            t@.col + y,
                        ));
                    }
                    return true;
                }
                y = y + 1;
            }
            x = x + 1;
        }
        proof {
            assert forall|r: int, c: int| !(mask_occ(m, r, c) && solid_at(
                g,
                t@.row + r,
                t@.col + c,
            )) by {
                if 0 <= r < 4 && 0 <= c < 4 {
                } else {
                    assert(!mask_occ(m, r, c));
                }
            }
        }
        false
    }

    /// Start a game: an empty grid and a freshly shuffled bag, with the first
    /// piece of the bag in play.
    pub fn new() -> (b: Board)
        ensures
            b.wf(),
            b.alive,
            forall|r: int, c: int| 0 <= r < 20 && 0 <= c < 10 ==> !(#[trigger] b.grid_view()[r][c]),
            b.bag@.len() == 6,
            piece_ready(b.active@),
            views_of(b.bag@).push(b.active@).to_multiset() == spawn_views().to_multiset(),
    {
        let mut bag = fresh_bag();
        let ghost full = bag@;
        let active = bag.pop().unwrap();
        let grid = empty_grid();
        let b = Board { grid, bag, active, alive: true };
        proof {
            assert(views_of(full) =~= views_of(full.drop_last()).push(full.last()@));
            assert(views_of(b.bag@).push(b.active@).to_multiset() == spawn_views().to_multiset());
            assert forall|r: int, c: int|
                !(mask_occ(b.active@.mask, r, c) && solid_at(grid_of(grid), r, c)) by {
                if mask_occ(b.active@.mask, r, c) {
                    assert(!grid_of(grid)[r][c]);
                }
            }
            assert(!overlaps(b.grid_view(), b.active@.mask, 0, 0));
        }
        b
    }

    /// Replace the active piece with the next one from the bag; when the bag
    /// is exhausted, refill it with a freshly shuffled full batch first.
    pub fn spawn_next(&mut self)
        requires
            old(self).bag_wf(),
        ensures
            final(self).grid == old(self).grid,
            final(self).alive == old(self).alive,
            final(self).bag_wf(),
            piece_ready(final(self).active@),
            old(self).bag@.len() > 0 ==> final(self).active == old(self).bag@.last()
                && final(self).bag@ == old(self).bag@.drop_last(),
            old(self).bag@.len() == 0 ==> final(self).bag@.len() == 6 && views_of(
                final(self).bag@,
            ).push(final(self).active@).to_multiset() == spawn_views().to_multiset(),
    {
        broadcast use vstd::seq_lib::group_to_multiset_ensures;

        let nxt = self.bag.pop();
        match nxt {
            Some(p) => {
                self.active = p;
                proof {
                    assert(old(self).bag@[old(self).bag@.len() - 1] == old(self).bag@.last());
                }
            },
            None => {
                let mut batch = fresh_bag();
                let ghost shuffled = batch@;
                let p = batch.pop().unwrap();
                self.bag = batch;
                self.active = p;
                proof {
                    assert(views_of(shuffled) =~= views_of(shuffled.drop_last()).push(p@));
                    assert(views_of(final(self).bag@).push(final(self).active@).to_multiset()
                        == spawn_views().to_multiset());
                }
            },
        }
    }
    /// Write every occupied cell of the active piece into the grid.
    fn commit_active(&mut self)
        requires
            old(self).active.wf(),
            !overlaps(
                old(self).grid_view(),
                old(self).active@.mask,
                old(self).active@.row,
                old(self).active@.col,
            ),
        ensures
            final(self).grid_view() == committed(
                old(self).grid_view(),
                old(self).active@.mask,
                old(self).active@.row,
                old(self).active@.col,
            ),
            final(self).bag == old(self).bag,
            final(self).active == old(self).active,
            final(self).alive == old(self).alive,
    {
        commit_mask(&mut self.grid, &self.active);
    }

    /// Clear every full row: its cells empty out, the rows above fall one row,
    /// and an empty row enters at the top for each row cleared.
    fn clear_lines(&mut self)
        ensures
            final(self).grid_view() == grid_clear(old(self).grid_view()),
            final(self).bag == old(self).bag,
            final(self).active == old(self).active,
            final(self).alive == old(self).alive,
    {
        let ghost g0 = self.grid_view();
        let mut kept: Vec<[bool; 10]> = Vec::new();
        proof {
            assert(g0.subrange(0, 0) =~= Seq::<Seq<bool>>::empty());
            lemma_kept_rows_empty();
            assert(kept@.map_values(|row: [bool; 10]| row@) =~= kept_rows(g0.subrange(0, 0)));
        }
        let mut x: usize = 0;
        while x < 20
            invariant
                x <= 20,
                g0 == old(self).grid_view(),
                self == old(self),
                kept@.map_values(|row: [bool; 10]| row@) =~= kept_rows(g0.subrange(0, x as int)),
                kept@.len() <= x,
            decreases 20 - x,
        {
            let row = self.grid[x];
            let full = row_full_at(&row);
            if !full {
                kept.push(row);
            }
            proof {
                let prefix = g0.subrange(0, x as int);
                let ext = g0.subrange(0, x + 1);
                assert(ext =~= prefix.push(g0[x as int]));
                lemma_kept_rows_push(prefix, g0[x as int]);
                assert(row@ == g0[x as int]);
                assert(kept@.map_values(|r: [bool; 10]| r@) =~= kept_rows(ext));
            }
            x = x + 1;
        }
        proof {
            assert(g0.subrange(0, 20) =~= g0);
        }
        let n = kept.len();
        let offset = 20 - n;
        let mut r: usize = 0;
        while r < offset
            invariant
                n == kept@.len(),
                n <= 20,
                offset == 20 - n,
                r <= offset,
                self.bag == old(self).bag,
                self.active == old(self).active,
                self.alive == old(self).alive,
                forall|j: int| 0 <= j < r ==> #[trigger] self.grid@[j]@ == empty_row(),
            decreases offset - r,
        {
            let er = make_empty_row();
            self.grid[r] = er;
            r = r + 1;
        }
        let mut i: usize = 0;
        while i < n
            invariant
                n == kept@.len(),
                n <= 20,
                offset == 20 - n,
                i <= n,
                self.bag == old(self).bag,
                self.active == old(self).active,
                self.alive == old(self).alive,
                forall|j: int| 0 <= j < offset ==> #[trigger] self.grid@[j]@ == empty_row(),
                forall|j: int|
                    0 <= j < i ==> #[trigger] self.grid@[offset + j]@ == kept@.map_values(
                        |row: [bool; 10]| row@,
                    )[j],
            decreases n - i,
        {
            self.grid[offset + i] = kept[i];
            i = i + 1;
        }
        proof {
            let cleared = grid_clear(g0);
            let kv = kept@.map_values(|row: [bool; 10]| row@);
            assert(kv =~= kept_rows(g0));
            assert(kept_rows(g0).len() == n);
            assert forall|j: int| 0 <= j < 20 implies self.grid_view()[j] =~= cleared[j] by {
                if j < offset {
                    assert(self.grid@[j]@ == empty_row());
                } else {
                    let k = j - offset;
                    assert(self.grid@[offset + k]@ == kv[k]);
                }
            }
            assert(self.grid_view() =~~= cleared);
        }
    }

    /// Advance the game one step: the active piece falls one row; if it cannot,
    /// it lands where it is, full rows are cleared, and the next piece spawns.
    /// Returns false exactly when the spawned piece collides at once: game over.
    pub fn lower(&mut self) -> (still_alive: bool)
        requires
            old(self).wf(),
            old(self).alive,
        ensures
            final(self).wf(),
            still_alive == final(self).alive,
            !overlaps(
                old(self).grid_view(),
                old(self).active@.mask,
                old(self).active@.row + 1,
                old(self).active@.col,
            ) ==> ({
                &&& final(self).grid == old(self).grid
                &&& final(self).bag == old(self).bag
                &&& final(self).alive
                &&& final(self).active@.mask == old(self).active@.mask
                &&& final(self).active@.row == old(self).active@.row + 1
                &&& final(self).active@.col == old(self).active@.col
            }),
            overlaps(
                old(self).grid_view(),
                old(self).active@.mask,
                old(self).active@.row + 1,
                old(self).active@.col,
            ) ==> ({
                let landed = grid_clear(
                    committed(
                        old(self).grid_view(),
                        old(self).active@.mask,
                        old(self).active@.row,
                        old(self).active@.col,
                    ),
                );
                &&& final(self).grid_view() == landed
                &&& piece_ready(final(self).active@)
                &&& (old(self).bag@.len() > 0 ==> final(self).active == old(self).bag@.last()
                    && final(self).bag@ == old(self).bag@.drop_last())
                &&& (old(self).bag@.len() == 0 ==> final(self).bag@.len() == 6 && views_of(
                    final(self).bag@,
                ).push(final(self).active@).to_multiset() == spawn_views().to_multiset())
                &&& final(self).alive == !overlaps(landed, final(self).active@.mask, 0, 0)
            }),
    {
        proof {
            lemma_no_overlap_bounds(
                old(self).grid_view(),
                old(self).active@.mask,
                old(self).active@.row,
                old(self).active@.col,
            );
        }
        self.active.move_down();
        if self.is_overlapping(&self.active) {
            self.active.move_up();
            self.commit_active();
            self.clear_lines();
            self.spawn_next();
            let over = self.is_overlapping(&self.active);
            self.alive = !over;
            !over
        } else {
            true
        }
    }

    /// Move the active piece one column left; the move is reverted when it
    /// collides, and at the left wall the piece stays put.
    pub fn move_piece_left(&mut self)
        requires
            old(self).wf(),
            old(self).alive,
        ensures
            final(self).wf(),
            final(self).grid == old(self).grid,
            final(self).bag == old(self).bag,
            final(self).alive,
            final(self).active@.mask == old(self).active@.mask,
            final(self).active@.row == old(self).active@.row,
            final(self).active@.col == if old(self).active@.col > 0 && !overlaps(
                old(self).grid_view(),
                old(self).active@.mask,
                old(self).active@.row,
                old(self).active@.col - 1,
            ) {
                old(self).active@.col - 1
            } else {
                old(self).active@.col
            },
    {
        proof {
            lemma_no_overlap_bounds(
                old(self).grid_view(),
                old(self).active@.mask,
                old(self).active@.row,
                old(self).active@.col,
            );
        }
        self.active.move_left();
        if self.is_overlapping(&self.active) {
            self.active.move_right();
        }
    }

    /// Move the active piece one column right; the move is reverted when it
    /// collides.
    pub fn move_piece_right(&mut self)
        requires
            old(self).wf(),
            old(self).alive,
        ensures
            final(self).wf(),
            final(self).grid == old(self).grid,
            final(self).bag == old(self).bag,
            final(self).alive,
            final(self).active@.mask == old(self).active@.mask,
            final(self).active@.row == old(self).active@.row,
            final(self).active@.col == if !overlaps(
                old(self).grid_view(),
                old(self).active@.mask,
                old(self).active@.row,
                old(self).active@.col + 1,
            ) {
                old(self).active@.col + 1
            } else {
                old(self).active@.col
            },
    {
        proof {
            lemma_no_overlap_bounds(
                old(self).grid_view(),
                old(self).active@.mask,
                old(self).active@.row,
                old(self).active@.col,
            );
        }
        self.active.move_right();
        if self.is_overlapping(&self.active) {
            self.active.move_left();
        }
    }

    /// Rotate the active piece a quarter turn clockwise. An unchecked rotation
    /// could leave the piece overlapping the terrain or the walls, so, as with
    /// translation, a rotation that collides is reverted.
    pub fn rotate_piece(&mut self)
        requires
            old(self).wf(),
            old(self).alive,
        ensures
            final(self).wf(),
            final(self).grid == old(self).grid,
            final(self).bag == old(self).bag,
            final(self).alive,
            final(self).active@.row == old(self).active@.row,
            final(self).active@.col == old(self).active@.col,
            final(self).active@.mask == if !overlaps(
                old(self).grid_view(),
                crate::tetromino::rotation_step(old(self).active@.mask),
                old(self).active@.row,
                old(self).active@.col,
            ) {
                crate::tetromino::rotation_step(old(self).active@.mask)
            } else {
                old(self).active@.mask
            },
    {
        proof {
            lemma_no_overlap_bounds(
                old(self).grid_view(),
                old(self).active@.mask,
                old(self).active@.row,
                old(self).active@.col,
            );
        }
        let saved = self.active.blocks;
        self.active.rotate();
        if self.is_overlapping(&self.active) {
            self.active.blocks = saved;
        }
    }
}

/// The rows kept out of a scan prefix when exactly row rr of the grid is full:
/// up to rr the prefix itself, past rr the prefix with row rr left out.
proof fn lemma_kept_prefix(g: Seq<Seq<bool>>, rr: int, k: int)
    requires
        g.len() == 20,
        0 <= rr < 20,
        row_full(g[rr]),
        forall|r: int| 0 <= r < 20 && r != rr ==> !row_full(#[trigger] g[r]),
        0 <= k <= 20,
    ensures
        k <= rr ==> kept_rows(g.subrange(0, k)) == g.subrange(0, k),
        k > rr ==> kept_rows(g.subrange(0, k)) == g.subrange(0, rr) + g.subrange(rr + 1, k),
    decreases k,
{
    if k == 0 {
        lemma_kept_rows_empty();
        assert(g.subrange(0, 0) =~= Seq::<Seq<bool>>::empty());
    } else {
        lemma_kept_prefix(g, rr, k - 1);
        assert(g.subrange(0, k) =~= g.subrange(0, k - 1).push(g[k - 1]));
        lemma_kept_rows_push(g.subrange(0, k - 1), g[k - 1]);
        if k - 1 < rr {
            assert(kept_rows(g.subrange(0, k)) =~= g.subrange(0, k));
        } else if k - 1 == rr {
            assert(kept_rows(g.subrange(0, k)) =~= g.subrange(0, rr) + g.subrange(rr + 1, k));
        } else {
            assert(kept_rows(g.subrange(0, k)) =~= g.subrange(0, rr) + g.subrange(rr + 1, k));
        }
    }
}

/// Line-clear correctness: when exactly row rr of the grid is full, clearing
/// empties the top row, every row above rr falls one row, and the rows below
/// rr are unchanged.
pub proof fn lemma_clear_single_full_row(g: Seq<Seq<bool>>, rr: int)
    requires
        g.len() == 20,
        0 <= rr < 20,
        row_full(g[rr]),
        forall|r: int| 0 <= r < 20 && r != rr ==> !row_full(#[trigger] g[r]),
    ensures
        grid_clear(g).len() == 20,
        grid_clear(g)[0] == empty_row(),
        forall|r: int| 1 <= r <= rr ==> #[trigger] grid_clear(g)[r] == g[r - 1],
        forall|r: int| rr < r < 20 ==> #[trigger] grid_clear(g)[r] == g[r],
{
    lemma_kept_prefix(g, rr, 20);
    assert(g.subrange(0, 20) =~= g);
    let kept = kept_rows(g);
    assert(kept == g.subrange(0, rr) + g.subrange(rr + 1, 20));
    assert(kept.len() == 19);
    assert forall|r: int| 1 <= r <= rr implies #[trigger] grid_clear(g)[r] == g[r - 1] by {
        assert(kept[r - 1] == g.subrange(0, rr)[r - 1]);
    }
    assert forall|r: int| rr < r < 20 implies #[trigger] grid_clear(g)[r] == g[r] by {
        assert(kept[r - 1] == g.subrange(rr + 1, 20)[r - 1 - rr]);
    }
}

/// What a key press asks of the board.
#[derive(Clone, Copy, PartialEq, Eq, Structural, Debug)]
pub enum PieceAction {
    /// Move the active piece one column left.
    MoveLeft,
    /// Move the active piece one column right.
    MoveRight,
    /// Rotate the active piece a quarter turn clockwise.
    Rotate,
    /// Force the piece one step down.
    Advance,
}

/// The action a key stands for; any other key asks for nothing.
pub open spec fn key_action_spec(key: char) -> Option<PieceAction> {
    if key == 'a' {
        Some(PieceAction::MoveLeft)
    } else if key == 'd' {
        Some(PieceAction::MoveRight)
    } else if key == 'w' {
        Some(PieceAction::Rotate)
    } else if key == 's' {
        Some(PieceAction::Advance)
    } else {
        None
    }
}

/// Map a pressed key to the action it asks of the board.
pub fn key_action(key: char) -> (a: Option<PieceAction>)
    ensures
        a == key_action_spec(key),
{
    match key {
        'a' => Some(PieceAction::MoveLeft),
        'd' => Some(PieceAction::MoveRight),
        'w' => Some(PieceAction::Rotate),
        's' => Some(PieceAction::Advance),
        _ => None,
    }
}

} // verus!
