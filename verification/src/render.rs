//! Rendering: the text dump of a cell grid and the HTML fragment of the board.

use vstd::prelude::*;
use vstd::string::StringExecFns;
use crate::tetromino::Tetromino;
use crate::board::{committed, Board};

verus! {

/// The character a cell renders to.
pub open spec fn cell_char(v: bool) -> char {
    if v {
        'x'
    } else {
        '-'
    }
}

/// The first n cells of a row as text, separated by single spaces.
pub open spec fn row_cells_text(row: Seq<bool>, n: int) -> Seq<char>
    decreases n,
{
    if n <= 0 {
        Seq::empty()
    } else if n == 1 {
        seq![cell_char(row[0])]
    } else {
        row_cells_text(row, n - 1) + seq![' ', cell_char(row[n - 1])]
    }
}

/// The first n rows of a grid as text, one line per row.
pub open spec fn rows_text(g: Seq<Seq<bool>>, n: int) -> Seq<char>
    decreases n,
{
    if n <= 0 {
        Seq::empty()
    } else {
        rows_text(g, n - 1) + row_cells_text(g[n - 1], g[n - 1].len() as int) + seq!['\n']
    }
}

/// The text rendering of a grid: its rows, then a blank line.
pub open spec fn grid_text(g: Seq<Seq<bool>>) -> Seq<char> {
    rows_text(g, g.len() as int) + seq!['\n']
}

/// The HTML for one cell.
pub open spec fn html_cell(v: bool) -> Seq<char> {
    if v {
        "<td bgcolor=\"red\" \\>"@
    } else {
        "<td bgcolor=\"white\" \\>"@
    }
}

/// The HTML for the first n cells of a row.
pub open spec fn html_cells(row: Seq<bool>, n: int) -> Seq<char>
    decreases n,
{
    if n <= 0 {
        Seq::empty()
    } else {
        html_cells(row, n - 1) + html_cell(row[n - 1])
    }
}

/// The HTML for one row. The closing tag loses its final character to the
/// renderer's trailing-character trim; the fragment is malformed but stable.
pub open spec fn html_row(row: Seq<bool>) -> Seq<char> {
    "<tr>"@ + html_cells(row, row.len() as int) + "</tr"@ + "<br />"@
}

/// The HTML for the first n rows of a grid.
pub open spec fn html_rows(g: Seq<Seq<bool>>, n: int) -> Seq<char>
    decreases n,
{
    if n <= 0 {
        Seq::empty()
    } else {
        html_rows(g, n - 1) + html_row(g[n - 1])
    }
}

/// The HTML rendering of a grid: a table of its rows, then a newline.
pub open spec fn grid_html(g: Seq<Seq<bool>>) -> Seq<char> {
    "<table>"@ + html_rows(g, g.len() as int) + "\n"@
}

/// Append one grid row as text: cells separated by single spaces.
fn append_row_text<const N: usize>(s: &mut String, row: &[bool; N])
    ensures
        final(s)@ == old(s)@ + row_cells_text(row@, N as int),
{
    let mut c: usize = 0;
    while c < N
        invariant
            c <= N,
            s@ == old(s)@ + row_cells_text(row@, c as int),
        decreases N - c,
    {
        if c > 0 {
            s.append(" ");
        }
        if row[c] {
            s.append("x");
        } else {
            s.append("-");
        }
        proof {
            reveal_strlit(" ");
            reveal_strlit("x");
            reveal_strlit("-");
            assert(s@ =~= old(s)@ + row_cells_text(row@, c + 1));
        }
        c = c + 1;
    }
}

/// Append one grid row as HTML.
fn append_row_html(s: &mut String, row: &[bool; 10])
    ensures
        final(s)@ == old(s)@ + html_row(row@),
{
    s.append("<tr>");
    let mut c: usize = 0;
    while c < 10
        invariant
            c <= 10,
            s@ == old(s)@ + "<tr>"@ + html_cells(row@, c as int),
        decreases 10 - c,
    {
        if row[c] {
            s.append("<td bgcolor=\"red\" \\>");
        } else {
            s.append("<td bgcolor=\"white\" \\>");
        }
        proof {
            assert(s@ =~= old(s)@ + "<tr>"@ + html_cells(row@, c + 1));
        }
        c = c + 1;
    }
    s.append("</tr");
    s.append("<br />");
    proof {
        assert(s@ =~= old(s)@ + html_row(row@));
    }
}

impl Tetromino {
    /// Append the text rendering of the piece's mask: four rows of cells and a
    /// blank line.
    pub fn draw(&self, string: String) -> (out: String)
        ensures
            out@ == string@ + grid_text(self.mask()),
    {
        let ghost s0 = string@;
        let ghost m = self.mask();
        let mut s = string;
        let mut r: usize = 0;
        while r < 4
            invariant
                r <= 4,
                m == self.mask(),
                s@ == s0 + rows_text(m, r as int),
            decreases 4 - r,
        {
            proof {
                assert(m[r as int] =~= self.blocks@[r as int]@);
            }
            append_row_text::<4>(&mut s, &self.blocks[r]);
            s.append("\n");
            proof {
                reveal_strlit("\n");
                assert("\n"@ =~= seq!['\n']);
                assert(s@ =~= s0 + rows_text(m, r + 1));
            }
            r = r + 1;
        }
        s.append("\n");
        proof {
            reveal_strlit("\n");
            assert("\n"@ =~= seq!['\n']);
            assert(s@ =~= s0 + grid_text(m));
        }
        s
    }
}

/// The grid the renderers show: the settled grid with the active piece overlaid.
pub open spec fn board_scene(b: Board) -> Seq<Seq<bool>> {
    committed(b.grid_view(), b.active@.mask, b.active@.row, b.active@.col)
}

impl Board {
    /// Append the HTML rendering of the board, active piece overlaid.
    pub fn draw(&self, string: String) -> (out: String)
        requires
            self.wf(),
            self.alive,
        ensures
            out@ == string@ + grid_html(board_scene(*self)),
    {
        let ghost s0 = string@;
        let ghost scene = board_scene(*self);
        let mut cur = self.grid;
        commit_overlay(&mut cur, self);
        let mut s = string;
        s.append("<table>");
        let mut r: usize = 0;
        while r < 20
            invariant
                r <= 20,
                scene == board_scene(*self),
                grid_of_matches(cur, scene),
                s@ == s0 + "<table>"@ + html_rows(scene, r as int),
            decreases 20 - r,
        {
            proof {
                assert(scene[r as int] =~= cur@[r as int]@);
            }
            append_row_html(&mut s, &cur[r]);
            proof {
                assert(s@ =~= s0 + "<table>"@ + html_rows(scene, r + 1));
            }
            r = r + 1;
        }
        s.append("\n");
        proof {
            assert(s@ =~= s0 + grid_html(scene));
        }
        s
    }

    /// Append the text rendering of the board, active piece overlaid: twenty
    /// rows of cells and a blank line.
    pub fn draw_text(&self, string: String) -> (out: String)
        requires
            self.wf(),
            self.alive,
        ensures
            out@ == string@ + grid_text(board_scene(*self)),
    {
        let ghost s0 = string@;
        let ghost scene = board_scene(*self);
        let mut cur = self.grid;
        commit_overlay(&mut cur, self);
        let mut s = string;
        let mut r: usize = 0;
        while r < 20
            invariant
                r <= 20,
                scene == board_scene(*self),
                grid_of_matches(cur, scene),
                s@ == s0 + rows_text(scene, r as int),
            decreases 20 - r,
        {
            proof {
                assert(scene[r as int] =~= cur@[r as int]@);
            }
            append_row_text::<10>(&mut s, &cur[r]);
            s.append("\n");
            proof {
                reveal_strlit("\n");
                assert("\n"@ =~= seq!['\n']);
                assert(s@ =~= s0 + rows_text(scene, r + 1));
            }
            r = r + 1;
        }
        s.append("\n");
        proof {
            reveal_strlit("\n");
            assert("\n"@ =~= seq!['\n']);
            assert(s@ =~= s0 + grid_text(scene));
        }
        s
    }
}

/// The concrete grid holds exactly the rows of the abstract one.
pub open spec fn grid_of_matches(g: [[bool; 10]; 20], s: Seq<Seq<bool>>) -> bool {
    crate::board::grid_of(g) == s
}

/// Overlay the board's active piece onto a copy of its grid.
fn commit_overlay(cur: &mut [[bool; 10]; 20], b: &Board)
    requires
        *old(cur) == b.grid,
        b.wf(),
        b.alive,
    ensures
        grid_of_matches(*final(cur), board_scene(*b)),
{
    crate::board::commit_mask(cur, &b.active);
}

} // verus!
