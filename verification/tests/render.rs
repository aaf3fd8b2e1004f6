use tetris::board::Board;
use tetris::tetromino::Tetromino;

const F: bool = false;
const T: bool = true;

fn o_piece() -> Tetromino {
    Tetromino::new([[F, F, F, F], [F, F, F, F], [T, T, F, F], [T, T, F, F]])
}

/// The cells both renderers must show: the grid with the piece overlaid.
fn scene(b: &Board) -> [[bool; 10]; 20] {
    let mut cells = b.grid;
    for r in 0..4 {
        for c in 0..4 {
            if b.active.blocks[r][c] {
                cells[b.active.row + r][b.active.col + c] = true;
            }
        }
    }
    cells
}

fn expected_text(cells: &[[bool; 10]; 20]) -> String {
    let mut s = String::new();
    for row in cells.iter() {
        let line: Vec<&str> = row.iter().map(|v| if *v { "x" } else { "-" }).collect();
        s += &line.join(" ");
        s += "\n";
    }
    s += "\n";
    s
}

fn expected_html(cells: &[[bool; 10]; 20]) -> String {
    let mut s = String::from("<table>");
    for row in cells.iter() {
        s += "<tr>";
        for v in row.iter() {
            if *v {
                s += "<td bgcolor=\"red\" \\>";
            } else {
                s += "<td bgcolor=\"white\" \\>";
            }
        }
        s += "</tr";
        s += "<br />";
    }
    s += "\n";
    s
}

fn sample_board() -> Board {
    let mut grid = [[false; 10]; 20];
    for c in 0..10 {
        grid[19][c] = c % 2 == 0;
    }
    grid[10][3] = true;
    let mut active = o_piece();
    active.row = 5;
    active.col = 7;
    Board { grid, bag: vec![], active, alive: true }
}

#[test]
fn board_text_rendering_matches_cells() {
    let b = sample_board();
    let out = b.draw_text(String::new());
    assert_eq!(out, expected_text(&scene(&b)));
    assert!(out.contains("x - x - x - x - x -"));
}

#[test]
fn board_html_rendering_matches_cells() {
    let b = sample_board();
    let out = b.draw(String::new());
    assert_eq!(out, expected_html(&scene(&b)));
}

#[test]
fn renderers_append_to_the_given_string() {
    let b = sample_board();
    let out = b.draw_text(String::from("head:"));
    assert!(out.starts_with("head:"));
    let out = b.draw(String::from("head:"));
    assert!(out.starts_with("head:<table>"));
}
