use tetris::shapes::generate_batch;
use tetris::tetromino::Tetromino;

const F: bool = false;
const T: bool = true;

fn t_authored() -> [[bool; 4]; 4] {
    [[F, F, F, F], [F, F, F, F], [F, T, F, F], [T, T, T, F]]
}

#[test]
fn test_rotate() {
    let mut batch = generate_batch();

    let mut result: String = String::new();
    for tetronimo in batch.iter_mut() {
        for _ in 0..4 {
            result = tetronimo.draw(result);
            tetronimo.rotate();
        }
        result += "-------\n";
    }

    let expected = "\
x x x -
- x - -
- - - -
- - - -

- x - -
x x - -
- x - -
- - - -

- x - -
x x x -
- - - -
- - - -

x - - -
x x - -
x - - -
- - - -

-------
x x x -
- - x -
- - - -
- - - -

- x - -
- x - -
x x - -
- - - -

x - - -
x x x -
- - - -
- - - -

x x - -
x - - -
x - - -
- - - -

-------
x x x -
x - - -
- - - -
- - - -

x x - -
- x - -
- x - -
- - - -

- - x -
x x x -
- - - -
- - - -

x - - -
x - - -
x x - -
- - - -

-------
x x - -
x x - -
- - - -
- - - -

x x - -
x x - -
- - - -
- - - -

x x - -
x x - -
- - - -
- - - -

x x - -
x x - -
- - - -
- - - -

-------
- x x -
x x - -
- - - -
- - - -

x - - -
x x - -
- x - -
- - - -

- x x -
x x - -
- - - -
- - - -

x - - -
x x - -
- x - -
- - - -

-------
x x - -
- x x -
- - - -
- - - -

- x - -
x x - -
x - - -
- - - -

x x - -
- x x -
- - - -
- - - -

- x - -
x x - -
x - - -
- - - -

-------
x x x x
- - - -
- - - -
- - - -

x - - -
x - - -
x - - -
x - - -

x x x x
- - - -
- - - -
- - - -

x - - -
x - - -
x - - -
x - - -

-------
";

    assert_eq!(result, expected);
}

#[test]
fn rotation_has_period_four() {
    let batch = generate_batch();
    assert_eq!(batch.len(), 7);
    for piece in batch.iter() {
        let spawn = piece.blocks;
        let mut p = Tetromino {
            blocks: spawn,
            row: piece.row,
            col: piece.col,
        };
        for _ in 0..4 {
            p.rotate();
        }
        assert_eq!(p.blocks, spawn);
    }
}

#[test]
fn rotation_keeps_mask_normalized() {
    let mut batch = generate_batch();
    for piece in batch.iter_mut() {
        for _ in 0..4 {
            piece.rotate();
            let b = piece.blocks;
            let top_row_occupied = b[0][0] || b[0][1] || b[0][2] || b[0][3];
            let left_col_occupied = b[0][0] || b[1][0] || b[2][0] || b[3][0];
            assert!(top_row_occupied);
            assert!(left_col_occupied);
        }
    }
}

#[test]
fn t_piece_first_rotation_matches_fixture() {
    let mut piece = Tetromino::new(t_authored());
    assert_eq!(
        piece.blocks,
        [[T, T, T, F], [F, T, F, F], [F, F, F, F], [F, F, F, F]]
    );
    piece.rotate();
    assert_eq!(
        piece.blocks,
        [[F, T, F, F], [T, T, F, F], [F, T, F, F], [F, F, F, F]]
    );
}

#[test]
fn piece_draw_renders_mask() {
    let piece = Tetromino::new(t_authored());
    let out = piece.draw(String::new());
    assert_eq!(out, "x x x -\n- x - -\n- - - -\n- - - -\n\n");
}

#[test]
fn moves_shift_position() {
    let mut piece = Tetromino::new(t_authored());
    assert_eq!((piece.row, piece.col), (0, 0));
    piece.move_left();
    assert_eq!(piece.col, 0);
    piece.move_right();
    assert_eq!(piece.col, 1);
    piece.move_left();
    assert_eq!(piece.col, 0);
    piece.move_down();
    assert_eq!(piece.row, 1);
    piece.move_up();
    assert_eq!(piece.row, 0);
}
