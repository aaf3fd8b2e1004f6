use tetris::board::{key_action, Board, PieceAction};
use tetris::tetromino::Tetromino;

const F: bool = false;
const T: bool = true;

fn t_piece() -> Tetromino {
    Tetromino::new([[F, F, F, F], [F, F, F, F], [F, T, F, F], [T, T, T, F]])
}

fn o_piece() -> Tetromino {
    Tetromino::new([[F, F, F, F], [F, F, F, F], [T, T, F, F], [T, T, F, F]])
}

fn i_piece() -> Tetromino {
    Tetromino::new([[F, F, F, F], [F, F, F, F], [F, F, F, F], [T, T, T, T]])
}

fn spawn_masks() -> Vec<[[bool; 4]; 4]> {
    vec![
        [[T, T, T, F], [F, T, F, F], [F, F, F, F], [F, F, F, F]],
        [[T, T, T, F], [F, F, T, F], [F, F, F, F], [F, F, F, F]],
        [[T, T, T, F], [T, F, F, F], [F, F, F, F], [F, F, F, F]],
        [[T, T, F, F], [T, T, F, F], [F, F, F, F], [F, F, F, F]],
        [[F, T, T, F], [T, T, F, F], [F, F, F, F], [F, F, F, F]],
        [[T, T, F, F], [F, T, T, F], [F, F, F, F], [F, F, F, F]],
        [[T, T, T, T], [F, F, F, F], [F, F, F, F], [F, F, F, F]],
    ]
}

fn empty_grid() -> [[bool; 10]; 20] {
    [[false; 10]; 20]
}

fn board_with(grid: [[bool; 10]; 20], active: Tetromino, bag: Vec<Tetromino>) -> Board {
    Board { grid, bag, active, alive: true }
}

fn assert_fresh_seven(masks: &[[[bool; 4]; 4]]) {
    assert_eq!(masks.len(), 7);
    for expected in spawn_masks() {
        let count = masks.iter().filter(|m| **m == expected).count();
        assert_eq!(count, 1);
    }
}

#[test]
fn new_board_deals_a_full_bag() {
    let b = Board::new();
    assert!(b.alive);
    assert_eq!(b.bag.len(), 6);
    for row in b.grid.iter() {
        for cell in row.iter() {
            assert!(!cell);
        }
    }
    let mut masks: Vec<[[bool; 4]; 4]> = b.bag.iter().map(|p| p.blocks).collect();
    masks.push(b.active.blocks);
    assert_fresh_seven(&masks);
}

#[test]
fn bag_refills_after_seven_pops() {
    let mut b = Board::new();
    for _ in 0..6 {
        b.spawn_next();
    }
    assert_eq!(b.bag.len(), 0);
    b.spawn_next();
    assert_eq!(b.bag.len(), 6);
    let mut masks: Vec<[[bool; 4]; 4]> = b.bag.iter().map(|p| p.blocks).collect();
    masks.push(b.active.blocks);
    assert_fresh_seven(&masks);
}

#[test]
fn block_reports_walls_and_cells() {
    let mut grid = empty_grid();
    grid[5][5] = true;
    let b = board_with(grid, t_piece(), vec![]);
    assert!(!b.block(0, 0));
    assert!(b.block(5, 5));
    assert!(b.block(20, 0));
    assert!(b.block(0, 10));
    assert!(b.block(usize::MAX, usize::MAX));
}

#[test]
fn overlap_detects_walls_and_terrain() {
    let b = board_with(empty_grid(), t_piece(), vec![]);

    let mut probe = i_piece();
    probe.col = 6;
    assert!(!b.is_overlapping(&probe));
    probe.col = 7;
    assert!(b.is_overlapping(&probe));

    let mut low = o_piece();
    low.row = 18;
    assert!(!b.is_overlapping(&low));
    low.row = 19;
    assert!(b.is_overlapping(&low));

    let mut grid = empty_grid();
    grid[1][1] = true;
    let occupied = board_with(grid, t_piece(), vec![]);
    let probe = t_piece();
    assert!(occupied.is_overlapping(&probe));
    let mut aside = t_piece();
    aside.col = 3;
    assert!(!occupied.is_overlapping(&aside));
}

#[test]
fn lower_lets_a_piece_fall() {
    let mut b = board_with(empty_grid(), t_piece(), vec![t_piece()]);
    let alive = b.lower();
    assert!(alive);
    assert!(b.alive);
    assert_eq!(b.active.row, 1);
    assert_eq!(b.active.col, 0);
    assert_eq!(b.bag.len(), 1);
    for row in b.grid.iter() {
        for cell in row.iter() {
            assert!(!cell);
        }
    }
}

#[test]
fn landing_commits_and_spawns_from_bag() {
    let mut active = o_piece();
    active.row = 18;
    active.col = 4;
    let mut b = board_with(empty_grid(), active, vec![t_piece()]);
    let alive = b.lower();
    assert!(alive);
    assert!(b.grid[18][4] && b.grid[18][5] && b.grid[19][4] && b.grid[19][5]);
    assert!(!b.grid[18][6] && !b.grid[17][4]);
    assert_eq!(b.bag.len(), 0);
    assert_eq!(b.active.blocks, t_piece().blocks);
    assert_eq!((b.active.row, b.active.col), (0, 0));
}

#[test]
fn landing_clears_a_full_row() {
    let mut grid = empty_grid();
    for c in 2..10 {
        grid[19][c] = true;
    }
    grid[18][5] = true;
    grid[17][7] = true;
    let mut active = o_piece();
    active.row = 18;
    active.col = 0;
    let mut b = board_with(grid, active, vec![t_piece()]);
    let alive = b.lower();
    assert!(alive);

    // Row 19 filled up and was cleared: the rows above it fell one row and an
    // empty row entered at the top.
    let mut expected = empty_grid();
    expected[19][0] = true;
    expected[19][1] = true;
    expected[19][5] = true;
    expected[18][7] = true;
    assert_eq!(b.grid, expected);
}

#[test]
fn spawning_into_terrain_ends_the_game() {
    let mut grid = empty_grid();
    for c in 0..9 {
        grid[1][c] = true;
    }
    let mut active = o_piece();
    active.row = 18;
    active.col = 0;
    let mut b = board_with(grid, active, vec![t_piece()]);
    let alive = b.lower();
    assert!(!alive);
    assert!(!b.alive);
}

#[test]
fn side_moves_revert_on_collision() {
    let mut b = board_with(empty_grid(), t_piece(), vec![]);
    b.move_piece_left();
    assert_eq!(b.active.col, 0);
    b.move_piece_right();
    assert_eq!(b.active.col, 1);
    b.move_piece_left();
    assert_eq!(b.active.col, 0);

    let mut right = i_piece();
    right.col = 6;
    let mut b = board_with(empty_grid(), right, vec![]);
    b.move_piece_right();
    assert_eq!(b.active.col, 6);

    let mut grid = empty_grid();
    grid[0][4] = true;
    let mut blocked = t_piece();
    blocked.col = 1;
    let mut b = board_with(grid, blocked, vec![]);
    b.move_piece_right();
    assert_eq!(b.active.col, 1);
}

#[test]
fn rotation_reverts_on_collision() {
    let mut upright = i_piece();
    upright.rotate();
    let vertical = upright.blocks;
    upright.col = 9;
    let mut b = board_with(empty_grid(), upright, vec![]);
    b.rotate_piece();
    assert_eq!(b.active.blocks, vertical);

    let mut free = i_piece();
    free.rotate();
    free.col = 5;
    let mut b = board_with(empty_grid(), free, vec![]);
    b.rotate_piece();
    assert_eq!(b.active.blocks, i_piece().blocks);
}

#[test]
fn keys_map_to_actions() {
    assert_eq!(key_action('a'), Some(PieceAction::MoveLeft));
    assert_eq!(key_action('d'), Some(PieceAction::MoveRight));
    assert_eq!(key_action('w'), Some(PieceAction::Rotate));
    assert_eq!(key_action('s'), Some(PieceAction::Advance));
    assert_eq!(key_action('x'), None);
    assert_eq!(key_action('\n'), None);
}
