use goffin::gof::Board;
use goffin::gof::Cell;
use goffin::gof::FourOrMoreNeighbors;
use goffin::gof::SeedError;
use goffin::gof::TwoOrThreeNeighbors;
use goffin::gof::ZeroOrOneNeighbors;

fn board_with(rows: usize, cols: usize, live: &[(usize, usize)]) -> Board {
    let mut alive = vec![vec![false; cols]; rows];
    for &(i, j) in live {
        alive[i][j] = true;
    }
    Board::from_alive(&alive).unwrap()
}

fn live_cells(board: &Board) -> Vec<(usize, usize)> {
    let mut out = Vec::new();
    for i in 0..board.rows() {
        for j in 0..board.cols() {
            if board.cell(i, j).is_alive() {
                out.push((i, j));
            }
        }
    }
    out
}

fn neighbors(board: &Board, i: usize, j: usize) -> u8 {
    let mut n = 0;
    for di in -1i64..=1 {
        for dj in -1i64..=1 {
            if di == 0 && dj == 0 {
                continue;
            }
            let (a, b) = (i as i64 + di, j as i64 + dj);
            if a >= 0 && b >= 0 && (a as usize) < board.rows() && (b as usize) < board.cols() {
                if board.cell(a as usize, b as usize).is_alive() {
                    n += 1;
                }
            }
        }
    }
    n
}

fn assert_classified(board: &Board) {
    for i in 0..board.rows() {
        for j in 0..board.cols() {
            let c = board.cell(i, j);
            assert_eq!(c, Cell::classify(c.is_alive(), neighbors(board, i, j)));
        }
    }
}

#[test]
fn blinker_oscillates() {
    let mut board = board_with(6, 11, &[(1, 5), (2, 5), (3, 5)]);
    let vertical = live_cells(&board);
    assert_eq!(board.generation(), 0);
    for _ in 0..6 {
        Cell::complete_lifecycle(&mut board);
        if board.generation() % 2 == 1 {
            assert_eq!(live_cells(&board), vec![(2, 4), (2, 5), (2, 6)]);
        } else {
            assert_eq!(live_cells(&board), vertical);
        }
    }
}

#[test]
fn block_is_still() {
    let mut board = board_with(4, 4, &[(1, 1), (1, 2), (2, 1), (2, 2)]);
    let block = live_cells(&board);
    for _ in 0..3 {
        Cell::complete_lifecycle(&mut board);
        assert_eq!(live_cells(&board), block);
        for &(i, j) in &block {
            assert_eq!(
                board.cell(i, j),
                Cell::TwoOrThreeNeighbors(TwoOrThreeNeighbors::new(true, false))
            );
        }
    }
}

#[test]
fn lone_cell_dies() {
    let mut board = board_with(5, 5, &[(2, 2)]);
    Cell::complete_lifecycle(&mut board);
    assert!(live_cells(&board).is_empty());
    assert_eq!(
        board.cell(2, 2),
        Cell::ZeroOrOneNeighbors(ZeroOrOneNeighbors::new(false))
    );
}

#[test]
fn birth_at_exactly_three() {
    let mut board = board_with(4, 4, &[(0, 0), (0, 1), (1, 0)]);
    assert_eq!(
        board.cell(1, 1),
        Cell::TwoOrThreeNeighbors(TwoOrThreeNeighbors::new(false, true))
    );
    Cell::complete_lifecycle(&mut board);
    assert!(board.cell(1, 1).is_alive());
    assert_eq!(live_cells(&board), vec![(0, 0), (0, 1), (1, 0), (1, 1)]);
}

#[test]
fn edges_do_not_wrap() {
    let mut board = board_with(3, 3, &[(0, 0), (0, 1)]);
    assert_eq!(
        board.cell(0, 0),
        Cell::ZeroOrOneNeighbors(ZeroOrOneNeighbors::new(true))
    );
    Cell::complete_lifecycle(&mut board);
    assert!(!board.cell(0, 0).is_alive());
    assert!(!board.cell(0, 1).is_alive());
    assert!(!board.cell(2, 2).is_alive());
}

#[test]
fn corner_cells_see_across_no_edge() {
    // with wrapping, (0, 2) and (2, 0) would be neighbours of (0, 0)
    let board = board_with(3, 3, &[(0, 2), (2, 0), (2, 2)]);
    assert_eq!(
        board.cell(0, 0),
        Cell::ZeroOrOneNeighbors(ZeroOrOneNeighbors::new(false))
    );
}

#[test]
fn every_cell_classified_after_advance() {
    let mut board = board_with(6, 11, &[(0, 5), (1, 4), (1, 5), (1, 6), (2, 4), (2, 5), (2, 6), (3, 5)]);
    for _ in 0..5 {
        Cell::complete_lifecycle(&mut board);
        assert_classified(&board);
    }
}

#[test]
fn still_life_twice() {
    // a beehive
    let mut board = board_with(5, 6, &[(1, 2), (1, 3), (2, 1), (2, 4), (3, 2), (3, 3)]);
    let start = live_cells(&board);
    Cell::complete_lifecycle(&mut board);
    Cell::complete_lifecycle(&mut board);
    assert_eq!(live_cells(&board), start);
}

#[test]
fn advance_keeps_dimensions() {
    let mut board = board_with(3, 7, &[(1, 1), (1, 2), (1, 3)]);
    Cell::complete_lifecycle(&mut board);
    assert_eq!(board.rows(), 3);
    assert_eq!(board.cols(), 7);
}

#[test]
fn generation_counts_advances() {
    let mut board = Board::new(2, 2).unwrap();
    assert_eq!(board.generation(), 0);
    Cell::complete_lifecycle(&mut board);
    Cell::complete_lifecycle(&mut board);
    Cell::complete_lifecycle(&mut board);
    assert_eq!(board.generation(), 3);
}

#[test]
fn classify_buckets() {
    assert_eq!(Cell::classify(true, 0), Cell::ZeroOrOneNeighbors(ZeroOrOneNeighbors::new(true)));
    assert_eq!(Cell::classify(false, 1), Cell::ZeroOrOneNeighbors(ZeroOrOneNeighbors::new(false)));
    assert_eq!(Cell::classify(true, 2), Cell::TwoOrThreeNeighbors(TwoOrThreeNeighbors::new(true, false)));
    assert_eq!(Cell::classify(false, 2), Cell::TwoOrThreeNeighbors(TwoOrThreeNeighbors::new(false, false)));
    assert_eq!(Cell::classify(true, 3), Cell::TwoOrThreeNeighbors(TwoOrThreeNeighbors::new(true, false)));
    assert_eq!(Cell::classify(false, 3), Cell::TwoOrThreeNeighbors(TwoOrThreeNeighbors::new(false, true)));
    assert_eq!(Cell::classify(true, 4), Cell::FourOrMoreNeighbors(FourOrMoreNeighbors::new(true)));
    assert_eq!(Cell::classify(false, 8), Cell::FourOrMoreNeighbors(FourOrMoreNeighbors::new(false)));
}

#[test]
fn classify_is_deterministic() {
    for n in 0..=8u8 {
        for alive in [false, true] {
            assert_eq!(Cell::classify(alive, n), Cell::classify(alive, n));
        }
    }
}

#[test]
fn will_spawn_only_on_dead_cells_with_three() {
    let mut board = board_with(6, 11, &[(0, 5), (1, 4), (1, 5), (1, 6), (2, 4), (2, 5), (2, 6), (3, 5)]);
    for _ in 0..4 {
        Cell::complete_lifecycle(&mut board);
        for i in 0..board.rows() {
            for j in 0..board.cols() {
                if let Cell::TwoOrThreeNeighbors(c) = board.cell(i, j) {
                    if c.will_spawn() {
                        assert!(!board.cell(i, j).is_alive());
                        assert_eq!(neighbors(&board, i, j), 3);
                    }
                }
            }
        }
    }
}

#[test]
fn single_cell_grid_ends_dead_and_low() {
    let mut board = Board::new(1, 1).unwrap();
    board
        .set_cell(0, 0, Cell::TwoOrThreeNeighbors(TwoOrThreeNeighbors::new(false, true)))
        .unwrap();
    Cell::complete_lifecycle(&mut board);
    assert_eq!(board.cell(0, 0), Cell::ZeroOrOneNeighbors(ZeroOrOneNeighbors::new(true)));
    Cell::complete_lifecycle(&mut board);
    assert_eq!(board.cell(0, 0), Cell::ZeroOrOneNeighbors(ZeroOrOneNeighbors::new(false)));
}

#[test]
fn full_square_collapses() {
    let mut live = Vec::new();
    for i in 1..4 {
        for j in 1..4 {
            live.push((i, j));
        }
    }
    let mut board = board_with(5, 5, &live);
    assert_eq!(board.cell(2, 2), Cell::FourOrMoreNeighbors(FourOrMoreNeighbors::new(true)));
    Cell::complete_lifecycle(&mut board);
    assert!(!board.cell(2, 2).is_alive());
}

#[test]
fn declared_classes_drive_first_step() {
    let mut board = Board::new(3, 3).unwrap();
    board
        .set_cell(1, 1, Cell::TwoOrThreeNeighbors(TwoOrThreeNeighbors::new(false, true)))
        .unwrap();
    board
        .set_cell(0, 0, Cell::FourOrMoreNeighbors(FourOrMoreNeighbors::new(true)))
        .unwrap();
    Cell::complete_lifecycle(&mut board);
    assert_eq!(live_cells(&board), vec![(1, 1)]);
    assert_eq!(board.cell(1, 1), Cell::ZeroOrOneNeighbors(ZeroOrOneNeighbors::new(true)));
}

#[test]
fn empty_grids_are_refused() {
    assert_eq!(Board::new(0, 4).unwrap_err(), SeedError::Empty);
    assert_eq!(Board::new(4, 0).unwrap_err(), SeedError::Empty);
    assert_eq!(Board::from_alive(&vec![]).unwrap_err(), SeedError::Empty);
    assert_eq!(Board::from_alive(&vec![vec![]]).unwrap_err(), SeedError::Empty);
}

#[test]
fn ragged_rows_are_refused() {
    let alive = vec![vec![false, true], vec![true]];
    assert_eq!(Board::from_alive(&alive).unwrap_err(), SeedError::Ragged);
}

#[test]
fn positions_off_the_board_are_refused() {
    let mut board = Board::new(2, 3).unwrap();
    let c = Cell::ZeroOrOneNeighbors(ZeroOrOneNeighbors::new(true));
    assert_eq!(board.set_cell(2, 0, c), Err(SeedError::OutOfRange));
    assert_eq!(board.set_cell(0, 3, c), Err(SeedError::OutOfRange));
    assert!(live_cells(&board).is_empty());
    assert_eq!(board.set_cell(1, 2, c), Ok(()));
    assert_eq!(live_cells(&board), vec![(1, 2)]);
}

#[test]
fn new_board_is_dead() {
    let board = Board::new(2, 3).unwrap();
    assert_eq!(board.rows(), 2);
    assert_eq!(board.cols(), 3);
    for i in 0..2 {
        for j in 0..3 {
            assert_eq!(board.cell(i, j), Cell::ZeroOrOneNeighbors(ZeroOrOneNeighbors::new(false)));
        }
    }
}

#[test]
fn advance_follows_conway_rule() {
    let mut board = board_with(
        6,
        7,
        &[(0, 0), (0, 3), (1, 1), (1, 2), (1, 3), (2, 5), (3, 0), (3, 4), (3, 5), (4, 6), (5, 2), (5, 3)],
    );
    for _ in 0..4 {
        let mut expected = Vec::new();
        for i in 0..board.rows() {
            for j in 0..board.cols() {
                let n = neighbors(&board, i, j);
                if n == 3 || (board.cell(i, j).is_alive() && n == 2) {
                    expected.push((i, j));
                }
            }
        }
        Cell::complete_lifecycle(&mut board);
        assert_eq!(live_cells(&board), expected);
    }
}
