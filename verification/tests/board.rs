use tictactoe::Board;
use tictactoe::Mark;
use tictactoe::check_win;

fn board_with(cells: &[(usize, usize)], m: Mark) -> Board {
    let mut b = Board::new();
    for &(col, row) in cells {
        b.set(col, row, m);
    }
    b
}

#[test]
fn empty_board_wins_nobody() {
    let b = Board::new();
    assert!(!check_win(&b, Mark::X));
    assert!(!check_win(&b, Mark::O));
    for col in 0..3 {
        for row in 0..3 {
            assert_eq!(b.get(col, row), Mark::Empty);
        }
    }
}

#[test]
fn all_eight_lines_win() {
    let lines: [[(usize, usize); 3]; 8] = [
        [(0, 0), (1, 0), (2, 0)],
        [(0, 1), (1, 1), (2, 1)],
        [(0, 2), (1, 2), (2, 2)],
        [(0, 0), (0, 1), (0, 2)],
        [(1, 0), (1, 1), (1, 2)],
        [(2, 0), (2, 1), (2, 2)],
        [(0, 0), (1, 1), (2, 2)],
        [(2, 0), (1, 1), (0, 2)],
    ];
    for line in &lines {
        let bx = board_with(line, Mark::X);
        assert!(check_win(&bx, Mark::X));
        assert!(!check_win(&bx, Mark::O));
        let bo = board_with(line, Mark::O);
        assert!(check_win(&bo, Mark::O));
        assert!(!check_win(&bo, Mark::X));
    }
}

#[test]
fn column_zero_of_x_wins() {
    let b = board_with(&[(0, 0), (0, 1), (0, 2)], Mark::X);
    assert!(check_win(&b, Mark::X));
    assert!(!check_win(&b, Mark::O));
}

#[test]
fn two_in_a_line_does_not_win() {
    let b = board_with(&[(0, 0), (1, 0)], Mark::X);
    assert!(!check_win(&b, Mark::X));
}

#[test]
fn broken_line_does_not_win() {
    let mut b = board_with(&[(0, 0), (1, 0), (2, 0)], Mark::X);
    b.set(1, 0, Mark::O);
    assert!(!check_win(&b, Mark::X));
    assert!(!check_win(&b, Mark::O));
}

#[test]
fn set_then_get_round_trips() {
    let mut b = Board::new();
    b.set(2, 1, Mark::O);
    assert_eq!(b.get(2, 1), Mark::O);
    assert_eq!(b.get(1, 2), Mark::Empty);
    assert_eq!(b.get(2, 0), Mark::Empty);
}
