//! Text for a resolved game and for the board itself, ready for whatever
//! surface the host shows it on.

use vstd::prelude::*;
use crate::board::Board;
use crate::board::Mark;
use crate::board::cell_at;
use crate::game::GameResult;

verus! {

/// The character a cell mark prints as.
pub open spec fn mark_char(m: Mark) -> char {
    match m {
        Mark::Empty => ' ',
        Mark::X => 'X',
        Mark::O => 'O',
    }
}

/// The characters of the end-of-game banner for `r`.
pub open spec fn banner_chars(r: GameResult) -> Seq<char> {
    match r {
        GameResult::Won(m) => seq!['P', 'l', 'a', 'y', 'e', 'r', ' ', mark_char(m), ' ', 'w', 'o', 'n'],
        GameResult::Tie => seq!['I', 't', '\'', 's', ' ', 'a', ' ', 'T', 'i', 'e'],
        GameResult::InProgress => Seq::empty(),
    }
}

/// The characters of one printed board row: the three marks of row `row`,
/// column by column, then a newline.
pub open spec fn row_chars(g: Seq<Mark>, row: int) -> Seq<char> {
    seq![
        mark_char(cell_at(g, 0, row)),
        mark_char(cell_at(g, 1, row)),
        mark_char(cell_at(g, 2, row)),
        '\n',
    ]
}

/// The characters of the whole printed board: its three rows in order.
pub open spec fn board_chars(g: Seq<Mark>) -> Seq<char> {
    row_chars(g, 0) + row_chars(g, 1) + row_chars(g, 2)
}

/// The one-character string a mark prints as.
fn mark_str(m: Mark) -> (s: &'static str)
    ensures
        s@ == seq![mark_char(m)],
{
    match m {
        Mark::Empty => {
            proof {
                reveal_strlit(" ");
            }
            " "
        },
        Mark::X => {
            proof {
                reveal_strlit("X");
            }
            "X"
        },
        Mark::O => {
            proof {
                reveal_strlit("O");
            }
            "O"
        },
    }
}

/// The end-of-game banner: who won, or that the game tied.
pub fn banner_text(r: GameResult) -> (t: String)
    requires
        !(r is InProgress),
        r matches GameResult::Won(m) ==> !(m is Empty),
    ensures
        t@ == banner_chars(r),
{
    match r {
        GameResult::Won(m) => {
            proof {
                reveal_strlit("Player ");
                reveal_strlit(" won");
            }
            let mut t = String::from_str("Player ");
            t.append(mark_str(m));
            t.append(" won");
            proof {
                assert(t@ =~= banner_chars(r));
            }
            t
        },
        _ => {
            proof {
                reveal_strlit("It's a Tie");
            }
            let t = String::from_str("It's a Tie");
            proof {
                assert(t@ =~= banner_chars(r));
            }
            t
        },
    }
}

/// The board as three lines of text, one per row, reading left to right
/// and top to bottom.
pub fn board_text(board: &Board) -> (t: String)
    requires
        board.wf(),
    ensures
        t@ == board_chars(board@),
{
    proof {
        reveal_strlit("\n");
    }
    let mut t = String::new();
    let mut row: usize = 0;
    while row < 3
        invariant
            board.wf(),
            row <= 3,
            "\n"@ == seq!['\n'],
            t@ == board_rows_upto(board@, row as int),
        decreases 3 - row,
    {
        t.append(mark_str(board.get(0, row)));
        t.append(mark_str(board.get(1, row)));
        t.append(mark_str(board.get(2, row)));
        t.append("\n");
        proof {
            assert(t@ =~= board_rows_upto(board@, row as int + 1));
        }
        row = row + 1;
    }
    proof {
        reveal_with_fuel(board_rows_upto, 4);
        assert(board_chars(board@) =~= board_rows_upto(board@, 3));
    }
    t
}

/// The first `n` printed rows of the board, the prefix the printing loop
/// has built so far.
pub open spec fn board_rows_upto(g: Seq<Mark>, n: int) -> Seq<char>
    decreases n,
{
    if n <= 0 {
        Seq::empty()
    } else {
        board_rows_upto(g, n - 1) + row_chars(g, n - 1)
    }
}

} // verus!
