//! The game session: turn counter, result, pending input, and the
//! per-tick evaluator that turns a recorded click into a move.

use vstd::prelude::*;
use crate::board::Board;
use crate::board::Mark;
use crate::board::cell_at;
use crate::board::idx;
use crate::board::lemma_marks_placed_all_empty;
use crate::board::lemma_marks_placed_update;
use crate::board::marks_placed;
use crate::board::check_win;
use crate::board::wins;
use crate::layout::click_cell;
use crate::layout::map_click;

verus! {

/// The two states of the session's scheduler gate: the evaluator acts only
/// while `Running`; once the game resolves, the session flips to `Paused`
/// for good.
#[derive(Clone, Copy, PartialEq, Eq, Structural, Debug, Hash)]
pub enum GameState {
    Running,
    Paused,
}

/// How the game stands: still open, won by a mark, or drawn.
#[derive(Clone, Copy, PartialEq, Eq, Structural, Debug)]
pub enum GameResult {
    InProgress,
    Won(Mark),
    Tie,
}

/// A screen position in window pixels, as the input sampler records it.
#[derive(Clone, Copy, PartialEq, Eq, Structural, Debug)]
pub struct ScreenPos {
    pub x: i32,
    pub y: i32,
}

/// An accepted move: which mark was placed, and into which cell.
#[derive(Clone, Copy, PartialEq, Eq, Structural, Debug)]
pub struct Placement {
    pub mark: Mark,
    pub col: u8,
    pub row: u8,
}

/// Whose mark the move on turn `turn` places: `X` on even turns, `O` on
/// odd ones.
pub open spec fn mover(turn: int) -> Mark {
    if turn % 2 == 0 {
        Mark::X
    } else {
        Mark::O
    }
}

/// The result after a move by `m` leaves the board at `g`, the turn
/// counter having stood at `turn_before`: a completed line wins, a ninth
/// move without one ties, and anything else leaves the game open.
pub open spec fn result_after(g: Seq<Mark>, m: Mark, turn_before: int) -> GameResult {
    if wins(g, m) {
        GameResult::Won(m)
    } else if turn_before == 8 {
        GameResult::Tie
    } else {
        GameResult::InProgress
    }
}

/// One full game: board, turn counter, result, scheduler gate, and the
/// pending click the input sampler last recorded.
pub struct Session {
    pub board: Board,
    pub turn: u32,
    pub result: GameResult,
    pub state: GameState,
    pub pending: Option<ScreenPos>,
}

impl Session {
    /// The session invariant: nine cells, exactly `turn` of them marked,
    /// at most nine turns, a running state exactly while the game is
    /// unresolved, no tenth move possible, and a winner always a real mark.
    pub open spec fn wf(self) -> bool {
        &&& self.board.wf()
        &&& self.turn <= 9
        &&& marks_placed(self.board@) == self.turn
        &&& (self.state is Running <==> self.result is InProgress)
        &&& (self.state is Running ==> self.turn < 9)
        &&& (self.result matches GameResult::Won(m) ==> !(m is Empty))
    }

    /// The pending click addresses an empty cell of the board, so the
    /// evaluator will accept it as a move.
    pub open spec fn accepts(self, w: int, h: int) -> bool {
        &&& self.state is Running
        &&& self.pending matches Some(p) && click_cell(w, h, p.x as int, p.y as int) matches Some(
            cr,
        ) && cell_at(self.board@, cr.0, cr.1) is Empty
    }

    /// The cell the pending click addresses; meaningful when `accepts`.
    pub open spec fn accepted_cell(self, w: int, h: int) -> (int, int) {
        click_cell(w, h, self.pending->0.x as int, self.pending->0.y as int)->0
    }

    /// A fresh session: empty board, turn zero, game open, no pending
    /// click.
    pub fn new() -> (s: Session)
        ensures
            s.wf(),
            s.turn == 0,
            s.result is InProgress,
            s.state is Running,
            s.pending is None,
            forall|i: int| 0 <= i < 9 ==> s.board@[i] is Empty,
    {
        let board = Board::new();
        proof {
            lemma_marks_placed_all_empty(board@);
        }
        Session { board, turn: 0, result: GameResult::InProgress, state: GameState::Running, pending: None }
    }

    /// Record a sampled pointer or touch position, overwriting any prior
    /// unconsumed one; nothing else of the session moves.
    pub fn record_input(&mut self, x: i32, y: i32)
        requires
            old(self).wf(),
        ensures
            final(self).wf(),
            final(self).pending == Some(ScreenPos { x, y }),
            final(self).board == old(self).board,
            final(self).turn == old(self).turn,
            final(self).result == old(self).result,
            final(self).state == old(self).state,
    {
        self.pending = Some(ScreenPos { x, y });
    }

    /// One evaluator tick in a `width` by `height` window.
    ///
    /// While the session is running, the pending click (if any) is
    /// consumed; a click on an empty board cell places the mark whose turn it is,
    /// advances the turn counter by one, and resolves the game when that
    /// mark completed a line, or when this ninth move filled the board.
    /// A click outside the board or on an occupied cell changes nothing
    /// but the consumed pending slot. While paused, nothing moves at all.
    pub fn tick(&mut self, width: u32, height: u32) -> (placed: Option<Placement>)
        requires
            old(self).wf(),
        ensures
            final(self).wf(),
            old(self).state is Paused ==> *final(self) == *old(self) && placed is None,
            old(self).state is Running ==> final(self).pending is None,
            !old(self).accepts(width as int, height as int) ==> placed is None
                && final(self).board == old(self).board && final(self).turn == old(self).turn
                && final(self).result == old(self).result && final(self).state == old(
                self,
            ).state,
            old(self).accepts(width as int, height as int) ==> ({
                let cr = old(self).accepted_cell(width as int, height as int);
                let m = mover(old(self).turn as int);
                &&& placed == Some(
                    Placement { mark: m, col: cr.0 as u8, row: cr.1 as u8 },
                )
                &&& final(self).board@ == old(self).board@.update(idx(cr.0, cr.1), m)
                &&& final(self).turn == old(self).turn + 1
                &&& final(self).result == result_after(
                    final(self).board@,
                    m,
                    old(self).turn as int,
                )
                &&& final(self).state == (if final(self).result is InProgress {
                    GameState::Running
                } else {
                    GameState::Paused
                })
            }),
    {
        if self.state == GameState::Paused {
            return None;
        }
        let pos = match self.pending {
            Some(p) => p,
            None => {
                return None;
            },
        };
        self.pending = None;
        let (col, row) = match map_click(width, height, pos.x, pos.y) {
            Some(cr) => cr,
            None => {
                return None;
            },
        };
        if self.board.get(col as usize, row as usize) != Mark::Empty {
            return None;
        }
        let mark = if self.turn % 2 == 0 {
            Mark::X
        } else {
            Mark::O
        };
        proof {
            lemma_marks_placed_update(self.board@, idx(col as int, row as int), mark);
        }
        self.board.set(col as usize, row as usize, mark);
        if check_win(&self.board, mark) {
            self.result = GameResult::Won(mark);
            self.state = GameState::Paused;
        } else if self.turn == 8 {
            self.result = GameResult::Tie;
            self.state = GameState::Paused;
        }
        self.turn = self.turn + 1;
        Some(Placement { mark, col, row })
    }
}

/// A ninth move that completes no line ties the game and never wins it:
/// whatever board `g` the move by `m` leaves, if no line of `m` is
/// complete, the result is `Tie`; and on any turn, a result of `Won` means
/// a complete line of `m`.
pub proof fn lemma_ninth_move_ties(g: Seq<Mark>, m: Mark, turn_before: int)
    ensures
        !wins(g, m) && turn_before == 8 ==> result_after(g, m, turn_before) == GameResult::Tie,
        !wins(g, m) ==> !(result_after(g, m, turn_before) is Won),
{
}

} // verus!
