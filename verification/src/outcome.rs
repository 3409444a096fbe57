//! Win and draw detection: the 8 winning lines, scanned in a fixed order.

use vstd::prelude::*;
use crate::board::{Board, Cell, PlayerPiece, cell_open, first_open_square};

verus! {

/// The result of inspecting a board snapshot.
#[derive(Clone, Copy, PartialEq, Eq, Structural, Debug)]
pub enum Outcome {
    Ongoing,
    Won(PlayerPiece),
    Drawn,
}

/// Three cells all hold the mark `p`.
pub open spec fn line_owned(b: Seq<Cell>, i: int, j: int, k: int, p: PlayerPiece) -> bool {
    b[i] == Cell::Piece(p) && b[j] == Cell::Piece(p) && b[k] == Cell::Piece(p)
}

/// The mark that owns the whole line, if one does.
pub open spec fn line_owner(b: Seq<Cell>, i: int, j: int, k: int) -> Option<PlayerPiece> {
    if line_owned(b, i, j, k, PlayerPiece::X) {
        Some(PlayerPiece::X)
    } else if line_owned(b, i, j, k, PlayerPiece::O) {
        Some(PlayerPiece::O)
    } else {
        None
    }
}

/// The 8 winning lines in their fixed scan order: the 3 rows, then the
/// 3 columns, then the 2 diagonals.
pub open spec fn win_line(n: int) -> (int, int, int) {
    if n == 0 {
        (0int, 1int, 2int)
    } else if n == 1 {
        (3int, 4int, 5int)
    } else if n == 2 {
        (6int, 7int, 8int)
    } else if n == 3 {
        (0int, 3int, 6int)
    } else if n == 4 {
        (1int, 4int, 7int)
    } else if n == 5 {
        (2int, 5int, 8int)
    } else if n == 6 {
        (0int, 4int, 8int)
    } else {
        (2int, 4int, 6int)
    }
}

/// The mark that owns winning line number `n`, if one does.
pub open spec fn line_owner_n(b: Seq<Cell>, n: int) -> Option<PlayerPiece> {
    line_owner(b, win_line(n).0, win_line(n).1, win_line(n).2)
}

/// The owner of the first winning line in scan order, if any line is won.
pub open spec fn winner_of(b: Seq<Cell>) -> Option<PlayerPiece> {
    if line_owner_n(b, 0) is Some {
        line_owner_n(b, 0)
    } else if line_owner_n(b, 1) is Some {
        line_owner_n(b, 1)
    } else if line_owner_n(b, 2) is Some {
        line_owner_n(b, 2)
    } else if line_owner_n(b, 3) is Some {
        line_owner_n(b, 3)
    } else if line_owner_n(b, 4) is Some {
        line_owner_n(b, 4)
    } else if line_owner_n(b, 5) is Some {
        line_owner_n(b, 5)
    } else if line_owner_n(b, 6) is Some {
        line_owner_n(b, 6)
    } else if line_owner_n(b, 7) is Some {
        line_owner_n(b, 7)
    } else {
        None
    }
}

/// Every cell holds a mark.
pub open spec fn board_full(b: Seq<Cell>) -> bool {
    forall|i: int| 0 <= i < 9 ==> !cell_open(b, i)
}

/// What the evaluator reports of a board: the first winning line's owner
/// wins; with no winner, a full board is a draw and anything else is an
/// ongoing game.
pub open spec fn outcome_of(b: Seq<Cell>) -> Outcome {
    match winner_of(b) {
        Some(p) => Outcome::Won(p),
        None => if board_full(b) {
            Outcome::Drawn
        } else {
            Outcome::Ongoing
        },
    }
}

/// The mark owning all of cells `i`, `j`, `k`, if the three agree.
fn line_winner(board: &Board, i: usize, j: usize, k: usize) -> (r: Option<PlayerPiece>)
    requires
        board.wf(),
        i < 9,
        j < 9,
        k < 9,
    ensures
        r == line_owner(board@, i as int, j as int, k as int),
{
    match board.cell(i) {
        Cell::Piece(p) => {
            if board.cell(j) == Cell::Piece(p) && board.cell(k) == Cell::Piece(p) {
                Some(p)
            } else {
                None
            }
        },
        Cell::Empty => None,
    }
}

/// Evaluate a board snapshot: scan the 8 winning lines in their fixed
/// order and report the first winner; with no winner, report a draw
/// exactly when the board is full, else an ongoing game.
pub fn check_if_gameover(board: &Board) -> (r: Outcome)
    requires
        board.wf(),
    ensures
        r == outcome_of(board@),
{
    if let Some(p) = line_winner(board, 0, 1, 2) {
        return Outcome::Won(p);
    }
    if let Some(p) = line_winner(board, 3, 4, 5) {
        return Outcome::Won(p);
    }
    if let Some(p) = line_winner(board, 6, 7, 8) {
        return Outcome::Won(p);
    }
    if let Some(p) = line_winner(board, 0, 3, 6) {
        return Outcome::Won(p);
    }
    if let Some(p) = line_winner(board, 1, 4, 7) {
        return Outcome::Won(p);
    }
    if let Some(p) = line_winner(board, 2, 5, 8) {
        return Outcome::Won(p);
    }
    if let Some(p) = line_winner(board, 0, 4, 8) {
        return Outcome::Won(p);
    }
    if let Some(p) = line_winner(board, 2, 4, 6) {
        return Outcome::Won(p);
    }
    match first_open_square(board) {
        Some(_) => Outcome::Ongoing,
        None => Outcome::Drawn,
    }
}

/// A winning line whose every earlier line in scan order is unowned
/// decides the game: the evaluator reports its owner as the winner.
pub proof fn lemma_first_winning_line(b: Seq<Cell>, n: int, p: PlayerPiece)
    requires
        b.len() == 9,
        0 <= n < 8,
        line_owner_n(b, n) == Some(p),
        forall|m: int| 0 <= m < n ==> line_owner_n(b, m) is None,
    ensures
        outcome_of(b) == Outcome::Won(p),
{
}

/// A full board with no winning line is a draw.
pub proof fn lemma_full_board_drawn(b: Seq<Cell>)
    requires
        b.len() == 9,
        board_full(b),
        forall|n: int| 0 <= n < 8 ==> line_owner_n(b, n) is None,
    ensures
        outcome_of(b) == Outcome::Drawn,
{
}

/// A board with an open cell and no winning line is an ongoing game.
pub proof fn lemma_open_board_ongoing(b: Seq<Cell>, i: int)
    requires
        b.len() == 9,
        0 <= i < 9,
        cell_open(b, i),
        forall|n: int| 0 <= n < 8 ==> line_owner_n(b, n) is None,
    ensures
        outcome_of(b) == Outcome::Ongoing,
{
}

} // verus!
