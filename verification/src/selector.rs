//! The automated opponent: a one-ply lookahead heuristic that takes an
//! immediate win, else blocks an immediate threat, else takes the center,
//! else the first open cell.

use vstd::prelude::*;
use crate::board::{Board, Cell, PlayerPiece, cell_open, is_open, first_open_square};
use crate::outcome::{Outcome, winner_of, check_if_gameover};

verus! {

/// Some cell is open.
pub open spec fn has_open(b: Seq<Cell>) -> bool {
    exists|i: int| 0 <= i < 9 && cell_open(b, i)
}

/// `i` is the lowest-index open cell.
pub open spec fn first_open(b: Seq<Cell>, i: int) -> bool {
    &&& 0 <= i < 9
    &&& cell_open(b, i)
    &&& forall|j: int| 0 <= j < i ==> !cell_open(b, j)
}

/// Placing `p` into the open cell `i` makes `p` the winner.
pub open spec fn winning_cell(b: Seq<Cell>, p: PlayerPiece, i: int) -> bool {
    &&& cell_open(b, i)
    &&& winner_of(b.update(i, Cell::Piece(p))) == Some(p)
}

/// Some open cell is an immediate win for `p`.
pub open spec fn can_win(b: Seq<Cell>, p: PlayerPiece) -> bool {
    exists|i: int| 0 <= i < 9 && winning_cell(b, p, i)
}

/// `i` is the lowest-index immediate win for `p`.
pub open spec fn first_winning_cell(b: Seq<Cell>, p: PlayerPiece, i: int) -> bool {
    &&& 0 <= i < 9
    &&& winning_cell(b, p, i)
    &&& forall|j: int| 0 <= j < i ==> !winning_cell(b, p, j)
}

/// The heuristic's choice: the first immediate win for `my`, else the
/// first immediate win for `their` (a block), else the center, else the
/// first open cell.
pub open spec fn selected_square(b: Seq<Cell>, my: PlayerPiece, their: PlayerPiece, i: int) -> bool {
    if can_win(b, my) {
        first_winning_cell(b, my, i)
    } else if can_win(b, their) {
        first_winning_cell(b, their, i)
    } else if cell_open(b, 4) {
        i == 4
    } else {
        first_open(b, i)
    }
}

/// True iff placing `p` into the open cell `square` would win the game
/// for `p`, judged by evaluating the hypothetical board.
fn is_winning_cell(board: &Board, p: PlayerPiece, square: usize) -> (r: bool)
    requires
        board.wf(),
        square < 9,
    ensures
        r == winning_cell(board@, p, square as int),
{
    if is_open(board, square) {
        let trial = board.with_move(square, p);
        check_if_gameover(&trial) == Outcome::Won(p)
    } else {
        false
    }
}

/// Pick a cell for the automated opponent holding `my_piece`, against the
/// opponent holding `their_piece`. Scans open cells in ascending order:
/// first an immediate win, else a block of the opponent's immediate win,
/// else the center, else the first open cell; with no open cell, no move.
pub fn computer_move(board: &Board, my_piece: PlayerPiece, their_piece: PlayerPiece) -> (r: Option<
    usize,
>)
    requires
        board.wf(),
    ensures
        (match r {
            Some(i) => i < 9 && cell_open(board@, i as int) && selected_square(
                board@,
                my_piece,
                their_piece,
                i as int,
            ),
            None => !has_open(board@),
        }),
        r is None <==> !has_open(board@),
        can_win(board@, my_piece) ==> (r matches Some(i) && winning_cell(
            board@,
            my_piece,
            i as int,
        )),
        (!can_win(board@, my_piece) && can_win(board@, their_piece)) ==> (r matches Some(i)
            && winning_cell(board@, their_piece, i as int)),
{
    let mut i: usize = 0;
    while i < 9
        invariant
            board.wf(),
            i <= 9,
            forall|j: int| 0 <= j < i ==> !winning_cell(board@, my_piece, j),
        decreases 9 - i,
    {
        if is_winning_cell(board, my_piece, i) {
            return Some(i);
        }
        i = i + 1;
    }
    let mut i: usize = 0;
    while i < 9
        invariant
            board.wf(),
            i <= 9,
            !can_win(board@, my_piece),
            forall|j: int| 0 <= j < i ==> !winning_cell(board@, their_piece, j),
        decreases 9 - i,
    {
        if is_winning_cell(board, their_piece, i) {
            return Some(i);
        }
        i = i + 1;
    }
    if is_open(board, 4) {
        return Some(4);
    }
    first_open_square(board)
}

} // verus!
