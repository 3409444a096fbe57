//! Turn sequencing: whose move it is, applying moves, and ending the game.

use vstd::prelude::*;
use crate::board::{Board, Cell, PlayerPiece, cell_open, fill_square, other_piece, opposite_piece};
use crate::outcome::{Outcome, board_full, check_if_gameover, outcome_of};
use crate::selector::{computer_move, has_open, selected_square};

verus! {

/// The two kinds of participant.
#[derive(Clone, Copy, PartialEq, Eq, Structural, Debug)]
pub enum PlayerType {
    Player,
    Computer,
}

/// Whether a game is still being played.
#[derive(Clone, Copy, PartialEq, Eq, Structural, Debug)]
pub enum GameState {
    Playing,
    Ended,
}

/// How many of the first `n` cells already hold a mark.
pub open spec fn filled_count(b: Seq<Cell>, n: int) -> int
    decreases n,
{
    if n <= 0 {
        0
    } else {
        filled_count(b, n - 1) + if cell_open(b, n - 1) {
            0int
        } else {
            1int
        }
    }
}

proof fn lemma_filled_count_bound(b: Seq<Cell>, n: int)
    requires
        0 <= n,
    ensures
        0 <= filled_count(b, n) <= n,
    decreases n,
{
    if n > 0 {
        lemma_filled_count_bound(b, n - 1);
    }
}

proof fn lemma_filled_count_all_open(b: Seq<Cell>, n: int)
    requires
        0 <= n,
        forall|i: int| 0 <= i < n ==> cell_open(b, i),
    ensures
        filled_count(b, n) == 0,
    decreases n,
{
    if n > 0 {
        lemma_filled_count_all_open(b, n - 1);
    }
}

proof fn lemma_filled_count_update(b: Seq<Cell>, i: int, p: PlayerPiece, n: int)
    requires
        0 <= i < b.len(),
        cell_open(b, i),
        0 <= n <= b.len(),
    ensures
        filled_count(b.update(i, Cell::Piece(p)), n) == filled_count(b, n) + (if i < n {
            1int
        } else {
            0int
        }),
    decreases n,
{
    if n > 0 {
        lemma_filled_count_update(b, i, p, n - 1);
    }
}

/// One game in progress: the board, the fixed mark assignment, whose
/// turn it is, how many marks have been placed, and—once the evaluator
/// reports a terminal result—the recorded winner.
pub struct Game {
    pub board: Board,
    pub turn: PlayerType,
    pub player_piece: PlayerPiece,
    pub computer_piece: PlayerPiece,
    pub moves: usize,
    pub state: GameState,
    pub winner: Option<PlayerPiece>,
}

impl Game {
    /// The stored phase and winner agree with what the evaluator reports
    /// of the current board.
    pub open spec fn reflects_outcome(self) -> bool {
        match outcome_of(self.board@) {
            Outcome::Ongoing => self.state is Playing && self.winner is None,
            Outcome::Won(p) => self.state is Ended && self.winner == Some(p),
            Outcome::Drawn => self.state is Ended && self.winner is None,
        }
    }

    /// Well-formed game: a 9-cell board, complementary marks, a move
    /// counter equal to the number of placed marks, and a phase and
    /// winner that agree with the evaluator.
    pub open spec fn wf(self) -> bool {
        &&& self.board.wf()
        &&& self.computer_piece == other_piece(self.player_piece)
        &&& self.moves == filled_count(self.board@, 9)
        &&& self.reflects_outcome()
    }

    /// Start a game: an all-open board, the chosen starting participant,
    /// and the human's chosen mark, with the automated opponent holding
    /// the complement.
    pub fn new(first: PlayerType, human_piece: PlayerPiece) -> (g: Game)
        ensures
            g.wf(),
            forall|i: int| 0 <= i < 9 ==> cell_open(g.board@, i),
            g.turn == first,
            g.player_piece == human_piece,
            g.computer_piece == other_piece(human_piece),
            g.moves == 0,
            g.state is Playing,
            g.winner is None,
    {
        let board = Board::new();
        proof {
            assert(cell_open(board@, 0));
            assert(cell_open(board@, 1));
            assert(cell_open(board@, 2));
            assert(cell_open(board@, 3));
            assert(cell_open(board@, 4));
            assert(cell_open(board@, 5));
            assert(cell_open(board@, 6));
            assert(cell_open(board@, 7));
            assert(cell_open(board@, 8));
            lemma_filled_count_all_open(board@, 9);
        }
        Game {
            board,
            turn: first,
            player_piece: human_piece,
            computer_piece: opposite_piece(human_piece),
            moves: 0,
            state: GameState::Playing,
            winner: None,
        }
    }

    /// Re-evaluate the board and record the phase and winner it implies.
    fn refresh_outcome(&mut self)
        requires
            old(self).board.wf(),
        ensures
            final(self).board == old(self).board,
            final(self).turn == old(self).turn,
            final(self).player_piece == old(self).player_piece,
            final(self).computer_piece == old(self).computer_piece,
            final(self).moves == old(self).moves,
            final(self).reflects_outcome(),
    {
        let result = check_if_gameover(&self.board);
        match result {
            Outcome::Ongoing => {
                self.state = GameState::Playing;
                self.winner = None;
            },
            Outcome::Won(p) => {
                self.state = GameState::Ended;
                self.winner = Some(p);
            },
            Outcome::Drawn => {
                self.state = GameState::Ended;
                self.winner = None;
            },
        }
    }

    /// The human places their mark into an open cell; the turn passes to
    /// the automated opponent and the board is re-evaluated. The caller
    /// (the input collaborator) guarantees the cell is open and in range.
    pub fn human_step(&mut self, square: usize)
        requires
            old(self).wf(),
            old(self).state is Playing,
            old(self).turn is Player,
            square < 9,
            cell_open(old(self).board@, square as int),
        ensures
            final(self).wf(),
            final(self).board@ == old(self).board@.update(
                square as int,
                Cell::Piece(old(self).player_piece),
            ),
            final(self).turn is Computer,
            final(self).moves == old(self).moves + 1,
            final(self).player_piece == old(self).player_piece,
            final(self).computer_piece == old(self).computer_piece,
    {
        proof {
            lemma_filled_count_bound(old(self).board@, 9);
            lemma_filled_count_update(
                old(self).board@,
                square as int,
                old(self).player_piece,
                9,
            );
        }
        let p = self.player_piece;
        fill_square(&mut self.board, square, p);
        self.moves = self.moves + 1;
        self.turn = PlayerType::Computer;
        self.refresh_outcome();
    }

    /// The automated opponent picks a cell with the one-ply heuristic and
    /// places its mark there; the turn passes back to the human and the
    /// board is re-evaluated. An ongoing game always has an open cell, so
    /// a mark is always placed.
    pub fn computer_step(&mut self)
        requires
            old(self).wf(),
            old(self).state is Playing,
            old(self).turn is Computer,
        ensures
            final(self).wf(),
            exists|i: int|
                0 <= i < 9 && cell_open(old(self).board@, i) && selected_square(
                    old(self).board@,
                    old(self).computer_piece,
                    old(self).player_piece,
                    i,
                ) && final(self).board@ == old(self).board@.update(
                    i,
                    Cell::Piece(old(self).computer_piece),
                ),
            final(self).turn is Player,
            final(self).moves == old(self).moves + 1,
            final(self).player_piece == old(self).player_piece,
            final(self).computer_piece == old(self).computer_piece,
    {
        proof {
            lemma_filled_count_bound(old(self).board@, 9);
            assert(!board_full(self.board@));
            assert(has_open(self.board@));
        }
        let my = self.computer_piece;
        let their = self.player_piece;
        let choice = computer_move(&self.board, my, their);
        let square = choice.unwrap();
        proof {
            lemma_filled_count_update(self.board@, square as int, my, 9);
        }
        fill_square(&mut self.board, square, my);
        self.moves = self.moves + 1;
        self.turn = PlayerType::Player;
        self.refresh_outcome();
    }
}

} // verus!
