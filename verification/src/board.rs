//! The 9-cell grid: marks, cells, placement and openness queries.

use vstd::prelude::*;

verus! {

/// One of the two symbols a participant places on the board.
#[derive(Clone, Copy, PartialEq, Eq, Structural, Debug)]
pub enum PlayerPiece {
    X,
    O,
}

/// The complement of a mark: the symbol the other participant plays.
pub open spec fn other_piece(p: PlayerPiece) -> PlayerPiece {
    match p {
        PlayerPiece::X => PlayerPiece::O,
        PlayerPiece::O => PlayerPiece::X,
    }
}

/// Executable complement of a mark.
pub fn opposite_piece(p: PlayerPiece) -> (r: PlayerPiece)
    ensures
        r == other_piece(p),
{
    match p {
        PlayerPiece::X => PlayerPiece::O,
        PlayerPiece::O => PlayerPiece::X,
    }
}

/// The character a mark shows as on the rendered grid.
pub open spec fn piece_char(p: PlayerPiece) -> char {
    match p {
        PlayerPiece::X => 'X',
        PlayerPiece::O => 'O',
    }
}

/// Rendering a mark in isolation: the grid symbol for the mark.
pub fn piece_to_char(p: PlayerPiece) -> (c: char)
    ensures
        c == piece_char(p),
{
    match p {
        PlayerPiece::X => 'X',
        PlayerPiece::O => 'O',
    }
}

/// Reading a mark back from its grid symbol; anything but 'X' reads as 'O'.
pub fn piece_from_char(c: char) -> (p: PlayerPiece)
    ensures
        p == (if c == 'X' {
            PlayerPiece::X
        } else {
            PlayerPiece::O
        }),
{
    if c == 'X' {
        PlayerPiece::X
    } else {
        PlayerPiece::O
    }
}

/// One board position: empty, or holding a mark that never changes again.
#[derive(Clone, Copy, PartialEq, Eq, Structural, Debug)]
pub enum Cell {
    Empty,
    Piece(PlayerPiece),
}

/// A cell is open when no mark has been placed in it.
pub open spec fn cell_open(b: Seq<Cell>, i: int) -> bool {
    b[i] is Empty
}

/// The 3x3 grid, row-major: cells 0,1,2 on top, 3,4,5 in the middle,
/// 6,7,8 at the bottom.
pub struct Board {
    cells: Vec<Cell>,
}

impl View for Board {
    type V = Seq<Cell>;

    closed spec fn view(&self) -> Seq<Cell> {
        self.cells@
    }
}

impl Board {
    /// A board always holds exactly 9 cells.
    pub open spec fn wf(&self) -> bool {
        self@.len() == 9
    }

    /// A fresh board: every cell open.
    pub fn new() -> (b: Board)
        ensures
            b.wf(),
            forall|i: int| 0 <= i < 9 ==> cell_open(b@, i),
    {
        let mut cells: Vec<Cell> = Vec::new();
        let mut i: usize = 0;
        while i < 9
            invariant
                i <= 9,
                cells@.len() == i,
                forall|j: int| 0 <= j < i ==> cells@[j] is Empty,
            decreases 9 - i,
        {
            cells.push(Cell::Empty);
            i = i + 1;
        }
        Board { cells }
    }

    /// Read one cell.
    pub fn cell(&self, square: usize) -> (c: Cell)
        requires
            self.wf(),
            square < 9,
        ensures
            c == self@[square as int],
    {
        self.cells[square]
    }

    /// A copy of the board with one mark placed, leaving this board as it was.
    pub fn with_move(&self, square: usize, piece: PlayerPiece) -> (b: Board)
        requires
            self.wf(),
            square < 9,
        ensures
            b.wf(),
            b@ == self@.update(square as int, Cell::Piece(piece)),
    {
        let mut cells: Vec<Cell> = Vec::new();
        let mut i: usize = 0;
        while i < 9
            invariant
                self.wf(),
                i <= 9,
                cells@.len() == i,
                forall|j: int| 0 <= j < i ==> cells@[j] == self@[j],
            decreases 9 - i,
        {
            cells.push(self.cells[i]);
            i = i + 1;
        }
        cells[square] = Cell::Piece(piece);
        let b = Board { cells };
        proof {
            assert(b@ =~= self@.update(square as int, Cell::Piece(piece)));
        }
        b
    }
}

/// The 1-based position label a cell shows while it is open.
pub open spec fn cell_label(i: int) -> char {
    if i == 0 {
        '1'
    } else if i == 1 {
        '2'
    } else if i == 2 {
        '3'
    } else if i == 3 {
        '4'
    } else if i == 4 {
        '5'
    } else if i == 5 {
        '6'
    } else if i == 6 {
        '7'
    } else if i == 7 {
        '8'
    } else {
        '9'
    }
}

/// What the grid shows at position `i`: the placed mark, or the cell's
/// 1-based position label while the cell is open.
pub open spec fn display_char_spec(b: Seq<Cell>, i: int) -> char {
    match b[i] {
        Cell::Empty => cell_label(i),
        Cell::Piece(p) => piece_char(p),
    }
}

/// The character the rendered grid shows for one cell.
pub fn display_char(board: &Board, square: usize) -> (c: char)
    requires
        board.wf(),
        square < 9,
    ensures
        c == display_char_spec(board@, square as int),
{
    match board.cells[square] {
        Cell::Piece(p) => piece_to_char(p),
        Cell::Empty => {
            if square == 0 {
                '1'
            } else if square == 1 {
                '2'
            } else if square == 2 {
                '3'
            } else if square == 3 {
                '4'
            } else if square == 4 {
                '5'
            } else if square == 5 {
                '6'
            } else if square == 6 {
                '7'
            } else if square == 7 {
                '8'
            } else {
                '9'
            }
        },
    }
}

/// True iff the cell at `square` is open. The caller supplies a valid
/// 0-based index; out-of-range is the caller's error, not checked here.
pub fn is_open(board: &Board, square: usize) -> (r: bool)
    requires
        board.wf(),
        square < 9,
    ensures
        r == cell_open(board@, square as int),
{
    board.cells[square] == Cell::Empty
}

/// Place a mark into an open cell; every other cell is untouched.
pub fn fill_square(board: &mut Board, square: usize, piece: PlayerPiece)
    requires
        old(board).wf(),
        square < 9,
        cell_open(old(board)@, square as int),
    ensures
        final(board).wf(),
        final(board)@ == old(board)@.update(square as int, Cell::Piece(piece)),
{
    board.cells[square] = Cell::Piece(piece);
}

/// The lowest-index open cell, or nothing when the board is full.
pub fn first_open_square(board: &Board) -> (r: Option<usize>)
    requires
        board.wf(),
    ensures
        (match r {
            Some(i) => i < 9 && cell_open(board@, i as int) && forall|j: int|
                0 <= j < i ==> !cell_open(board@, j),
            None => forall|j: int| 0 <= j < 9 ==> !cell_open(board@, j),
        }),
{
    let mut i: usize = 0;
    while i < 9
        invariant
            board.wf(),
            i <= 9,
            forall|j: int| 0 <= j < i ==> !cell_open(board@, j),
        decreases 9 - i,
    {
        if is_open(board, i) {
            return Some(i);
        }
        i = i + 1;
    }
    None
}

/// A placed mark closes its cell: after placing into cell `i`, that cell
/// is no longer open.
pub proof fn lemma_place_closes_cell(b: Seq<Cell>, i: int, p: PlayerPiece)
    requires
        b.len() == 9,
        0 <= i < 9,
    ensures
        !cell_open(b.update(i, Cell::Piece(p)), i),
{
}

} // verus!
