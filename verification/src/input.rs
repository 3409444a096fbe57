//! Validation of the human's typed choices. The I/O collaborator reads a
//! line, trims it, and hands the bytes here; these functions decide what
//! the bytes mean, and reject anything else so the caller can re-prompt.

use vstd::prelude::*;
use crate::board::{Board, PlayerPiece, cell_open, is_open};
use crate::game::PlayerType;

verus! {

/// The bytes are one or more decimal digits.
pub open spec fn is_digits(s: Seq<u8>) -> bool {
    s.len() > 0 && forall|i: int| 0 <= i < s.len() ==> 48 <= #[trigger] s[i] <= 57
}

/// The number the digits spell in decimal.
pub open spec fn dec_val(s: Seq<u8>) -> int
    decreases s.len(),
{
    if s.len() == 0 {
        0
    } else {
        dec_val(s.drop_last()) * 10 + (s.last() - 48)
    }
}

/// The menu answer picking which participant moves first: "1" is the
/// human, "2" the automated opponent, anything else is rejected.
pub fn parse_turn_choice(input: &Vec<u8>) -> (r: Option<PlayerType>)
    ensures
        r == (if input@ == seq![49u8] {
            Some(PlayerType::Player)
        } else if input@ == seq![50u8] {
            Some(PlayerType::Computer)
        } else {
            None::<PlayerType>
        }),
{
    if input.len() == 1 && input[0] == 49u8 {
        proof {
            assert(input@ =~= seq![49u8]);
        }
        Some(PlayerType::Player)
    } else if input.len() == 1 && input[0] == 50u8 {
        proof {
            assert(input@ =~= seq![50u8]);
        }
        Some(PlayerType::Computer)
    } else {
        None
    }
}

/// The menu answer picking the human's mark: "1" is X, "2" is O,
/// anything else is rejected.
pub fn parse_piece_choice(input: &Vec<u8>) -> (r: Option<PlayerPiece>)
    ensures
        r == (if input@ == seq![49u8] {
            Some(PlayerPiece::X)
        } else if input@ == seq![50u8] {
            Some(PlayerPiece::O)
        } else {
            None::<PlayerPiece>
        }),
{
    if input.len() == 1 && input[0] == 49u8 {
        proof {
            assert(input@ =~= seq![49u8]);
        }
        Some(PlayerPiece::X)
    } else if input.len() == 1 && input[0] == 50u8 {
        proof {
            assert(input@ =~= seq![50u8]);
        }
        Some(PlayerPiece::O)
    } else {
        None
    }
}

/// The menu answer after a finished game: "1" plays again, "2" stops,
/// anything else is rejected.
pub fn parse_play_again(input: &Vec<u8>) -> (r: Option<bool>)
    ensures
        r == (if input@ == seq![49u8] {
            Some(true)
        } else if input@ == seq![50u8] {
            Some(false)
        } else {
            None::<bool>
        }),
{
    if input.len() == 1 && input[0] == 49u8 {
        proof {
            assert(input@ =~= seq![49u8]);
        }
        Some(true)
    } else if input.len() == 1 && input[0] == 50u8 {
        proof {
            assert(input@ =~= seq![50u8]);
        }
        Some(false)
    } else {
        None
    }
}

/// The human's move: the bytes must spell a decimal number from 1 to 9
/// naming an open cell. Accepted, the 1-based number becomes the 0-based
/// cell index; anything else is rejected so the caller can re-prompt.
pub fn parse_move(input: &Vec<u8>, board: &Board) -> (r: Option<usize>)
    requires
        board.wf(),
    ensures
        r == (if is_digits(input@) && 1 <= dec_val(input@) <= 9 && cell_open(
            board@,
            dec_val(input@) - 1,
        ) {
            Some((dec_val(input@) - 1) as usize)
        } else {
            None::<usize>
        }),
{
    if input.len() == 0 {
        return None;
    }
    let ghost s = input@;
    let mut val: usize = 0;
    let mut i: usize = 0;
    while i < input.len()
        invariant
            input@ == s,
            i <= s.len(),
            val <= 10,
            forall|j: int| 0 <= j < i ==> 48 <= #[trigger] s[j] <= 57,
            (if dec_val(s.subrange(0, i as int)) <= 9 {
                val == dec_val(s.subrange(0, i as int))
            } else {
                val == 10
            }),
        decreases s.len() - i,
    {
        let c = input[i];
        if c < 48 || c > 57 {
            return None;
        }
        let d = (c - 48) as usize;
        let v = val * 10 + d;
        proof {
            assert(s.subrange(0, i + 1 as int).drop_last() =~= s.subrange(0, i as int));
            assert(s.subrange(0, i + 1 as int).last() == s[i as int]);
        }
        val = if v > 9 {
            10
        } else {
            v
        };
        i = i + 1;
    }
    proof {
        assert(s.subrange(0, s.len() as int) =~= s);
    }
    if 1 <= val && val <= 9 {
        if is_open(board, val - 1) {
            Some(val - 1)
        } else {
            None
        }
    } else {
        None
    }
}

} // verus!
