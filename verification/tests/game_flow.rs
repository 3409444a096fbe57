use tic_tac_toe::board::{fill_square, is_open, Board, PlayerPiece};
use tic_tac_toe::game::{Game, GameState, PlayerType};
use tic_tac_toe::input::{parse_move, parse_piece_choice, parse_play_again, parse_turn_choice};
use tic_tac_toe::outcome::{check_if_gameover, Outcome};
use tic_tac_toe::selector::computer_move;

#[test]
fn new_game_initial_state() {
    let g = Game::new(PlayerType::Player, PlayerPiece::X);
    assert_eq!(g.turn, PlayerType::Player);
    assert_eq!(g.player_piece, PlayerPiece::X);
    assert_eq!(g.computer_piece, PlayerPiece::O);
    assert_eq!(g.moves, 0);
    assert_eq!(g.state, GameState::Playing);
    assert_eq!(g.winner, None);
    for i in 0..9 {
        assert!(is_open(&g.board, i));
    }
}

#[test]
fn opening_exchange_from_center() {
    // Human holds X and opens in the center (1-based cell 5, index 4).
    let mut g = Game::new(PlayerType::Player, PlayerPiece::X);
    g.human_step(4);
    assert_eq!(g.moves, 1);
    assert_eq!(g.state, GameState::Playing);
    assert_eq!(g.turn, PlayerType::Computer);
    // The automated opponent must pick some open cell, never "none".
    let pick = computer_move(&g.board, g.computer_piece, g.player_piece);
    assert!(pick.is_some());
    assert!(is_open(&g.board, pick.unwrap()));
    g.computer_step();
    assert_eq!(g.moves, 2);
    assert_eq!(g.turn, PlayerType::Player);
    assert_eq!(g.state, GameState::Playing);
}

#[test]
fn center_and_corners_win_at_move_seven() {
    // X takes the center and the corners at 1-based positions 1, 3, 7
    // (indices 0, 2, 6); the seventh placement completes the 2,4,6
    // diagonal and the evaluator reports the win exactly then.
    let mut b = Board::new();
    let plays: [(usize, PlayerPiece); 7] = [
        (4, PlayerPiece::X),
        (1, PlayerPiece::O),
        (0, PlayerPiece::X),
        (5, PlayerPiece::O),
        (2, PlayerPiece::X),
        (7, PlayerPiece::O),
        (6, PlayerPiece::X),
    ];
    for (count, &(square, piece)) in plays.iter().enumerate() {
        assert_eq!(check_if_gameover(&b), Outcome::Ongoing, "before move {}", count + 1);
        fill_square(&mut b, square, piece);
    }
    assert_eq!(check_if_gameover(&b), Outcome::Won(PlayerPiece::X));
}

#[test]
fn nine_move_sequence_ends_drawn() {
    // A fully specified 9-move game with no three-in-a-row: every prefix
    // is still ongoing and the ninth placement yields a draw.
    let mut b = Board::new();
    let plays: [(usize, PlayerPiece); 9] = [
        (0, PlayerPiece::X),
        (1, PlayerPiece::O),
        (2, PlayerPiece::X),
        (5, PlayerPiece::O),
        (3, PlayerPiece::X),
        (6, PlayerPiece::O),
        (4, PlayerPiece::X),
        (8, PlayerPiece::O),
        (7, PlayerPiece::X),
    ];
    for &(square, piece) in plays.iter() {
        assert_eq!(check_if_gameover(&b), Outcome::Ongoing);
        fill_square(&mut b, square, piece);
    }
    assert_eq!(check_if_gameover(&b), Outcome::Drawn);
}

#[test]
fn full_game_draw_against_computer() {
    // Human X opens in the center and blocks every threat; the game runs
    // to a full board and ends in a tie after nine placements.
    let mut g = Game::new(PlayerType::Player, PlayerPiece::X);
    for &square in [4usize, 2, 3, 1, 8].iter() {
        g.human_step(square);
        if g.state == GameState::Playing {
            g.computer_step();
        }
    }
    assert_eq!(g.state, GameState::Ended);
    assert_eq!(g.winner, None);
    assert_eq!(g.moves, 9);
}

#[test]
fn full_game_computer_win() {
    // A careless human lets the opponent line up 0,4,8: the opponent
    // takes the win and the game records it.
    let mut g = Game::new(PlayerType::Player, PlayerPiece::X);
    for &square in [1usize, 2, 5].iter() {
        g.human_step(square);
        if g.state == GameState::Playing {
            g.computer_step();
        }
    }
    assert_eq!(g.state, GameState::Ended);
    assert_eq!(g.winner, Some(PlayerPiece::O));
    assert_eq!(g.moves, 6);
}

#[test]
fn parse_move_accepts_open_cells() {
    let b = Board::new();
    assert_eq!(parse_move(&b"1".to_vec(), &b), Some(0));
    assert_eq!(parse_move(&b"5".to_vec(), &b), Some(4));
    assert_eq!(parse_move(&b"9".to_vec(), &b), Some(8));
    assert_eq!(parse_move(&b"05".to_vec(), &b), Some(4));
}

#[test]
fn parse_move_rejects_bad_input() {
    let mut b = Board::new();
    assert_eq!(parse_move(&b"0".to_vec(), &b), None);
    assert_eq!(parse_move(&b"10".to_vec(), &b), None);
    assert_eq!(parse_move(&b"".to_vec(), &b), None);
    assert_eq!(parse_move(&b"x".to_vec(), &b), None);
    assert_eq!(parse_move(&b"5x".to_vec(), &b), None);
    assert_eq!(parse_move(&b"-3".to_vec(), &b), None);
    fill_square(&mut b, 4, PlayerPiece::O);
    assert_eq!(parse_move(&b"5".to_vec(), &b), None);
    assert_eq!(parse_move(&b"6".to_vec(), &b), Some(5));
}

#[test]
fn parse_menu_choices() {
    assert_eq!(parse_turn_choice(&b"1".to_vec()), Some(PlayerType::Player));
    assert_eq!(parse_turn_choice(&b"2".to_vec()), Some(PlayerType::Computer));
    assert_eq!(parse_turn_choice(&b"3".to_vec()), None);
    assert_eq!(parse_turn_choice(&b"12".to_vec()), None);
    assert_eq!(parse_piece_choice(&b"1".to_vec()), Some(PlayerPiece::X));
    assert_eq!(parse_piece_choice(&b"2".to_vec()), Some(PlayerPiece::O));
    assert_eq!(parse_piece_choice(&b"".to_vec()), None);
    assert_eq!(parse_play_again(&b"1".to_vec()), Some(true));
    assert_eq!(parse_play_again(&b"2".to_vec()), Some(false));
    assert_eq!(parse_play_again(&b"yes".to_vec()), None);
}
