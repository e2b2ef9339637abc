use tic_tac_toe::game::{Player, TicTacToe};

fn play(moves: &[(usize, usize)]) -> TicTacToe {
    let mut game = TicTacToe::new();
    for &(row, col) in moves {
        game.make_move(row, col);
    }
    game
}

#[test]
fn status_shows_whose_turn_it_is() {
    let mut game = TicTacToe::new();
    assert_eq!(game.get_status_text(), "Current Player: X");
    game.make_move(0, 0);
    assert_eq!(game.get_status_text(), "Current Player: O");
    game.make_move(1, 1);
    assert_eq!(game.get_status_text(), "Current Player: X");
}

#[test]
fn status_announces_a_win_for_x() {
    let game = play(&[(0, 0), (1, 0), (0, 1), (1, 1), (0, 2)]);
    assert_eq!(game.get_status_text(), "Player X Wins!");
}

#[test]
fn status_announces_a_win_for_o() {
    let game = play(&[(0, 0), (0, 1), (0, 2), (1, 1), (2, 2), (2, 1)]);
    assert_eq!(game.winner(), Some(Player::O));
    assert_eq!(game.get_status_text(), "Player O Wins!");
}

#[test]
fn status_announces_a_draw() {
    let game = play(&[
        (0, 0),
        (0, 1),
        (0, 2),
        (1, 1),
        (1, 0),
        (1, 2),
        (2, 1),
        (2, 0),
        (2, 2),
    ]);
    assert!(game.is_over());
    assert_eq!(game.get_status_text(), "It's a Draw!");
}

#[test]
fn glyphs_render_blank_x_and_o() {
    let mut game = TicTacToe::new();
    assert_eq!(game.cell_glyph(2, 1), "");
    game.make_move(2, 1);
    game.make_move(0, 2);
    assert_eq!(game.cell_glyph(2, 1), "X");
    assert_eq!(game.cell_glyph(0, 2), "O");
    assert_eq!(game.cell_glyph(1, 1), "");
}
