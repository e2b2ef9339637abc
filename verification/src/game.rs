//! The game state: board, turn order, win and draw detection.
//!
//! The board is a flat vector of nine cells, indexed row-major: the cell at
//! `(row, col)` lives at index `3 * row + col`. The abstract model of a game
//! is [`GameView`]; every executable operation is specified against it.

use vstd::prelude::*;

verus! {

/// One of the two players, `X` or `O`. `X` moves first.
#[derive(Clone, Copy, Debug, PartialEq, Eq, Structural)]
pub enum Player {
    X,
    O,
}

/// One square of the board: empty, or occupied by a player's mark.
#[derive(Clone, Copy, Debug, PartialEq, Eq, Structural)]
pub enum Cell {
    Empty,
    Occupied(Player),
}

/// The player whose turn follows `p`'s.
pub open spec fn other_player(p: Player) -> Player {
    match p {
        Player::X => Player::O,
        Player::O => Player::X,
    }
}

/// Whether `(row, col)` names a cell of the 3x3 board.
pub open spec fn in_range(row: int, col: int) -> bool {
    0 <= row < 3 && 0 <= col < 3
}

/// The row-major index of the cell at `(row, col)`.
pub open spec fn cell_index(row: int, col: int) -> int {
    3 * row + col
}

/// Whether the cells at indices `i`, `j`, `k` all carry `p`'s mark.
pub open spec fn line_is(b: Seq<Cell>, p: Player, i: int, j: int, k: int) -> bool {
    b[i] == Cell::Occupied(p) && b[j] == Cell::Occupied(p) && b[k] == Cell::Occupied(p)
}

/// Whether `p` owns one of the eight winning lines: the three rows, the three
/// columns, the main diagonal, or the anti-diagonal.
pub open spec fn line_won(b: Seq<Cell>, p: Player) -> bool {
    ||| line_is(b, p, 0, 1, 2)
    ||| line_is(b, p, 3, 4, 5)
    ||| line_is(b, p, 6, 7, 8)
    ||| line_is(b, p, 0, 3, 6)
    ||| line_is(b, p, 1, 4, 7)
    ||| line_is(b, p, 2, 5, 8)
    ||| line_is(b, p, 0, 4, 8)
    ||| line_is(b, p, 2, 4, 6)
}

/// Whether every cell of the board is occupied.
pub open spec fn board_full(b: Seq<Cell>) -> bool {
    forall|i: int| 0 <= i < 9 ==> b[i] != Cell::Empty
}

/// A board with all nine cells empty.
pub open spec fn empty_board() -> Seq<Cell> {
    Seq::new(9, |i: int| Cell::Empty)
}

/// The glyph that renders `c`: blank for an empty cell, else the occupying
/// player's letter.
pub open spec fn spec_glyph(c: Cell) -> Seq<char> {
    match c {
        Cell::Empty => ""@,
        Cell::Occupied(Player::X) => "X"@,
        Cell::Occupied(Player::O) => "O"@,
    }
}

/// The status line that renders `g`: the winner or the draw once the game is
/// over, else whose turn it is.
pub open spec fn spec_status_text(g: GameView) -> Seq<char> {
    if g.game_over {
        match g.winner {
            Some(Player::X) => "Player X Wins!"@,
            Some(Player::O) => "Player O Wins!"@,
            None => "It's a Draw!"@,
        }
    } else {
        match g.current_player {
            Player::X => "Current Player: X"@,
            Player::O => "Current Player: O"@,
        }
    }
}

/// The abstract state of a game: the board's contents, whose turn it is,
/// whether the game has ended, and who (if anyone) won.
#[verifier::ext_equal]
pub struct GameView {
    pub board: Seq<Cell>,
    pub current_player: Player,
    pub game_over: bool,
    pub winner: Option<Player>,
}

impl GameView {
    /// The state a fresh game starts in: empty board, `X` to move, not over,
    /// no winner.
    pub open spec fn initial() -> GameView {
        GameView {
            board: empty_board(),
            current_player: Player::X,
            game_over: false,
            winner: None,
        }
    }

    /// The cell at `(row, col)`.
    pub open spec fn cell(self, row: int, col: int) -> Cell {
        self.board[cell_index(row, col)]
    }

    /// The game's invariants: the board has nine cells; a winner is only ever
    /// recorded once the game is over; a finished game was won along one of
    /// the eight lines by the recorded winner, or ended in a draw with the
    /// board full and no winner recorded.
    pub open spec fn wf(self) -> bool {
        &&& self.board.len() == 9
        &&& self.winner is Some ==> self.game_over
        &&& self.game_over ==> match self.winner {
            Some(p) => line_won(self.board, p),
            None => board_full(self.board),
        }
    }

    /// The state after asking for a move at `(row, col)`.
    ///
    /// A move into a finished game, at an out-of-range position, or into an
    /// occupied cell is ignored. An accepted move places the current player's
    /// mark; if that completes a line the game ends with that player as the
    /// winner, if it fills the board the game ends as a draw, and otherwise
    /// the turn passes to the other player.
    pub open spec fn move_result(self, row: int, col: int) -> GameView {
        if self.game_over || !in_range(row, col) || self.cell(row, col) != Cell::Empty {
            self
        } else {
            let b = self.board.update(cell_index(row, col), Cell::Occupied(self.current_player));
            if line_won(b, self.current_player) {
                GameView { board: b, game_over: true, winner: Some(self.current_player), ..self }
            } else if board_full(b) {
                GameView { board: b, game_over: true, ..self }
            } else {
                GameView { board: b, current_player: other_player(self.current_player), ..self }
            }
        }
    }
}

/// A running game of tic-tac-toe.
pub struct TicTacToe {
    board: Vec<Cell>,
    current_player: Player,
    game_over: bool,
    winner: Option<Player>,
}

impl View for TicTacToe {
    type V = GameView;

    closed spec fn view(&self) -> GameView {
        GameView {
            board: self.board@,
            current_player: self.current_player,
            game_over: self.game_over,
            winner: self.winner,
        }
    }
}

/// A freshly allocated all-empty board.
fn new_board() -> (board: Vec<Cell>)
    ensures
        board@ == empty_board(),
{
    let mut board: Vec<Cell> = Vec::new();
    let mut i: usize = 0;
    while i < 9
        invariant
            i <= 9,
            board@.len() == i,
            forall|j: int| 0 <= j < i ==> board@[j] == Cell::Empty,
        decreases 9 - i,
    {
        board.push(Cell::Empty);
        i += 1;
    }
    proof {
        assert(board@ =~= empty_board());
    }
    board
}

impl TicTacToe {
    /// Creates a new game with an empty board and `X` as the starting player.
    pub fn new() -> (game: TicTacToe)
        ensures
            game@ == GameView::initial(),
            game@.wf(),
    {
        let game = TicTacToe {
            board: new_board(),
            current_player: Player::X,
            game_over: false,
            winner: None,
        };
        proof {
            assert(game@ =~= GameView::initial());
        }
        game
    }

    /// Attempts to make a move at `(row, col)` for the current player.
    ///
    /// The move is only made if the game is not over, the position is on the
    /// board, and the cell is empty; otherwise the call is a silent no-op.
    /// After a valid move, the game checks for a win or a draw and otherwise
    /// passes the turn to the other player.
    pub fn make_move(&mut self, row: usize, col: usize)
        requires
            old(self)@.wf(),
        ensures
            final(self)@ == old(self)@.move_result(row as int, col as int),
            final(self)@.wf(),
    {
        if self.game_over || row >= 3 || col >= 3 {
            return;
        }
        let idx = 3 * row + col;
        if self.board[idx] != Cell::Empty {
            return;
        }

        let player = self.current_player;
        self.board.set(idx, Cell::Occupied(player));

        if self.check_winner(player) {
            self.game_over = true;
            self.winner = Some(player);
        } else if self.check_draw() {
            self.game_over = true;
        } else {
            self.current_player = match player {
                Player::X => Player::O,
                Player::O => Player::X,
            };
        }
        proof {
            assert(self@ =~= old(self)@.move_result(row as int, col as int));
        }
    }

    /// Whether `player` has won: whether any of the three rows, the three
    /// columns, or the two diagonals is fully occupied by `player`.
    pub fn check_winner(&self, player: Player) -> (won: bool)
        requires
            self@.board.len() == 9,
        ensures
            won == line_won(self@.board, player),
    {
        let mark = Cell::Occupied(player);
        let b = &self.board;
        (b[0] == mark && b[1] == mark && b[2] == mark)
            || (b[3] == mark && b[4] == mark && b[5] == mark)
            || (b[6] == mark && b[7] == mark && b[8] == mark)
            || (b[0] == mark && b[3] == mark && b[6] == mark)
            || (b[1] == mark && b[4] == mark && b[7] == mark)
            || (b[2] == mark && b[5] == mark && b[8] == mark)
            || (b[0] == mark && b[4] == mark && b[8] == mark)
            || (b[2] == mark && b[4] == mark && b[6] == mark)
    }

    /// Whether the board is full, regardless of any winner.
    pub fn check_draw(&self) -> (full: bool)
        requires
            self@.board.len() == 9,
        ensures
            full == board_full(self@.board),
    {
        let mut i: usize = 0;
        while i < 9
            invariant
                i <= 9,
                self@.board.len() == 9,
                forall|j: int| 0 <= j < i ==> self@.board[j] != Cell::Empty,
            decreases 9 - i,
        {
            if self.board[i] == Cell::Empty {
                return false;
            }
            i += 1;
        }
        true
    }

    /// Resets the game to its initial state: empty board, `X` to move, not
    /// over, no winner.
    pub fn reset(&mut self)
        ensures
            final(self)@ == GameView::initial(),
            final(self)@.wf(),
    {
        self.board = new_board();
        self.current_player = Player::X;
        self.game_over = false;
        self.winner = None;
        proof {
            assert(self@ =~= GameView::initial());
        }
    }

    /// The cell at `(row, col)`.
    pub fn cell(&self, row: usize, col: usize) -> (c: Cell)
        requires
            self@.board.len() == 9,
            row < 3,
            col < 3,
        ensures
            c == self@.cell(row as int, col as int),
    {
        self.board[3 * row + col]
    }

    /// The player whose turn it is.
    pub fn current_player(&self) -> (p: Player)
        ensures
            p == self@.current_player,
    {
        self.current_player
    }

    /// Whether the game has ended, by a win or a draw.
    pub fn is_over(&self) -> (over: bool)
        ensures
            over == self@.game_over,
    {
        self.game_over
    }

    /// The winner of the game: `None` while the game runs or after a draw.
    pub fn winner(&self) -> (w: Option<Player>)
        ensures
            w == self@.winner,
    {
        self.winner
    }

    /// The glyph for the cell at `(row, col)`: blank, `X`, or `O`.
    pub fn cell_glyph(&self, row: usize, col: usize) -> (glyph: &'static str)
        requires
            self@.board.len() == 9,
            row < 3,
            col < 3,
        ensures
            glyph@ == spec_glyph(self@.cell(row as int, col as int)),
    {
        match self.board[3 * row + col] {
            Cell::Empty => "",
            Cell::Occupied(Player::X) => "X",
            Cell::Occupied(Player::O) => "O",
        }
    }

    /// The status line to display above the board: the winner, the draw
    /// message, or the current player's turn.
    pub fn get_status_text(&self) -> (text: String)
        ensures
            text@ == spec_status_text(self@),
    {
        if self.game_over {
            match self.winner {
                Some(Player::X) => "Player X Wins!".to_owned(),
                Some(Player::O) => "Player O Wins!".to_owned(),
                None => "It's a Draw!".to_owned(),
            }
        } else {
            match self.current_player {
                Player::X => "Current Player: X".to_owned(),
                Player::O => "Current Player: O".to_owned(),
            }
        }
    }
}

} // verus!
