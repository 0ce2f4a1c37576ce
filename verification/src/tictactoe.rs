//! Tic-Tac-Toe game state: two players on a 3x3 board, X starts, turns
//! alternate, eight winning lines, draws when the board fills, and scores
//! kept across rounds.

use vstd::prelude::*;
use crate::text::{concat2, dec, push_decimal, to_owned_string};

verus! {

/// A player's mark.
#[derive(Clone, Copy, PartialEq, Eq, Debug, Structural)]
pub enum Player {
    X,
    O,
}

impl Player {
    /// The mark's text.
    pub fn label(self) -> (res: &'static str)
        ensures
            res@ == (if self == Player::X { "X"@ } else { "O"@ }),
    {
        match self {
            Player::X => "X",
            Player::O => "O",
        }
    }

    /// The mark's CSS class.
    pub fn css(self) -> (res: &'static str)
        ensures
            res@ == (if self == Player::X { "x"@ } else { "o"@ }),
    {
        match self {
            Player::X => "x",
            Player::O => "o",
        }
    }

    /// The opponent.
    pub fn other(self) -> (res: Player)
        ensures
            res == other_of(self),
    {
        match self {
            Player::X => Player::O,
            Player::O => Player::X,
        }
    }
}

/// The opponent of `p`.
pub open spec fn other_of(p: Player) -> Player {
    match p {
        Player::X => Player::O,
        Player::O => Player::X,
    }
}

/// The cells (row-major index `3 * row + column`) of winning line `k`:
/// three rows, three columns, then the two diagonals.
pub open spec fn line_cells(k: int) -> (int, int, int) {
    if k == 0 {
        (0, 1, 2)
    } else if k == 1 {
        (3, 4, 5)
    } else if k == 2 {
        (6, 7, 8)
    } else if k == 3 {
        (0, 3, 6)
    } else if k == 4 {
        (1, 4, 7)
    } else if k == 5 {
        (2, 5, 8)
    } else if k == 6 {
        (0, 4, 8)
    } else {
        (2, 4, 6)
    }
}

/// Line `k` is fully owned by one player on `board`.
pub open spec fn line_won(board: Seq<Option<Player>>, k: int) -> bool {
    let (a, b, c) = line_cells(k);
    board[a] is Some && board[a] == board[b] && board[b] == board[c]
}

/// The first winning line on `board`, if any.
pub open spec fn winner_of(board: Seq<Option<Player>>) -> Option<int> {
    if exists|k: int| 0 <= k < 8 && line_won(board, k) {
        Some(choose|k: int| 0 <= k < 8 && line_won(board, k) && forall|j: int| 0 <= j < k ==> !line_won(board, j))
    } else {
        None
    }
}

/// Every cell of `board` is taken.
pub open spec fn board_full(board: Seq<Option<Player>>) -> bool {
    forall|i: int| 0 <= i < board.len() ==> #[trigger] board[i] is Some
}

/// The mathematical state of a game.
pub struct GameView {
    pub board: Seq<Option<Player>>,
    pub current: Player,
    pub winner_line: Option<int>,
    pub game_over: bool,
    pub score_x: nat,
    pub score_o: nat,
    pub score_draw: nat,
}

/// The state after `current` plays at row `r`, column `c`: nothing changes
/// when the game is over, the cell is off the board or taken; otherwise the
/// mark is placed, then a completed line ends the game and scores for the
/// player, a full board ends it as a draw, and otherwise the turn passes.
pub open spec fn play_model(g: GameView, r: int, c: int) -> GameView {
    if g.game_over || r >= 3 || c >= 3 || r < 0 || c < 0 || g.board[3 * r + c] is Some {
        g
    } else {
        let b = g.board.update(3 * r + c, Some(g.current));
        if winner_of(b) is Some {
            GameView {
                board: b,
                winner_line: winner_of(b),
                game_over: true,
                score_x: if g.current == Player::X { g.score_x + 1 } else { g.score_x },
                score_o: if g.current == Player::O { g.score_o + 1 } else { g.score_o },
                ..g
            }
        } else if board_full(b) {
            GameView { board: b, game_over: true, score_draw: g.score_draw + 1, ..g }
        } else {
            GameView { board: b, current: other_of(g.current), ..g }
        }
    }
}

/// A fresh board with the given scores: empty, X to play, not over.
pub open spec fn fresh(score_x: nat, score_o: nat, score_draw: nat) -> GameView {
    GameView {
        board: Seq::new(9, |i: int| None::<Player>),
        current: Player::X,
        winner_line: None,
        game_over: false,
        score_x,
        score_o,
        score_draw,
    }
}

/// Game state plus scores.
pub struct AppState {
    board: Vec<Option<Player>>,
    current: Player,
    winner_line: Option<usize>,
    game_over: bool,
    score_x: u32,
    score_o: u32,
    score_draw: u32,
}

impl View for AppState {
    type V = GameView;

    closed spec fn view(&self) -> GameView {
        GameView {
            board: self.board@,
            current: self.current,
            winner_line: match self.winner_line {
                Some(k) => Some(k as int),
                None => None,
            },
            game_over: self.game_over,
            score_x: self.score_x as nat,
            score_o: self.score_o as nat,
            score_draw: self.score_draw as nat,
        }
    }
}

/// A consistent game: nine cells, and a recorded winning line is one of
/// the eight, owned by one player, and ends the game.
pub open spec fn game_wf(g: GameView) -> bool {
    &&& g.board.len() == 9
    &&& g.winner_line matches Some(k) ==> 0 <= k < 8 && line_won(g.board, k) && g.game_over
}

/// Whether line `k` is owned by one player.
fn line_is_won(board: &Vec<Option<Player>>, k: usize) -> (res: bool)
    requires
        board@.len() == 9,
        k < 8,
    ensures
        res == line_won(board@, k as int),
{
    let (a, b, c): (usize, usize, usize) = if k == 0 {
        (0, 1, 2)
    } else if k == 1 {
        (3, 4, 5)
    } else if k == 2 {
        (6, 7, 8)
    } else if k == 3 {
        (0, 3, 6)
    } else if k == 4 {
        (1, 4, 7)
    } else if k == 5 {
        (2, 5, 8)
    } else if k == 6 {
        (0, 4, 8)
    } else {
        (2, 4, 6)
    };
    match (board[a], board[b], board[c]) {
        (Some(x), Some(y), Some(z)) => x == y && y == z,
        _ => false,
    }
}

/// The first winning line on the board.
fn first_winning_line(board: &Vec<Option<Player>>) -> (res: Option<usize>)
    requires
        board@.len() == 9,
    ensures
        match res {
            Some(k) => winner_of(board@) == Some(k as int),
            None => winner_of(board@) is None,
        },
{
    let mut k: usize = 0;
    while k < 8
        invariant
            k <= 8,
            board@.len() == 9,
            forall|j: int| 0 <= j < k ==> !line_won(board@, j),
        decreases 8 - k,
    {
        if line_is_won(board, k) {
            proof {
                let w = choose|w: int| 0 <= w < 8 && line_won(board@, w) && forall|j: int| 0 <= j < w ==> !line_won(board@, j);
                assert(0 <= k < 8 && line_won(board@, k as int) && forall|j: int| 0 <= j < k ==> !line_won(board@, j));
                assert(w == k) by {
                    if w < k {
                        assert(!line_won(board@, w));
                    } else if w > k {
                        assert(!line_won(board@, k as int));
                    }
                }
            }
            return Some(k);
        }
        k = k + 1;
    }
    None
}

/// The (row, column) cells of winning line `k`.
pub fn line_coords(k: usize) -> (res: [(usize, usize); 3])
    requires
        k < 8,
    ensures
        ({
            let (a, b, c) = line_cells(k as int);
            &&& res@[0].0 * 3 + res@[0].1 == a && res@[0].1 < 3
            &&& res@[1].0 * 3 + res@[1].1 == b && res@[1].1 < 3
            &&& res@[2].0 * 3 + res@[2].1 == c && res@[2].1 < 3
        }),
{
    if k == 0 {
        [(0, 0), (0, 1), (0, 2)]
    } else if k == 1 {
        [(1, 0), (1, 1), (1, 2)]
    } else if k == 2 {
        [(2, 0), (2, 1), (2, 2)]
    } else if k == 3 {
        [(0, 0), (1, 0), (2, 0)]
    } else if k == 4 {
        [(0, 1), (1, 1), (2, 1)]
    } else if k == 5 {
        [(0, 2), (1, 2), (2, 2)]
    } else if k == 6 {
        [(0, 0), (1, 1), (2, 2)]
    } else {
        [(0, 2), (1, 1), (2, 0)]
    }
}

/// The message under the board.
pub open spec fn status_of(g: GameView) -> Seq<char> {
    match g.winner_line {
        Some(k) => {
            let w = g.board[line_cells(k).0];
            (if w == Some(Player::X) { "X"@ } else { "O"@ }) + " wins! Click Reset for a new round."@
        },
        None => if g.game_over {
            "Draw! Click Reset for a new round."@
        } else {
            (if g.current == Player::X { "X"@ } else { "O"@ }) + "'s turn"@
        },
    }
}

impl AppState {
    /// A fresh game: empty board, X to play, no scores.
    pub fn new() -> (res: Self)
        ensures
            game_wf(res@),
            res@ == fresh(0, 0, 0),
    {
        let s = AppState {
            board: vec![None, None, None, None, None, None, None, None, None],
            current: Player::X,
            winner_line: None,
            game_over: false,
            score_x: 0,
            score_o: 0,
            score_draw: 0,
        };
        assert(s@.board =~= fresh(0, 0, 0).board);
        s
    }

    /// Clears the board for a new round; X starts; scores are kept.
    pub fn reset_board(&mut self)
        ensures
            game_wf(final(self)@),
            final(self)@ == fresh(old(self)@.score_x, old(self)@.score_o, old(self)@.score_draw),
    {
        self.board = vec![None, None, None, None, None, None, None, None, None];
        self.current = Player::X;
        self.winner_line = None;
        self.game_over = false;
        assert(self@.board =~= fresh(0, 0, 0).board);
    }

    /// The mark at row `r`, column `c`.
    pub fn cell(&self, r: usize, c: usize) -> (res: Option<Player>)
        requires
            game_wf(self@),
            r < 3,
            c < 3,
        ensures
            res == self@.board[3 * r + c],
    {
        self.board[3 * r + c]
    }

    /// Whose turn it is.
    pub fn current(&self) -> (res: Player)
        ensures
            res == self@.current,
    {
        self.current
    }

    /// Whether the round is over.
    pub fn is_over(&self) -> (res: bool)
        ensures
            res == self@.game_over,
    {
        self.game_over
    }

    /// The scores: X wins, O wins, draws.
    pub fn scores(&self) -> (res: (u32, u32, u32))
        ensures
            res.0 == self@.score_x,
            res.1 == self@.score_o,
            res.2 == self@.score_draw,
    {
        (self.score_x, self.score_o, self.score_draw)
    }

    /// The cells of the winning line, when the round was won.
    pub fn winner_line(&self) -> (res: Option<[(usize, usize); 3]>)
        requires
            game_wf(self@),
        ensures
            res is Some <==> self@.winner_line is Some,
            res matches Some(cells) ==> ({
                let (a, b, c) = line_cells(self@.winner_line.unwrap());
                &&& cells@[0].0 * 3 + cells@[0].1 == a && cells@[0].1 < 3
                &&& cells@[1].0 * 3 + cells@[1].1 == b && cells@[1].1 < 3
                &&& cells@[2].0 * 3 + cells@[2].1 == c && cells@[2].1 < 3
            }),
    {
        match self.winner_line {
            Some(k) => Some(line_coords(k)),
            None => None,
        }
    }

    /// The first line fully owned by one player, as (row, column) cells.
    pub fn check_winner(&self) -> (res: Option<[(usize, usize); 3]>)
        requires
            game_wf(self@),
        ensures
            res is Some <==> winner_of(self@.board) is Some,
            res matches Some(cells) ==> ({
                let (a, b, c) = line_cells(winner_of(self@.board).unwrap());
                &&& cells@[0].0 * 3 + cells@[0].1 == a
                &&& cells@[1].0 * 3 + cells@[1].1 == b
                &&& cells@[2].0 * 3 + cells@[2].1 == c
            }),
    {
        match first_winning_line(&self.board) {
            Some(k) => Some(line_coords(k)),
            None => None,
        }
    }

    /// Places the current player's mark at row `r`, column `c` when the
    /// round is on and the cell is free, then ends the round on a win or a
    /// full board, or passes the turn.
    pub fn play(&mut self, r: usize, c: usize)
        requires
            game_wf(old(self)@),
            old(self)@.score_x < u32::MAX,
            old(self)@.score_o < u32::MAX,
            old(self)@.score_draw < u32::MAX,
        ensures
            game_wf(final(self)@),
            final(self)@ == play_model(old(self)@, r as int, c as int),
    {
        if self.game_over {
            return;
        }
        if r >= 3 || c >= 3 {
            return;
        }
        let idx = 3 * r + c;
        if self.board[idx].is_some() {
            return;
        }
        let ghost g = self@;
        self.board.set(idx, Some(self.current));
        let ghost b = self.board@;
        assert(b == g.board.update(3 * r + c, Some(g.current)));
        match first_winning_line(&self.board) {
            Some(k) => {
                self.winner_line = Some(k);
                self.game_over = true;
                match self.current {
                    Player::X => self.score_x = self.score_x + 1,
                    Player::O => self.score_o = self.score_o + 1,
                }
                proof {
                    let w = choose|w: int| 0 <= w < 8 && line_won(b, w) && forall|j: int| 0 <= j < w ==> !line_won(b, j);
                    assert(w == k);
                }
                return;
            },
            None => {},
        }
        let mut full = true;
        let mut i: usize = 0;
        while i < 9
            invariant
                i <= 9,
                self.board@.len() == 9,
                full == forall|j: int| 0 <= j < i ==> #[trigger] self.board@[j] is Some,
            decreases 9 - i,
        {
            if self.board[i].is_none() {
                full = false;
            }
            i = i + 1;
        }
        if full {
            self.game_over = true;
            self.score_draw = self.score_draw + 1;
            return;
        }
        self.current = self.current.other();
    }

    /// The message under the board: who won, a draw, or whose turn it is.
    pub fn status(&self) -> (res: String)
        requires
            game_wf(self@),
        ensures
            res@ == status_of(self@),
    {
        match self.winner_line {
            Some(k) => {
                let (a, _, _) = if k == 0 {
                    (0usize, 1usize, 2usize)
                } else if k == 1 {
                    (3, 4, 5)
                } else if k == 2 {
                    (6, 7, 8)
                } else if k == 3 {
                    (0, 3, 6)
                } else if k == 4 {
                    (1, 4, 7)
                } else if k == 5 {
                    (2, 5, 8)
                } else if k == 6 {
                    (0, 4, 8)
                } else {
                    (2, 4, 6)
                };
                let winner = match self.board[a] {
                    Some(p) => p,
                    None => Player::X,
                };
                concat2(winner.label(), " wins! Click Reset for a new round.")
            },
            None => {
                if self.game_over {
                    to_owned_string("Draw! Click Reset for a new round.")
                } else {
                    concat2(self.current.label(), "'s turn")
                }
            },
        }
    }
}

/// The cells `a`, `b`, `c` of `board` all hold the same player's mark.
pub open spec fn owns(board: Seq<Option<Player>>, a: int, b: int, c: int) -> bool {
    board[a] is Some && board[a] == board[b] && board[b] == board[c]
}

/// A round is won exactly when one player holds a whole row, a whole
/// column or a whole diagonal of the 3x3 board (cells numbered row by row
/// from 0).
pub proof fn lemma_win_lines(board: Seq<Option<Player>>)
    ensures
        (winner_of(board) is Some) == (owns(board, 0, 1, 2) || owns(board, 3, 4, 5) || owns(board, 6, 7, 8) || owns(board, 0, 3, 6) || owns(board, 1, 4, 7) || owns(board, 2, 5, 8) || owns(board, 0, 4, 8) || owns(board, 2, 4, 6)),
{
    if owns(board, 0, 1, 2) || owns(board, 3, 4, 5) || owns(board, 6, 7, 8) || owns(board, 0, 3, 6) || owns(board, 1, 4, 7) || owns(board, 2, 5, 8) || owns(board, 0, 4, 8) || owns(board, 2, 4, 6) {
        if owns(board, 0, 1, 2) { assert(line_won(board, 0)); }
        else if owns(board, 3, 4, 5) { assert(line_won(board, 1)); }
        else if owns(board, 6, 7, 8) { assert(line_won(board, 2)); }
        else if owns(board, 0, 3, 6) { assert(line_won(board, 3)); }
        else if owns(board, 1, 4, 7) { assert(line_won(board, 4)); }
        else if owns(board, 2, 5, 8) { assert(line_won(board, 5)); }
        else if owns(board, 0, 4, 8) { assert(line_won(board, 6)); }
        else { assert(line_won(board, 7)); }
    }
    if winner_of(board) is Some {
        let k = choose|k: int| 0 <= k < 8 && line_won(board, k);
        assert(line_won(board, k));
    }
}

/// A move never erases or changes a mark already on the board.
pub proof fn lemma_marks_stay(g: GameView, r: int, c: int)
    requires
        game_wf(g),
    ensures
        forall|i: int| 0 <= i < 9 && g.board[i] is Some ==> #[trigger] play_model(g, r, c).board[i] == g.board[i],
{
}

/// Scores never decrease, and a move adds at most one point, exactly when
/// it ends the round.
pub proof fn lemma_scores_monotone(g: GameView, r: int, c: int)
    ensures
        play_model(g, r, c).score_x >= g.score_x,
        play_model(g, r, c).score_o >= g.score_o,
        play_model(g, r, c).score_draw >= g.score_draw,
        play_model(g, r, c).score_x + play_model(g, r, c).score_o + play_model(g, r, c).score_draw
            == g.score_x + g.score_o + g.score_draw + (if !g.game_over && play_model(g, r, c).game_over { 1int } else { 0int }),
{
}

/// Once a round is over, moves change nothing until the board is reset.
pub proof fn lemma_over_is_final(g: GameView, r: int, c: int)
    requires
        g.game_over,
    ensures
        play_model(g, r, c) == g,
{
}

/// Every move keeps the game consistent.
pub proof fn lemma_play_keeps_wf(g: GameView, r: int, c: int)
    requires
        game_wf(g),
    ensures
        game_wf(play_model(g, r, c)),
{
    if !(g.game_over || r >= 3 || c >= 3 || r < 0 || c < 0 || g.board[3 * r + c] is Some) {
        let b = g.board.update(3 * r + c, Some(g.current));
        if winner_of(b) is Some {
            let k = choose|k: int| 0 <= k < 8 && line_won(b, k) && forall|j: int| 0 <= j < k ==> !line_won(b, j);
            assert(winner_of(b) == Some(k));
        }
    }
}

/// Turns alternate: after a move that keeps the round going, the other
/// player is to play.
pub proof fn lemma_turns_alternate(g: GameView, r: int, c: int)
    requires
        !play_model(g, r, c).game_over,
        play_model(g, r, c) != g,
    ensures
        play_model(g, r, c).current == other_of(g.current),
{
}

/// Cell `i` (row-major) lies on the winning line of `g`.
pub open spec fn on_winning_line(g: GameView, i: int) -> bool {
    g.winner_line matches Some(k) && (line_cells(k).0 == i || line_cells(k).1 == i || line_cells(k).2 == i)
}

/// How one cell of the board renders.
#[derive(Debug)]
pub struct CellView {
    /// The mark, or nothing.
    pub label: &'static str,
    /// The mark's CSS class, when there is a mark.
    pub css: Option<&'static str>,
    /// Highlighted as part of the winning line.
    pub winner: bool,
    /// Accepts a click.
    pub sensitive: bool,
}

impl AppState {
    /// How the cell at row `r`, column `c` renders: its mark with the
    /// mark's CSS class, the highlight when it lies on the winning line,
    /// and clickable only while it is empty and the round runs.
    pub fn cell_view(&self, r: usize, c: usize) -> (res: CellView)
        requires
            game_wf(self@),
            r < 3,
            c < 3,
        ensures
            match self@.board[3 * r + c] {
                Some(p) => res.label@ == (if p == Player::X { "X"@ } else { "O"@ }) && (res.css matches Some(k) && k@
                    == (if p == Player::X { "x"@ } else { "o"@ })),
                None => res.label@ == ""@ && res.css is None,
            },
            res.winner == on_winning_line(self@, 3 * r + c),
            res.sensitive == (self@.board[3 * r + c] is None && !self@.game_over),
    {
        let i = 3 * r + c;
        let (label, css) = match self.board[i] {
            Some(p) => (p.label(), Some(p.css())),
            None => ("", None),
        };
        let winner = match self.winner_line {
            Some(k) => {
                let (a, b, d): (usize, usize, usize) = if k == 0 {
                    (0, 1, 2)
                } else if k == 1 {
                    (3, 4, 5)
                } else if k == 2 {
                    (6, 7, 8)
                } else if k == 3 {
                    (0, 3, 6)
                } else if k == 4 {
                    (1, 4, 7)
                } else if k == 5 {
                    (2, 5, 8)
                } else if k == 6 {
                    (0, 4, 8)
                } else {
                    (2, 4, 6)
                };
                a == i || b == i || d == i
            },
            None => false,
        };
        CellView { label, css, winner, sensitive: self.board[i].is_none() && !self.game_over }
    }

    /// The score labels: `X: {n}`, `O: {n}`, `Draws: {n}`.
    pub fn score_labels(&self) -> (res: (String, String, String))
        ensures
            res.0@ == "X: "@ + dec(self@.score_x),
            res.1@ == "O: "@ + dec(self@.score_o),
            res.2@ == "Draws: "@ + dec(self@.score_draw),
    {
        let mut x = String::from_str("X: ");
        push_decimal(&mut x, self.score_x as u64);
        let mut o = String::from_str("O: ");
        push_decimal(&mut o, self.score_o as u64);
        let mut d = String::from_str("Draws: ");
        push_decimal(&mut d, self.score_draw as u64);
        (x, o, d)
    }
}

} // verus!
