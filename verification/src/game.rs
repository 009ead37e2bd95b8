//! The in-room tic-tac-toe mini-game: board state, move validation, win
//! and draw detection, score keeping, and the wire form of game actions
//! carried as room messages.

use vstd::prelude::*;
use vstd::slice::slice_subrange;
use vstd::string::{StringExecFns, StringSliceAdditionalSpecFns};
use vstd::utf8::{encode_utf8, is_ascii_chars, is_ascii_chars_encode_utf8};
use crate::textutil::{bytes_eq, digit_str, str_eq, u32_dec, dec_of};
use crate::primitives::hex_digit;
use crate::wire::{lp, push_bytes, read_str_spec, push_str_lp, read_str, lemma_read_str_at};

verus! {

/// A tic-tac-toe cell.
#[derive(Debug, Clone, Copy, PartialEq, Eq, Structural)]
pub enum Cell {
    Empty,
    X,
    O,
}

impl Cell {
    /// The display symbol of the cell.
    pub fn symbol(self) -> (r: &'static str)
        ensures
            self == Cell::Empty ==> r@ == " "@,
            self == Cell::X ==> r@ == "X"@,
            self == Cell::O ==> r@ == "O"@,
    {
        match self {
            Cell::Empty => " ",
            Cell::X => "X",
            Cell::O => "O",
        }
    }
}

/// The outcome of a round.
#[derive(Debug, Clone, Copy, PartialEq, Eq, Structural)]
pub enum GameResult {
    Win(Cell),
    Draw,
    InProgress,
}

/// Three equal, non-empty cells on a line.
pub open spec fn line_won(b: Seq<Cell>, i: int, j: int, k: int) -> bool {
    b[i] != Cell::Empty && b[i] == b[j] && b[j] == b[k]
}

/// Every cell taken.
pub open spec fn board_full(b: Seq<Cell>) -> bool {
    forall|i: int| 0 <= i < 9 ==> b[i] != Cell::Empty
}

/// The outcome a nine-cell board shows: the first won line in row, column,
/// diagonal order, else a draw on a full board, else still in progress.
pub open spec fn spec_check_result(b: Seq<Cell>) -> GameResult {
    if line_won(b, 0, 1, 2) {
        GameResult::Win(b[0])
    } else if line_won(b, 3, 4, 5) {
        GameResult::Win(b[3])
    } else if line_won(b, 6, 7, 8) {
        GameResult::Win(b[6])
    } else if line_won(b, 0, 3, 6) {
        GameResult::Win(b[0])
    } else if line_won(b, 1, 4, 7) {
        GameResult::Win(b[1])
    } else if line_won(b, 2, 5, 8) {
        GameResult::Win(b[2])
    } else if line_won(b, 0, 4, 8) {
        GameResult::Win(b[0])
    } else if line_won(b, 2, 4, 6) {
        GameResult::Win(b[2])
    } else if board_full(b) {
        GameResult::Draw
    } else {
        GameResult::InProgress
    }
}

/// The mathematical content of a [`GameAction`].
pub ghost enum GameActionV {
    Challenge { challenger: Seq<char>, challenger_nick: Seq<char>, room_id: Seq<char> },
    Accept { accepter: Seq<char>, accepter_nick: Seq<char>, room_id: Seq<char> },
    Decline { room_id: Seq<char> },
    Move { position: u8, room_id: Seq<char>, player: Seq<char> },
    Resign { room_id: Seq<char>, player: Seq<char> },
}

/// A game action sent over the network as a room message.
#[derive(Debug, Clone)]
pub enum GameAction {
    /// Challenge someone to a game.
    Challenge {
        /// The challenger's peer identifier.
        challenger: String,
        /// The challenger's display name.
        challenger_nick: String,
        /// Which room this game is in.
        room_id: String,
    },
    /// Accept a challenge.
    Accept {
        /// The accepter's peer identifier.
        accepter: String,
        /// The accepter's display name.
        accepter_nick: String,
        room_id: String,
    },
    /// Decline a challenge.
    Decline { room_id: String },
    /// Make a move at a position 1-9.
    Move { position: u8, room_id: String, player: String },
    /// Resign the game.
    Resign { room_id: String, player: String },
}

impl View for GameAction {
    type V = GameActionV;

    open spec fn view(&self) -> GameActionV {
        match self {
            GameAction::Challenge { challenger, challenger_nick, room_id } => {
                GameActionV::Challenge {
                    challenger: challenger@,
                    challenger_nick: challenger_nick@,
                    room_id: room_id@,
                }
            },
            GameAction::Accept { accepter, accepter_nick, room_id } => {
                GameActionV::Accept {
                    accepter: accepter@,
                    accepter_nick: accepter_nick@,
                    room_id: room_id@,
                }
            },
            GameAction::Decline { room_id } => GameActionV::Decline { room_id: room_id@ },
            GameAction::Move { position, room_id, player } => {
                GameActionV::Move { position: *position, room_id: room_id@, player: player@ }
            },
            GameAction::Resign { room_id, player } => {
                GameActionV::Resign { room_id: room_id@, player: player@ }
            },
        }
    }
}

/// The marker a game message starts with.
pub open spec fn game_prefix() -> Seq<u8> {
    encode_utf8("GAME:"@)
}

/// The wire form of a game action after the marker: a variant tag, then
/// the fields, strings length-prefixed and the move position one raw byte.
pub open spec fn spec_game_action_payload(v: GameActionV) -> Seq<u8> {
    match v {
        GameActionV::Challenge { challenger, challenger_nick, room_id } => seq![1u8] + lp(
            encode_utf8(challenger),
        ) + lp(encode_utf8(challenger_nick)) + lp(encode_utf8(room_id)),
        GameActionV::Accept { accepter, accepter_nick, room_id } => seq![2u8] + lp(
            encode_utf8(accepter),
        ) + lp(encode_utf8(accepter_nick)) + lp(encode_utf8(room_id)),
        GameActionV::Decline { room_id } => seq![3u8] + lp(encode_utf8(room_id)),
        GameActionV::Move { position, room_id, player } => seq![4u8, position] + lp(
            encode_utf8(room_id),
        ) + lp(encode_utf8(player)),
        GameActionV::Resign { room_id, player } => seq![5u8] + lp(encode_utf8(room_id)) + lp(
            encode_utf8(player),
        ),
    }
}

/// The full wire form of a game action.
pub open spec fn spec_game_action_bytes(v: GameActionV) -> Seq<u8> {
    game_prefix() + spec_game_action_payload(v)
}

/// Spec-level parse of a game action.
pub open spec fn spec_game_action_parse(data: Seq<u8>) -> Option<GameActionV> {
    if data.len() >= 6 && data.subrange(0, 5) == game_prefix() {
        let tag = data[5];
        if tag == 1u8 {
            match read_str_spec(data, 6) {
                None => None,
                Some((challenger, p1)) => match read_str_spec(data, p1) {
                    None => None,
                    Some((challenger_nick, p2)) => match read_str_spec(data, p2) {
                        None => None,
                        Some((room_id, p3)) => if p3 == data.len() {
                            Some(GameActionV::Challenge { challenger, challenger_nick, room_id })
                        } else {
                            None
                        },
                    },
                },
            }
        } else if tag == 2u8 {
            match read_str_spec(data, 6) {
                None => None,
                Some((accepter, p1)) => match read_str_spec(data, p1) {
                    None => None,
                    Some((accepter_nick, p2)) => match read_str_spec(data, p2) {
                        None => None,
                        Some((room_id, p3)) => if p3 == data.len() {
                            Some(GameActionV::Accept { accepter, accepter_nick, room_id })
                        } else {
                            None
                        },
                    },
                },
            }
        } else if tag == 3u8 {
            match read_str_spec(data, 6) {
                None => None,
                Some((room_id, p1)) => if p1 == data.len() {
                    Some(GameActionV::Decline { room_id })
                } else {
                    None
                },
            }
        } else if tag == 4u8 {
            if data.len() >= 7 {
                let position = data[6];
                match read_str_spec(data, 7) {
                    None => None,
                    Some((room_id, p1)) => match read_str_spec(data, p1) {
                        None => None,
                        Some((player, p2)) => if p2 == data.len() {
                            Some(GameActionV::Move { position, room_id, player })
                        } else {
                            None
                        },
                    },
                }
            } else {
                None
            }
        } else if tag == 5u8 {
            match read_str_spec(data, 6) {
                None => None,
                Some((room_id, p1)) => match read_str_spec(data, p1) {
                    None => None,
                    Some((player, p2)) => if p2 == data.len() {
                        Some(GameActionV::Resign { room_id, player })
                    } else {
                        None
                    },
                },
            }
        } else {
            None
        }
    } else {
        None
    }
}

impl GameAction {
    /// Serialize for sending as a room message, behind the game marker.
    pub fn to_bytes(&self) -> (r: Vec<u8>)
        ensures
            r@ == spec_game_action_bytes(self@),
    {
        let mut out: Vec<u8> = Vec::new();
        push_bytes(&mut out, "GAME:".as_bytes());
        match self {
            GameAction::Challenge { challenger, challenger_nick, room_id } => {
                out.push(1u8);
                push_str_lp(&mut out, challenger.as_str());
                push_str_lp(&mut out, challenger_nick.as_str());
                push_str_lp(&mut out, room_id.as_str());
            },
            GameAction::Accept { accepter, accepter_nick, room_id } => {
                out.push(2u8);
                push_str_lp(&mut out, accepter.as_str());
                push_str_lp(&mut out, accepter_nick.as_str());
                push_str_lp(&mut out, room_id.as_str());
            },
            GameAction::Decline { room_id } => {
                out.push(3u8);
                push_str_lp(&mut out, room_id.as_str());
            },
            GameAction::Move { position, room_id, player } => {
                out.push(4u8);
                out.push(*position);
                push_str_lp(&mut out, room_id.as_str());
                push_str_lp(&mut out, player.as_str());
            },
            GameAction::Resign { room_id, player } => {
                out.push(5u8);
                push_str_lp(&mut out, room_id.as_str());
                push_str_lp(&mut out, player.as_str());
            },
        }
        proof {
            assert(out@ =~= spec_game_action_bytes(self@));
        }
        out
    }

    /// Try to parse a game action out of room message bytes.
    pub fn from_bytes(data: &[u8]) -> (r: Option<Self>)
        ensures
            match spec_game_action_parse(data@) {
                Some(v) => r matches Some(a) && a@ == v,
                None => r is None,
            },
    {
        if data.len() < 6 {
            return None;
        }
        if !bytes_eq(slice_subrange(data, 0, 5), "GAME:".as_bytes()) {
            return None;
        }
        let tag = data[5];
        if tag == 1u8 {
            let mut pos: usize = 6;
            let challenger = match read_str(data, &mut pos) {
                Some(s) => s,
                None => {
                    return None;
                },
            };
            let challenger_nick = match read_str(data, &mut pos) {
                Some(s) => s,
                None => {
                    return None;
                },
            };
            let room_id = match read_str(data, &mut pos) {
                Some(s) => s,
                None => {
                    return None;
                },
            };
            if pos != data.len() {
                return None;
            }
            Some(GameAction::Challenge { challenger, challenger_nick, room_id })
        } else if tag == 2u8 {
            let mut pos: usize = 6;
            let accepter = match read_str(data, &mut pos) {
                Some(s) => s,
                None => {
                    return None;
                },
            };
            let accepter_nick = match read_str(data, &mut pos) {
                Some(s) => s,
                None => {
                    return None;
                },
            };
            let room_id = match read_str(data, &mut pos) {
                Some(s) => s,
                None => {
                    return None;
                },
            };
            if pos != data.len() {
                return None;
            }
            Some(GameAction::Accept { accepter, accepter_nick, room_id })
        } else if tag == 3u8 {
            let mut pos: usize = 6;
            let room_id = match read_str(data, &mut pos) {
                Some(s) => s,
                None => {
                    return None;
                },
            };
            if pos != data.len() {
                return None;
            }
            Some(GameAction::Decline { room_id })
        } else if tag == 4u8 {
            if data.len() < 7 {
                return None;
            }
            let position = data[6];
            let mut pos: usize = 7;
            let room_id = match read_str(data, &mut pos) {
                Some(s) => s,
                None => {
                    return None;
                },
            };
            let player = match read_str(data, &mut pos) {
                Some(s) => s,
                None => {
                    return None;
                },
            };
            if pos != data.len() {
                return None;
            }
            Some(GameAction::Move { position, room_id, player })
        } else if tag == 5u8 {
            let mut pos: usize = 6;
            let room_id = match read_str(data, &mut pos) {
                Some(s) => s,
                None => {
                    return None;
                },
            };
            let player = match read_str(data, &mut pos) {
                Some(s) => s,
                None => {
                    return None;
                },
            };
            if pos != data.len() {
                return None;
            }
            Some(GameAction::Resign { room_id, player })
        } else {
            None
        }
    }

    /// Whether these bytes carry a game message.
    pub fn is_game_message(data: &[u8]) -> (r: bool)
        ensures
            r == (data@.len() >= 5 && data@.subrange(0, 5) == game_prefix()),
    {
        if data.len() < 5 {
            return false;
        }
        bytes_eq(slice_subrange(data, 0, 5), "GAME:".as_bytes())
    }
}

/// Encoding then parsing a game action yields it back unchanged.
pub proof fn lemma_game_action_round_trip(v: GameActionV)
    requires
        match v {
            GameActionV::Challenge { challenger, challenger_nick, room_id } => encode_utf8(
                challenger,
            ).len() <= u64::MAX && encode_utf8(challenger_nick).len() <= u64::MAX && encode_utf8(
                room_id,
            ).len() <= u64::MAX,
            GameActionV::Accept { accepter, accepter_nick, room_id } => encode_utf8(
                accepter,
            ).len() <= u64::MAX && encode_utf8(accepter_nick).len() <= u64::MAX && encode_utf8(
                room_id,
            ).len() <= u64::MAX,
            GameActionV::Decline { room_id } => encode_utf8(room_id).len() <= u64::MAX,
            GameActionV::Move { position, room_id, player } => encode_utf8(room_id).len()
                <= u64::MAX && encode_utf8(player).len() <= u64::MAX,
            GameActionV::Resign { room_id, player } => encode_utf8(room_id).len() <= u64::MAX
                && encode_utf8(player).len() <= u64::MAX,
        },
    ensures
        spec_game_action_parse(spec_game_action_bytes(v)) == Some(v),
{
    reveal_strlit("GAME:");
    assert(is_ascii_chars("GAME:"@));
    is_ascii_chars_encode_utf8("GAME:"@);
    vstd::bytes::lemma_auto_spec_u64_to_from_le_bytes();
    let pfx = game_prefix();
    let data = spec_game_action_bytes(v);
    assert(data.subrange(0, 5) =~= pfx);
    match v {
        GameActionV::Challenge { challenger, challenger_nick, room_id } => {
            let s0 = pfx + seq![1u8];
            let s1 = lp(encode_utf8(challenger));
            let s2 = lp(encode_utf8(challenger_nick));
            let s3 = lp(encode_utf8(room_id));
            assert(data[5] == 1u8);
            assert(data =~= s0 + s1 + (s2 + s3));
            lemma_read_str_at(s0, challenger, s2 + s3);
            assert(data =~= (s0 + s1) + s2 + s3);
            lemma_read_str_at(s0 + s1, challenger_nick, s3);
            assert(data =~= (s0 + s1 + s2) + s3 + Seq::<u8>::empty());
            lemma_read_str_at(s0 + s1 + s2, room_id, Seq::<u8>::empty());
        },
        GameActionV::Accept { accepter, accepter_nick, room_id } => {
            let s0 = pfx + seq![2u8];
            let s1 = lp(encode_utf8(accepter));
            let s2 = lp(encode_utf8(accepter_nick));
            let s3 = lp(encode_utf8(room_id));
            assert(data[5] == 2u8);
            assert(data =~= s0 + s1 + (s2 + s3));
            lemma_read_str_at(s0, accepter, s2 + s3);
            assert(data =~= (s0 + s1) + s2 + s3);
            lemma_read_str_at(s0 + s1, accepter_nick, s3);
            assert(data =~= (s0 + s1 + s2) + s3 + Seq::<u8>::empty());
            lemma_read_str_at(s0 + s1 + s2, room_id, Seq::<u8>::empty());
        },
        GameActionV::Decline { room_id } => {
            let s0 = pfx + seq![3u8];
            assert(data[5] == 3u8);
            assert(data =~= s0 + lp(encode_utf8(room_id)) + Seq::<u8>::empty());
            lemma_read_str_at(s0, room_id, Seq::<u8>::empty());
        },
        GameActionV::Move { position, room_id, player } => {
            let s0 = pfx + seq![4u8, position];
            let s1 = lp(encode_utf8(room_id));
            let s2 = lp(encode_utf8(player));
            assert(data[5] == 4u8);
            assert(data[6] == position);
            assert(data =~= s0 + s1 + s2);
            lemma_read_str_at(s0, room_id, s2);
            assert(data =~= (s0 + s1) + s2 + Seq::<u8>::empty());
            lemma_read_str_at(s0 + s1, player, Seq::<u8>::empty());
        },
        GameActionV::Resign { room_id, player } => {
            let s0 = pfx + seq![5u8];
            let s1 = lp(encode_utf8(room_id));
            let s2 = lp(encode_utf8(player));
            assert(data[5] == 5u8);
            assert(data =~= s0 + s1 + s2);
            lemma_read_str_at(s0, room_id, s2);
            assert(data =~= (s0 + s1) + s2 + Seq::<u8>::empty());
            lemma_read_str_at(s0 + s1, player, Seq::<u8>::empty());
        },
    }
}

/// Session score tracker.
#[derive(Debug, Clone)]
pub struct GameScore {
    pub player_x_wins: u32,
    pub player_o_wins: u32,
    pub draws: u32,
}

impl Default for GameScore {
    /// A fresh score: nothing played yet.
    fn default() -> (r: Self)
        ensures
            r.player_x_wins == 0 && r.player_o_wins == 0 && r.draws == 0,
    {
        GameScore { player_x_wins: 0, player_o_wins: 0, draws: 0 }
    }
}

/// The score after recording one outcome.
pub open spec fn spec_record(s: GameScore, result: GameResult) -> GameScore {
    match result {
        GameResult::Win(Cell::X) => GameScore { player_x_wins: (s.player_x_wins + 1) as u32, ..s },
        GameResult::Win(Cell::O) => GameScore { player_o_wins: (s.player_o_wins + 1) as u32, ..s },
        GameResult::Draw => GameScore { draws: (s.draws + 1) as u32, ..s },
        _ => s,
    }
}

impl GameScore {
    /// Record one outcome; an unfinished round records nothing.
    pub fn record(&mut self, result: &GameResult)
        requires
            old(self).player_x_wins < u32::MAX,
            old(self).player_o_wins < u32::MAX,
            old(self).draws < u32::MAX,
        ensures
            *final(self) == spec_record(*old(self), *result),
    {
        match result {
            GameResult::Win(Cell::X) => {
                self.player_x_wins = self.player_x_wins + 1;
            },
            GameResult::Win(Cell::O) => {
                self.player_o_wins = self.player_o_wins + 1;
            },
            GameResult::Draw => {
                self.draws = self.draws + 1;
            },
            _ => {},
        }
    }

    /// How many rounds have finished.
    pub fn total_games(&self) -> (r: u32)
        requires
            self.player_x_wins + self.player_o_wins + self.draws <= u32::MAX,
        ensures
            r == self.player_x_wins + self.player_o_wins + self.draws,
    {
        self.player_x_wins + self.player_o_wins + self.draws
    }
}

/// A tic-tac-toe game instance between two peers in one room.
pub struct TicTacToe {
    /// The board, indices 0-8, displayed as positions 1-9.
    pub board: [Cell; 9],
    /// Whose turn it is.
    pub current_turn: Cell,
    /// Player X: peer identifier and nickname.
    pub player_x: (String, String),
    /// Player O: peer identifier and nickname.
    pub player_o: (String, String),
    /// The room this game is played in.
    pub room_id: String,
    /// Session score.
    pub score: GameScore,
    /// Current round outcome.
    pub result: GameResult,
}

/// Which side a peer plays, by peer identifier; X is checked first.
pub open spec fn spec_player_cell(g: TicTacToe, id: Seq<char>) -> Option<Cell> {
    if g.player_x.0@ == id {
        Some(Cell::X)
    } else if g.player_o.0@ == id {
        Some(Cell::O)
    } else {
        None
    }
}

/// The nickname shown for a side.
pub open spec fn spec_nick_for(g: TicTacToe, cell: Cell) -> Seq<char> {
    match cell {
        Cell::X => g.player_x.1@,
        Cell::O => g.player_o.1@,
        Cell::Empty => "???"@,
    }
}

/// One board cell as displayed: its symbol, or its position digit when
/// still empty.
pub open spec fn spec_cell_str(b: Seq<Cell>, i: int) -> Seq<char> {
    match b[i] {
        Cell::Empty => seq![hex_digit((i + 1) as u8)],
        Cell::X => "X"@,
        Cell::O => "O"@,
    }
}

/// The display symbol of a cell, as a character sequence.
pub open spec fn spec_cell_symbol(c: Cell) -> Seq<char> {
    match c {
        Cell::Empty => " "@,
        Cell::X => "X"@,
        Cell::O => "O"@,
    }
}

/// One rendered board row over cells `a`, `b`, `c`.
pub open spec fn spec_board_row(b: Seq<Cell>, a: int, bb: int, c: int) -> Seq<char> {
    "\u{2502} "@ + spec_cell_str(b, a) + " \u{2502} "@ + spec_cell_str(b, bb) + " \u{2502} "@
        + spec_cell_str(b, c) + " \u{2502}"@
}

/// The rendered score line.
pub open spec fn spec_score_line(g: TicTacToe) -> Seq<char> {
    "Score: "@ + g.player_x.1@ + " (X) "@ + dec_of(g.score.player_x_wins as nat) + " - "@ + dec_of(
        g.score.draws as nat,
    ) + " - "@ + dec_of(g.score.player_o_wins as nat) + " (O) "@ + g.player_o.1@
        + " \u{2502} Games: "@ + dec_of(
        (g.score.player_x_wins + g.score.player_o_wins + g.score.draws) as nat,
    )
}

impl TicTacToe {
    /// Start a new game; X moves first.
    pub fn new(player_x: (String, String), player_o: (String, String), room_id: String) -> (r:
        Self)
        ensures
            r.board@ == Seq::new(9, |i: int| Cell::Empty),
            r.current_turn == Cell::X,
            r.player_x.0@ == player_x.0@ && r.player_x.1@ == player_x.1@,
            r.player_o.0@ == player_o.0@ && r.player_o.1@ == player_o.1@,
            r.room_id@ == room_id@,
            r.score.player_x_wins == 0 && r.score.player_o_wins == 0 && r.score.draws == 0,
            r.result == GameResult::InProgress,
    {
        let r = TicTacToe {
            board: [Cell::Empty; 9],
            current_turn: Cell::X,
            player_x,
            player_o,
            room_id,
            score: GameScore::default(),
            result: GameResult::InProgress,
        };
        proof {
            assert(r.board@ =~= Seq::new(9, |i: int| Cell::Empty));
        }
        r
    }

    /// Start a new round, keeping players and score.
    pub fn new_round(&mut self)
        ensures
            final(self).board@ == Seq::new(9, |i: int| Cell::Empty),
            final(self).current_turn == Cell::X,
            final(self).result == GameResult::InProgress,
            final(self).player_x == old(self).player_x,
            final(self).player_o == old(self).player_o,
            final(self).room_id == old(self).room_id,
            final(self).score == old(self).score,
    {
        self.board = [Cell::Empty; 9];
        self.current_turn = Cell::X;
        self.result = GameResult::InProgress;
        proof {
            assert(self.board@ =~= Seq::new(9, |i: int| Cell::Empty));
        }
    }

    /// Which side a peer plays.
    pub fn player_cell(&self, peer_id: &str) -> (r: Option<Cell>)
        ensures
            r == spec_player_cell(*self, peer_id@),
    {
        if str_eq(self.player_x.0.as_str(), peer_id) {
            Some(Cell::X)
        } else if str_eq(self.player_o.0.as_str(), peer_id) {
            Some(Cell::O)
        } else {
            None
        }
    }

    /// The nickname shown for a side.
    pub fn nick_for(&self, cell: Cell) -> (r: &str)
        ensures
            r@ == spec_nick_for(*self, cell),
    {
        match cell {
            Cell::X => self.player_x.1.as_str(),
            Cell::O => self.player_o.1.as_str(),
            Cell::Empty => "???",
        }
    }

    /// Whether it is this peer's turn.
    pub fn is_my_turn(&self, peer_id: &str) -> (r: bool)
        ensures
            r == (spec_player_cell(*self, peer_id@) == Some(self.current_turn)),
    {
        match self.player_cell(peer_id) {
            Some(c) => c == self.current_turn,
            None => false,
        }
    }

    /// Make a move at a human-friendly position 1-9. On success the cell is
    /// taken, the outcome re-computed, the score updated on a finished
    /// round, and the turn passed otherwise; every invalid move leaves the
    /// game untouched and says why.
    pub fn make_move(&mut self, position: u8, peer_id: &str) -> (r: Result<GameResult, String>)
        requires
            old(self).score.player_x_wins < u32::MAX,
            old(self).score.player_o_wins < u32::MAX,
            old(self).score.draws < u32::MAX,
        ensures
            old(self).result != GameResult::InProgress ==> (r matches Err(m) && m@
                == "Game is already over!"@ && *final(self) == *old(self)),
            old(self).result == GameResult::InProgress && spec_player_cell(*old(self), peer_id@)
                is None ==> (r matches Err(m) && m@ == "You are not a player in this game"@
                && *final(self) == *old(self)),
            ({
                &&& old(self).result == GameResult::InProgress
                &&& spec_player_cell(*old(self), peer_id@) matches Some(c)
                &&& c != old(self).current_turn
            }) ==> (r matches Err(m) && m@ == "Not your turn! Waiting for "@ + spec_nick_for(
                *old(self),
                old(self).current_turn,
            ) && *final(self) == *old(self)),
            (old(self).result == GameResult::InProgress && spec_player_cell(*old(self), peer_id@)
                == Some(old(self).current_turn) && !(1 <= position <= 9)) ==> (r matches Err(m)
                && m@ == "Position must be 1-9"@ && *final(self) == *old(self)),
            (old(self).result == GameResult::InProgress && spec_player_cell(*old(self), peer_id@)
                == Some(old(self).current_turn) && 1 <= position <= 9 && old(self).board@[position
                - 1] != Cell::Empty) ==> (r matches Err(m) && m@ == "That cell is already taken!"@
                && *final(self) == *old(self)),
            (old(self).result == GameResult::InProgress && spec_player_cell(*old(self), peer_id@)
                == Some(old(self).current_turn) && 1 <= position <= 9 && old(self).board@[position
                - 1] == Cell::Empty) ==> {
                let b2 = old(self).board@.update(position - 1, old(self).current_turn);
                let outcome = spec_check_result(b2);
                &&& final(self).board@ == b2
                &&& final(self).result == outcome
                &&& r == Ok::<GameResult, String>(outcome)
                &&& final(self).score == (if outcome != GameResult::InProgress {
                    spec_record(old(self).score, outcome)
                } else {
                    old(self).score
                })
                &&& final(self).current_turn == (if outcome == GameResult::InProgress {
                    if old(self).current_turn == Cell::X {
                        Cell::O
                    } else {
                        Cell::X
                    }
                } else {
                    old(self).current_turn
                })
                &&& final(self).player_x == old(self).player_x
                &&& final(self).player_o == old(self).player_o
                &&& final(self).room_id == old(self).room_id
            },
    {
        if !matches!(self.result, GameResult::InProgress) {
            return Err("Game is already over!".to_owned());
        }

        let cell = match self.player_cell(peer_id) {
            Some(c) => c,
            None => {
                return Err("You are not a player in this game".to_owned());
            },
        };

        if cell != self.current_turn {
            let mut msg = "Not your turn! Waiting for ".to_owned();
            msg.append(self.nick_for(self.current_turn));
            return Err(msg);
        }

        if position < 1 || position > 9 {
            return Err("Position must be 1-9".to_owned());
        }

        let idx = (position - 1) as usize;
        let taken = match self.board[idx] {
            Cell::Empty => false,
            _ => true,
        };
        if taken {
            return Err("That cell is already taken!".to_owned());
        }

        self.board[idx] = cell;

        // Re-compute the outcome; on a finished round record the score,
        // otherwise pass the turn.
        self.result = self.check_result();
        if !matches!(self.result, GameResult::InProgress) {
            let outcome = self.result.clone();
            self.score.record(&outcome);
        } else {
            self.current_turn = match self.current_turn {
                Cell::X => Cell::O,
                Cell::O => Cell::X,
                Cell::Empty => Cell::X,
            };
        }

        Ok(self.result.clone())
    }

    /// Check the board for a winner or a draw.
    fn check_result(&self) -> (r: GameResult)
        ensures
            r == spec_check_result(self.board@),
    {
        let b = &self.board;
        if Self::line(b, 0, 1, 2) {
            return GameResult::Win(b[0]);
        }
        if Self::line(b, 3, 4, 5) {
            return GameResult::Win(b[3]);
        }
        if Self::line(b, 6, 7, 8) {
            return GameResult::Win(b[6]);
        }
        if Self::line(b, 0, 3, 6) {
            return GameResult::Win(b[0]);
        }
        if Self::line(b, 1, 4, 7) {
            return GameResult::Win(b[1]);
        }
        if Self::line(b, 2, 5, 8) {
            return GameResult::Win(b[2]);
        }
        if Self::line(b, 0, 4, 8) {
            return GameResult::Win(b[0]);
        }
        if Self::line(b, 2, 4, 6) {
            return GameResult::Win(b[2]);
        }
        let mut full = true;
        let mut i: usize = 0;
        while i < 9
            invariant
                i <= 9,
                full == (forall|j: int| 0 <= j < i ==> self.board@[j] != Cell::Empty),
            decreases 9 - i,
        {
            if matches!(self.board[i], Cell::Empty) {
                full = false;
            }
            i += 1;
        }
        if full {
            GameResult::Draw
        } else {
            GameResult::InProgress
        }
    }

    /// One board cell as displayed: its symbol, or its position digit when
    /// still empty.
    fn cell_str(&self, i: usize) -> (r: String)
        requires
            i < 9,
        ensures
            r@ == spec_cell_str(self.board@, i as int),
    {
        match self.board[i] {
            Cell::Empty => digit_str((i + 1) as u32).to_owned(),
            Cell::X => "X".to_owned(),
            Cell::O => "O".to_owned(),
        }
    }

    /// One rendered board row over cells `a`, `b`, `c`.
    fn board_row(&self, a: usize, b: usize, c: usize) -> (r: String)
        requires
            a < 9 && b < 9 && c < 9,
        ensures
            r@ == spec_board_row(self.board@, a as int, b as int, c as int),
    {
        let mut s = "\u{2502} ".to_owned();
        let ca = self.cell_str(a);
        s.append(ca.as_str());
        s.append(" \u{2502} ");
        let cb = self.cell_str(b);
        s.append(cb.as_str());
        s.append(" \u{2502} ");
        let cc = self.cell_str(c);
        s.append(cc.as_str());
        s.append(" \u{2502}");
        s
    }

    /// Render the board as text lines for display in chat.
    pub fn render_board(&self) -> (r: Vec<String>)
        ensures
            r@.len() == 7,
            r@[0]@ == "\u{250c}\u{2500}\u{2500}\u{2500}\u{252c}\u{2500}\u{2500}\u{2500}\u{252c}\u{2500}\u{2500}\u{2500}\u{2510}"@,
            r@[1]@ == spec_board_row(self.board@, 0, 1, 2),
            r@[2]@ == "\u{251c}\u{2500}\u{2500}\u{2500}\u{253c}\u{2500}\u{2500}\u{2500}\u{253c}\u{2500}\u{2500}\u{2500}\u{2524}"@,
            r@[3]@ == spec_board_row(self.board@, 3, 4, 5),
            r@[4]@ == "\u{251c}\u{2500}\u{2500}\u{2500}\u{253c}\u{2500}\u{2500}\u{2500}\u{253c}\u{2500}\u{2500}\u{2500}\u{2524}"@,
            r@[5]@ == spec_board_row(self.board@, 6, 7, 8),
            r@[6]@ == "\u{2514}\u{2500}\u{2500}\u{2500}\u{2534}\u{2500}\u{2500}\u{2500}\u{2534}\u{2500}\u{2500}\u{2500}\u{2518}"@,
    {
        let mut out: Vec<String> = Vec::new();
        out.push(
            "\u{250c}\u{2500}\u{2500}\u{2500}\u{252c}\u{2500}\u{2500}\u{2500}\u{252c}\u{2500}\u{2500}\u{2500}\u{2510}".to_owned(),
        );
        out.push(self.board_row(0, 1, 2));
        out.push(
            "\u{251c}\u{2500}\u{2500}\u{2500}\u{253c}\u{2500}\u{2500}\u{2500}\u{253c}\u{2500}\u{2500}\u{2500}\u{2524}".to_owned(),
        );
        out.push(self.board_row(3, 4, 5));
        out.push(
            "\u{251c}\u{2500}\u{2500}\u{2500}\u{253c}\u{2500}\u{2500}\u{2500}\u{253c}\u{2500}\u{2500}\u{2500}\u{2524}".to_owned(),
        );
        out.push(self.board_row(6, 7, 8));
        out.push(
            "\u{2514}\u{2500}\u{2500}\u{2500}\u{2534}\u{2500}\u{2500}\u{2500}\u{2534}\u{2500}\u{2500}\u{2500}\u{2518}".to_owned(),
        );
        out
    }

    /// Render the session score line.
    pub fn render_score(&self) -> (r: String)
        requires
            self.score.player_x_wins + self.score.player_o_wins + self.score.draws <= u32::MAX,
        ensures
            r@ == spec_score_line(*self),
    {
        let mut s = "Score: ".to_owned();
        s.append(self.player_x.1.as_str());
        s.append(" (X) ");
        let xw = u32_dec(self.score.player_x_wins);
        s.append(xw.as_str());
        s.append(" - ");
        let d = u32_dec(self.score.draws);
        s.append(d.as_str());
        s.append(" - ");
        let ow = u32_dec(self.score.player_o_wins);
        s.append(ow.as_str());
        s.append(" (O) ");
        s.append(self.player_o.1.as_str());
        s.append(" \u{2502} Games: ");
        let total = u32_dec(self.score.total_games());
        s.append(total.as_str());
        s
    }

    /// Render the full game status block.
    pub fn render_status(&self) -> (r: Vec<String>)
        requires
            self.score.player_x_wins + self.score.player_o_wins + self.score.draws <= u32::MAX,
        ensures
            r@.len() == (if self.result == GameResult::InProgress {
                13int
            } else {
                15int
            }),
            r@[1]@ == "  "@ + self.player_x.1@ + " (X)  vs  "@ + self.player_o.1@ + " (O)"@,
            r@[4]@ == spec_board_row(self.board@, 0, 1, 2),
            r@[6]@ == spec_board_row(self.board@, 3, 4, 5),
            r@[8]@ == spec_board_row(self.board@, 6, 7, 8),
            self.result matches GameResult::Win(cell) ==> r@[11]@ == "\u{1f3c6} "@ + spec_nick_for(
                *self,
                cell,
            ) + " wins!"@ && r@[12]@ == spec_score_line(*self),
            self.result == GameResult::Draw ==> r@[11]@ == "\u{1f91d} It's a draw!"@ && r@[12]@
                == spec_score_line(*self),
            self.result == GameResult::InProgress ==> r@[11]@ == "Turn: "@ + spec_nick_for(
                *self,
                self.current_turn,
            ) + " ("@ + spec_cell_symbol(self.current_turn) + ") \u{2014} type /move <1-9>"@,
    {
        let mut lines: Vec<String> = Vec::new();
        lines.push(
            "\u{2550}\u{2550}\u{2550}\u{2550}\u{2550}\u{2550}\u{2550}\u{2550}\u{2550}\u{2550}\u{2550} TIC-TAC-TOE \u{2550}\u{2550}\u{2550}\u{2550}\u{2550}\u{2550}\u{2550}\u{2550}\u{2550}\u{2550}\u{2550}".to_owned(),
        );
        let mut vs = "  ".to_owned();
        vs.append(self.player_x.1.as_str());
        vs.append(" (X)  vs  ");
        vs.append(self.player_o.1.as_str());
        vs.append(" (O)");
        lines.push(vs);
        lines.push(String::new());

        let board = self.render_board();
        lines.push(board[0].clone());
        lines.push(board[1].clone());
        lines.push(board[2].clone());
        lines.push(board[3].clone());
        lines.push(board[4].clone());
        lines.push(board[5].clone());
        lines.push(board[6].clone());

        lines.push(String::new());

        match &self.result {
            GameResult::Win(cell) => {
                let mut w = "\u{1f3c6} ".to_owned();
                w.append(self.nick_for(*cell));
                w.append(" wins!");
                lines.push(w);
                lines.push(self.render_score());
                lines.push("Type /game rematch for another round!".to_owned());
            },
            GameResult::Draw => {
                lines.push("\u{1f91d} It's a draw!".to_owned());
                lines.push(self.render_score());
                lines.push("Type /game rematch for another round!".to_owned());
            },
            GameResult::InProgress => {
                let mut t = "Turn: ".to_owned();
                t.append(self.nick_for(self.current_turn));
                t.append(" (");
                t.append(self.current_turn.symbol());
                t.append(") \u{2014} type /move <1-9>");
                lines.push(t);
            },
        }

        lines.push(
            "\u{2550}\u{2550}\u{2550}\u{2550}\u{2550}\u{2550}\u{2550}\u{2550}\u{2550}\u{2550}\u{2550}\u{2550}\u{2550}\u{2550}\u{2550}\u{2550}\u{2550}\u{2550}\u{2550}\u{2550}\u{2550}\u{2550}\u{2550}\u{2550}\u{2550}\u{2550}\u{2550}\u{2550}\u{2550}\u{2550}\u{2550}\u{2550}\u{2550}\u{2550}\u{2550}\u{2550}".to_owned(),
        );
        lines
    }

    /// Whether one line of the board is won.
    fn line(b: &[Cell; 9], i: usize, j: usize, k: usize) -> (r: bool)
        requires
            i < 9 && j < 9 && k < 9,
        ensures
            r == line_won(b@, i as int, j as int, k as int),
    {
        !matches!(b[i], Cell::Empty) && b[i] == b[j] && b[j] == b[k]
    }
}

} // verus!
