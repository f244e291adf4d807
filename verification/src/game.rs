use vstd::prelude::*;

use crate::coord::{coord_at, Coord};
use crate::moves::{move_wf, piece_moves_spec, side_in_check_at, Move, MoveError};
use crate::pieces::{moved_piece, Piece, PieceType, Side};

verus! {

#[derive(Copy, Clone, Debug, PartialEq, Eq, Structural)]
pub enum GameErrors {
    PieceNotOnBoard,
}

#[derive(Copy, Clone, Debug, PartialEq, Eq, Structural)]
pub enum GameState {
    WhiteTurn,
    BlackTurn,
    WhiteWon,
    BlackWon,
    Draw,
}

/// Hands the turn to the other side; terminal states stay as they are.
pub open spec fn swap_spec(s: GameState) -> GameState {
    match s {
        GameState::WhiteTurn => GameState::BlackTurn,
        GameState::BlackTurn => GameState::WhiteTurn,
        _ => s,
    }
}

/// Whether the game is still being played.
pub open spec fn is_playing_spec(s: GameState) -> bool {
    s is WhiteTurn || s is BlackTurn
}

/// The side to move, if the game is ongoing.
pub open spec fn current_side_spec(s: GameState) -> Option<Side> {
    match s {
        GameState::WhiteTurn => Some(Side::White),
        GameState::BlackTurn => Some(Side::Black),
        _ => None,
    }
}

/// The side to move of an ongoing game.
pub open spec fn turn_side(s: GameState) -> Side {
    if s is BlackTurn {
        Side::Black
    } else {
        Side::White
    }
}

impl GameState {
    fn swap_sides(&self) -> (r: Self)
        ensures
            r == swap_spec(*self),
    {
        match self {
            Self::WhiteTurn => Self::BlackTurn,
            Self::BlackTurn => Self::WhiteTurn,
            _ => *self,
        }
    }
}

/// A square holds only a piece whose recorded location is that square.
pub open spec fn square_ok(s: Option<Piece>, i: int) -> bool {
    match s {
        Some(p) => p.loc.index == i,
        None => true,
    }
}

/// A board is 64 squares, each empty or holding a piece that knows it
/// stands there.
pub open spec fn board_wf(b: Seq<Option<Piece>>) -> bool {
    b.len() == 64 && forall|i: int| 0 <= i < 64 ==> square_ok(#[trigger] b[i], i)
}

/// The square of board `b` with file `x` and rank `y`.
pub open spec fn square_at(b: Seq<Option<Piece>>, x: int, y: int) -> Option<Piece> {
    b[crate::coord::coord_index(x, y)]
}

/// The mathematical content of a position: the 64 squares, the cached king
/// locations, the state tag, the last applied move, and the recorded winner.
#[verifier::ext_equal]
pub struct GameView {
    pub board: Seq<Option<Piece>>,
    pub white_king: Coord,
    pub black_king: Coord,
    pub state: GameState,
    pub previous_move: Option<Move>,
    pub winner: Option<Side>,
}

impl GameView {
    /// The board squares and king caches denote real squares.
    pub open spec fn locs_ok(&self) -> bool {
        board_wf(self.board) && self.white_king.wf() && self.black_king.wf()
    }

    /// Each king cache points at a square holding a king of that side.
    pub open spec fn kings_ok(&self) -> bool {
        &&& (match self.board[self.white_king.index as int] {
            Some(p) => p.piece_type is King && p.side is White,
            None => false,
        })
        &&& (match self.board[self.black_king.index as int] {
            Some(p) => p.piece_type is King && p.side is Black,
            None => false,
        })
    }

    pub open spec fn wf(&self) -> bool {
        self.locs_ok() && self.kings_ok()
    }

    /// Whether the game is still being played.
    pub open spec fn is_playing(&self) -> bool {
        is_playing_spec(self.state)
    }
}

/// The cached location of `side`'s king.
pub open spec fn king_loc_of(v: GameView, side: Side) -> Coord {
    match side {
        Side::White => v.white_king,
        Side::Black => v.black_king,
    }
}

/// The board after the squares a move touches are rewritten: the moved
/// piece lands on its destination with its location updated and its
/// moved-flag set, vacated squares are emptied, a promotion puts the new
/// piece on the destination, and an en passant also empties the square of
/// the captured pawn.
pub open spec fn board_after(b: Seq<Option<Piece>>, m: Move) -> Seq<Option<Piece>> {
    match m {
        Move::Standard(s) => b.update(s.to.index as int, Some(moved_piece(s.piece, s.to))).update(
            s.from.index as int,
            None,
        ),
        Move::Castle(c) => b.update(c.king_to.index as int, Some(moved_piece(c.king_piece, c.king_to)))
            .update(c.rook_to.index as int, Some(moved_piece(c.rook_piece, c.rook_to)))
            .update(c.king_from.index as int, None)
            .update(c.rook_from.index as int, None),
        Move::Promotion(p) => b.update(p.to.index as int, Some(p.new_piece)).update(
            p.from.index as int,
            None,
        ),
        Move::EnPassant(e) => b.update(e.to.index as int, Some(moved_piece(e.piece, e.to))).update(
            e.from.index as int,
            None,
        ).update(e.coord_taken.index as int, None),
    }
}

/// Where the white king's cache points after `m`: the king's destination
/// when `m` moves the white king, unchanged otherwise.
pub open spec fn wk_after(v: GameView, m: Move) -> Coord {
    match m {
        Move::Standard(s) => if s.piece.piece_type is King && s.piece.side is White {
            s.to
        } else {
            v.white_king
        },
        Move::Castle(c) => if c.king_piece.side is White {
            c.king_to
        } else {
            v.white_king
        },
        _ => v.white_king,
    }
}

/// Where the black king's cache points after `m`.
pub open spec fn bk_after(v: GameView, m: Move) -> Coord {
    match m {
        Move::Standard(s) => if s.piece.piece_type is King && s.piece.side is Black {
            s.to
        } else {
            v.black_king
        },
        Move::Castle(c) => if c.king_piece.side is Black {
            c.king_to
        } else {
            v.black_king
        },
        _ => v.black_king,
    }
}

/// The whole position after `m` is applied: board and king caches rewritten,
/// the turn handed to the other side, and `m` remembered as the last move.
pub open spec fn game_after(v: GameView, m: Move) -> GameView {
    GameView {
        board: board_after(v.board, m),
        white_king: wk_after(v, m),
        black_king: bk_after(v, m),
        state: swap_spec(v.state),
        previous_move: Some(m),
        winner: v.winner,
    }
}

/// Applying a well-formed move to a well-formed board yields a well-formed
/// board: every piece still knows the square it stands on.
pub proof fn lemma_game_after_locs_ok(v: GameView, m: Move)
    requires
        v.locs_ok(),
        move_wf(m),
    ensures
        game_after(v, m).locs_ok(),
{
    let b2 = board_after(v.board, m);
    match m {
        Move::Standard(s) => {
            assert(forall|i: int| 0 <= i < 64 ==> square_ok(#[trigger] b2[i], i));
        },
        Move::Castle(c) => {
            assert(forall|i: int| 0 <= i < 64 ==> square_ok(#[trigger] b2[i], i));
        },
        Move::Promotion(p) => {
            assert(forall|i: int| 0 <= i < 64 ==> square_ok(#[trigger] b2[i], i));
        },
        Move::EnPassant(e) => {
            assert(forall|i: int| 0 <= i < 64 ==> square_ok(#[trigger] b2[i], i));
        },
    }
}

#[derive(Clone, Copy)]
pub struct Game {
    board: [Option<Piece>; 64],
    white_king_loc: Coord,
    black_king_loc: Coord,
    state: GameState,
    previous_move: Option<Move>,
    winner: Option<Side>,
}

impl View for Game {
    type V = GameView;

    closed spec fn view(&self) -> GameView {
        GameView {
            board: self.board@,
            white_king: self.white_king_loc,
            black_king: self.black_king_loc,
            state: self.state,
            previous_move: self.previous_move,
            winner: self.winner,
        }
    }
}

impl Game {
    /// Returns the square on the board given by a Coord.
    pub fn get_piece_at(&self, coord: Coord) -> (r: Option<Piece>)
        requires
            coord.wf(),
        ensures
            r == self@.board[coord.index as int],
    {
        self.board[coord.get_index()]
    }

    /// Gets a Piece struct for the White King on the board
    pub fn get_white_king(&self) -> (r: Piece)
        requires
            self@.locs_ok(),
            self@.kings_ok(),
        ensures
            Some(r) == self@.board[self@.white_king.index as int],
            r.piece_type is King,
            r.side is White,
            r.loc == self@.white_king,
    {
        self.board[self.white_king_loc.get_index()].unwrap()
    }

    /// Gets a Piece struct for the Black King on the board
    pub fn get_black_king(&self) -> (r: Piece)
        requires
            self@.locs_ok(),
            self@.kings_ok(),
        ensures
            Some(r) == self@.board[self@.black_king.index as int],
            r.piece_type is King,
            r.side is Black,
            r.loc == self@.black_king,
    {
        self.board[self.black_king_loc.get_index()].unwrap()
    }

    /// Gets the previous move
    pub fn get_previous_move(&self) -> (r: Option<Move>)
        ensures
            r == self@.previous_move,
    {
        self.previous_move
    }

    /// Gets the winner recorded by `apply_unchecked_move` once a move leaves
    /// the opponent without a legal reply.  Returns `None` while the game is
    /// ongoing.  Superseded by `is_playing` and `current_side`.
    pub fn get_winner(&self) -> (r: Option<Side>)
        ensures
            r == self@.winner,
    {
        self.winner
    }

    /// Gets the game's state: whose turn it is, who has won, or a draw
    pub fn get_state(&self) -> (r: GameState)
        ensures
            r == self@.state,
    {
        self.state
    }

    /// Check whether the game is ongoing
    pub fn is_playing(&self) -> (r: bool)
        ensures
            r == self@.is_playing(),
    {
        match self.state {
            GameState::WhiteTurn | GameState::BlackTurn => true,
            _ => false,
        }
    }

    /// Gets the side to make a move if game is ongoing. If a side
    /// has won or is stalemate then returns none
    pub fn current_side(&self) -> (r: Option<Side>)
        ensures
            r == current_side_spec(self@.state),
    {
        match self.state {
            GameState::WhiteTurn => Some(Side::White),
            GameState::BlackTurn => Some(Side::Black),
            _ => None,
        }
    }

    /// Rewrites the board for one move: occupies the destination squares,
    /// clears the vacated ones, refreshes the king cache, hands the turn to
    /// the other side, and remembers the move.
    pub(crate) fn move_piece(&mut self, move_: Move)
        requires
            move_wf(move_),
        ensures
            final(self)@ == game_after(old(self)@, move_),
            old(self)@.locs_ok() ==> final(self)@.locs_ok(),
    {
        proof {
            if old(self)@.locs_ok() {
                lemma_game_after_locs_ok(old(self)@, move_);
            }
        }
        match move_ {
            Move::Standard(m) => {
                // Make square "to" have the piece
                let mut piece = m.piece;
                let piece = piece.move_to(m.to);
                self.board[m.to.get_index()] = Some(piece);

                // Remove the piece from the old position
                self.board[m.from.get_index()] = None;

                // If the piece is a king then the cache in self needs updating
                if m.piece.is_type(PieceType::King) {
                    match m.piece.get_side() {
                        Side::White => self.white_king_loc = m.to,
                        Side::Black => self.black_king_loc = m.to,
                    }
                }
            },
            Move::Castle(m) => {
                // Move king and rook
                let mut king_piece = m.king_piece;
                let king_piece = king_piece.move_to(m.king_to);
                self.board[m.king_to.get_index()] = Some(king_piece);
                let mut rook_piece = m.rook_piece;
                let rook_piece = rook_piece.move_to(m.rook_to);
                self.board[m.rook_to.get_index()] = Some(rook_piece);

                // Remove king and rook from old squares
                self.board[m.king_from.get_index()] = None;
                self.board[m.rook_from.get_index()] = None;

                // Update the king cache
                match m.king_piece.get_side() {
                    Side::White => self.white_king_loc = m.king_to,
                    Side::Black => self.black_king_loc = m.king_to,
                }
            },
            Move::Promotion(m) => {
                // Add promoted piece
                self.board[m.to.get_index()] = Some(m.new_piece);

                // Remove old piece
                self.board[m.from.get_index()] = None;
            },
            Move::EnPassant(m) => {
                // Move the pawn
                let mut piece = m.piece;
                let piece = piece.move_to(m.to);
                self.board[m.to.get_index()] = Some(piece);

                // Remove the pawn from the old square
                self.board[m.from.get_index()] = None;

                // Remove the taken piece
                self.board[m.coord_taken.get_index()] = None;
            },
        }

        // Swap the turn player
        self.state = self.state.swap_sides();

        // Update the previous move
        self.previous_move = Some(move_);

        proof {
            assert(final(self)@ =~= game_after(old(self)@, move_));
        }
    }

    pub fn is_side_in_check(&self, side: Side) -> (r: bool)
        requires
            self@.locs_ok(),
        ensures
            r == side_in_check_at(self@.board, king_loc_of(self@, side), side),
    {
        let other_targets = crate::moves::get_side_targets(self, side.other());

        let king_loc = match side {
            Side::White => self.white_king_loc,
            Side::Black => self.black_king_loc,
        };

        crate::moves::coords_contain(&other_targets, king_loc)
    }

    /// Whether the side to move stands in check; a won game counts as check
    /// for the loser, a draw does not.
    pub open spec fn is_in_check_spec(v: GameView) -> bool {
        match v.state {
            GameState::WhiteTurn => side_in_check_at(v.board, v.white_king, Side::White),
            GameState::BlackTurn => side_in_check_at(v.board, v.black_king, Side::Black),
            GameState::WhiteWon | GameState::BlackWon => true,
            GameState::Draw => false,
        }
    }

    pub fn is_in_check(&self) -> (r: bool)
        requires
            self@.locs_ok(),
        ensures
            r == Game::is_in_check_spec(self@),
    {
        match self.state {
            GameState::WhiteTurn => self.is_side_in_check(Side::White),
            GameState::BlackTurn => self.is_side_in_check(Side::Black),
            GameState::WhiteWon | GameState::BlackWon => true,
            GameState::Draw => false,
        }
    }

    /// Gets all the pieces of the current side and returns them
    /// in a vector, in board order
    pub fn get_pieces(&self) -> (r: Vec<Piece>)
        requires
            self@.is_playing(),
        ensures
            r@ == side_pieces_upto(self@.board, turn_side(self@.state), 64),
    {
        let side = match self.state {
            GameState::BlackTurn => Side::Black,
            _ => Side::White,
        };

        let mut pieces: Vec<Piece> = Vec::new();
        let mut i: usize = 0;
        while i < 64
            invariant
                i <= 64,
                pieces@ == side_pieces_upto(self@.board, side, i as int),
            decreases 64 - i,
        {
            match self.get_piece_at(Coord::from_index(i)) {
                Some(piece) => {
                    if piece.is_side(side) {
                        pieces.push(piece);
                    }
                },
                None => {},
            }
            proof {
                assert(pieces@ =~= side_pieces_upto(self@.board, side, i + 1));
            }
            i += 1;
        }
        pieces
    }

    pub fn get_moves_for_piece(&self, piece: Piece) -> (r: Result<Vec<Move>, GameErrors>)
        requires
            self@.locs_ok(),
            piece.loc.wf(),
        ensures
            match r {
                Ok(v) => self@.board[piece.loc.index as int] == Some(piece) && v@
                    == piece_moves_spec(self@, piece),
                Err(e) => self@.board[piece.loc.index as int] != Some(piece) && e
                    is PieceNotOnBoard,
            },
    {
        let on_board = match self.get_piece_at(piece.get_loc()) {
            Some(p) => p == piece,
            None => false,
        };
        if !on_board {
            return Err(GameErrors::PieceNotOnBoard);
        }

        Ok(crate::moves::get_piece_moves(self, piece))
    }

    /// This does not check whether the piece in question is on the board. For
    /// a safer function that validates the piece use `Game::get_moves_for_piece`
    pub fn get_moves_for_unchecked_piece(&self, piece: Piece) -> (r: Vec<Move>)
        requires
            self@.locs_ok(),
            piece.loc.wf(),
        ensures
            r@ == piece_moves_spec(self@, piece),
    {
        crate::moves::get_piece_moves(self, piece)
    }

    /// Gets all the valid moves for the turn player
    pub fn get_valid_moves(&self) -> (r: Vec<Move>)
        requires
            self@.locs_ok(),
            self@.is_playing(),
        ensures
            r@ == valid_moves_spec(self@),
            forall|j: int| 0 <= j < r@.len() ==> move_wf(#[trigger] r@[j]),
    {
        let side = match self.state {
            GameState::BlackTurn => Side::Black,
            _ => Side::White,
        };

        let mut moves: Vec<Move> = Vec::new();
        let mut i: usize = 0;
        while i < 64
            invariant
                i <= 64,
                self@.locs_ok(),
                side == turn_side(self@.state),
                moves@ == side_moves_upto(self@, side, i as int),
                forall|j: int| 0 <= j < moves@.len() ==> move_wf(#[trigger] moves@[j]),
            decreases 64 - i,
        {
            match self.get_piece_at(Coord::from_index(i)) {
                Some(piece) => {
                    if piece.is_side(side) {
                        let mut pm = crate::moves::get_piece_moves(self, piece);
                        moves.append(&mut pm);
                    }
                },
                None => {},
            }
            proof {
                assert(moves@ =~= side_moves_upto(self@, side, i + 1));
            }
            i += 1;
        }
        moves
    }

    /// Force the move to be made on the board. There is no check that the
    /// move is valid, and the position that results from an invalid move may
    /// break the game's own invariants.  If unsure whether the move is valid
    /// use the safer `apply_move` function.  Superseded by `apply_move` and
    /// `make_move`.
    pub fn apply_unchecked_move(&mut self, move_: Move, check_checkmate: bool) -> (r: Game)
        requires
            move_wf(move_),
            check_checkmate ==> old(self)@.locs_ok() && old(self)@.is_playing(),
        ensures
            final(self)@ == ({
                let mid = game_after(old(self)@, move_);
                if check_checkmate && valid_moves_spec(mid).len() == 0 {
                    GameView { winner: Some(move_.spec_side()), ..mid }
                } else {
                    mid
                }
            }),
            r == *final(self),
            old(self)@.locs_ok() ==> final(self)@.locs_ok(),
    {
        self.move_piece(move_);

        if check_checkmate {
            if self.get_valid_moves().len() == 0 {
                self.winner = Some(move_.get_side());
            }
        }

        *self
    }

    fn update_state(&mut self)
        requires
            old(self)@.locs_ok(),
            old(self)@.is_playing(),
        ensures
            final(self)@ == (GameView { state: state_after_update(old(self)@), ..old(self)@ }),
    {
        if self.get_valid_moves().len() == 0 {
            if self.is_in_check() {
                // The side to move has no reply to the check: the other side won
                self.state = match self.state {
                    GameState::BlackTurn => GameState::WhiteWon,
                    _ => GameState::BlackWon,
                };
            } else {
                self.state = GameState::Draw;
            }
        }
        proof {
            assert(final(self)@ =~= (GameView {
                state: state_after_update(old(self)@),
                ..old(self)@
            }));
        }
    }

    pub fn apply_move(&mut self, move_: Move) -> (r: Result<(), MoveError>)
        requires
            old(self)@.locs_ok(),
        ensures
            match r {
                Ok(_) => old(self)@.is_playing() && valid_moves_spec(old(self)@).contains(move_)
                    && final(self)@ == ({
                    let mid = game_after(old(self)@, move_);
                    let recorded = if valid_moves_spec(mid).len() == 0 {
                        GameView { winner: Some(move_.spec_side()), ..mid }
                    } else {
                        mid
                    };
                    GameView { state: state_after_update(recorded), ..recorded }
                }) && final(self)@.locs_ok(),
                Err(e) => e is InvalidMove && *final(self) == *old(self) && !(old(
                    self,
                )@.is_playing() && valid_moves_spec(old(self)@).contains(move_)),
            },
    {
        if !self.is_playing() {
            return Err(MoveError::InvalidMove);
        }

        let valid = self.get_valid_moves();
        if moves_contain(&valid, move_) {
            proof {
                let j = choose|j: int| 0 <= j < valid@.len() && valid@[j] == move_;
                assert(move_wf(valid@[j]));
            }
            // The move has been checked, so the unchecked application is safe
            self.apply_unchecked_move(move_, true);
            // Re-evaluate terminal status for the new side to move
            self.update_state();
            Ok(())
        } else {
            Err(MoveError::InvalidMove)
        }
    }

    pub fn make_move(&mut self, move_: Move) -> (r: Result<(), MoveError>)
        requires
            old(self)@.locs_ok(),
        ensures
            match r {
                Ok(_) => old(self)@.is_playing() && valid_moves_spec(old(self)@).contains(move_)
                    && final(self)@ == ({
                    let mid = game_after(old(self)@, move_);
                    GameView { state: state_after_update(mid), ..mid }
                }) && final(self)@.locs_ok(),
                Err(e) => e is InvalidMove && *final(self) == *old(self) && !(old(
                    self,
                )@.is_playing() && valid_moves_spec(old(self)@).contains(move_)),
            },
    {
        if !self.is_playing() {
            return Err(MoveError::InvalidMove);
        }

        let valid = self.get_valid_moves();
        if moves_contain(&valid, move_) {
            proof {
                let j = choose|j: int| 0 <= j < valid@.len() && valid@[j] == move_;
                assert(move_wf(valid@[j]));
            }
            self.move_piece(move_);
            self.update_state();
            Ok(())
        } else {
            Err(MoveError::InvalidMove)
        }
    }
}

/// The pieces of `side` standing on the first `n` board squares, in board
/// order.
pub open spec fn side_pieces_upto(b: Seq<Option<Piece>>, side: Side, n: int) -> Seq<Piece>
    decreases n,
{
    if n <= 0 {
        Seq::empty()
    } else {
        side_pieces_upto(b, side, n - 1) + (match b[n - 1] {
            Some(p) => if p.side == side {
                seq![p]
            } else {
                Seq::empty()
            },
            None => Seq::empty(),
        })
    }
}

/// The legal moves of the pieces of `side` standing on the first `n` board
/// squares, in board order.
pub open spec fn side_moves_upto(v: GameView, side: Side, n: int) -> Seq<Move>
    decreases n,
{
    if n <= 0 {
        Seq::empty()
    } else {
        side_moves_upto(v, side, n - 1) + (match v.board[n - 1] {
            Some(p) => if p.side == side {
                piece_moves_spec(v, p)
            } else {
                Seq::empty()
            },
            None => Seq::empty(),
        })
    }
}

/// The full legal-move set of the side to move.
pub open spec fn valid_moves_spec(v: GameView) -> Seq<Move> {
    side_moves_upto(v, turn_side(v.state), 64)
}

/// The state tag after the legal moves of the side to move are re-examined:
/// no moves and in check means the other side has won, no moves without
/// check is a draw, and otherwise the state stands.
pub open spec fn state_after_update(v: GameView) -> GameState {
    if valid_moves_spec(v).len() == 0 {
        if Game::is_in_check_spec(v) {
            match turn_side(v.state) {
                Side::White => GameState::BlackWon,
                Side::Black => GameState::WhiteWon,
            }
        } else {
            GameState::Draw
        }
    } else {
        v.state
    }
}

/// The piece type standing on file `x` of a back rank at the start of a
/// game.
pub open spec fn back_rank_type(x: int) -> PieceType {
    if x == 0 || x == 7 {
        PieceType::Rook
    } else if x == 1 || x == 6 {
        PieceType::Knight
    } else if x == 2 || x == 5 {
        PieceType::Bishop
    } else if x == 3 {
        PieceType::Queen
    } else {
        PieceType::King
    }
}

/// The contents of square `i` in the standard starting position: Black's
/// back rank and pawns on the top two ranks, White's pawns and back rank on
/// the bottom two, nothing between.
pub open spec fn start_piece(i: int) -> Option<Piece> {
    if 0 <= i < 8 {
        Some(
            Piece {
                side: Side::Black,
                has_moved: false,
                piece_type: back_rank_type(i),
                loc: Coord { index: i as usize },
            },
        )
    } else if 8 <= i < 16 {
        Some(
            Piece {
                side: Side::Black,
                has_moved: false,
                piece_type: PieceType::Pawn,
                loc: Coord { index: i as usize },
            },
        )
    } else if 48 <= i < 56 {
        Some(
            Piece {
                side: Side::White,
                has_moved: false,
                piece_type: PieceType::Pawn,
                loc: Coord { index: i as usize },
            },
        )
    } else if 56 <= i < 64 {
        Some(
            Piece {
                side: Side::White,
                has_moved: false,
                piece_type: back_rank_type(i - 56),
                loc: Coord { index: i as usize },
            },
        )
    } else {
        None
    }
}

/// The standard starting board.
pub open spec fn start_board() -> Seq<Option<Piece>> {
    Seq::new(64, |i: int| start_piece(i))
}

fn back_type(x: usize) -> (r: PieceType)
    requires
        x < 8,
    ensures
        r == back_rank_type(x as int),
{
    if x == 0 || x == 7 {
        PieceType::Rook
    } else if x == 1 || x == 6 {
        PieceType::Knight
    } else if x == 2 || x == 5 {
        PieceType::Bishop
    } else if x == 3 {
        PieceType::Queen
    } else {
        PieceType::King
    }
}

fn start_square(i: usize) -> (r: Option<Piece>)
    requires
        i < 64,
    ensures
        r == start_piece(i as int),
{
    let x = i % 8;
    if i < 8 {
        Some(Piece::new(Side::Black, false, back_type(x), Coord::from_index(i)))
    } else if i < 16 {
        Some(Piece::new(Side::Black, false, PieceType::Pawn, Coord::from_index(i)))
    } else if i < 48 {
        None
    } else if i < 56 {
        Some(Piece::new(Side::White, false, PieceType::Pawn, Coord::from_index(i)))
    } else {
        Some(Piece::new(Side::White, false, back_type(x), Coord::from_index(i)))
    }
}

impl Game {
    /// The standard starting position, White to move.
    pub fn new() -> (r: Self)
        ensures
            r@.board == start_board(),
            r@.white_king == coord_at(4, 0),
            r@.black_king == coord_at(4, 7),
            r@.state is WhiteTurn,
            r@.previous_move is None,
            r@.winner is None,
            r@.wf(),
    {
        let mut board: [Option<Piece>; 64] = [None; 64];

        let mut i: usize = 0;
        while i < 64
            invariant
                i <= 64,
                board@.len() == 64,
                forall|j: int| 0 <= j < i ==> board@[j] == start_piece(j),
            decreases 64 - i,
        {
            board[i] = start_square(i);
            i += 1;
        }

        proof {
            assert(board@ =~= start_board());
        }

        Game {
            board,
            white_king_loc: Coord::from_x_and_y(4, 0),
            black_king_loc: Coord::from_x_and_y(4, 7),
            state: GameState::WhiteTurn,
            previous_move: None,
            winner: None,
        }
    }
}

/// The index of the first occupied square at or after `i`, if any.
pub open spec fn first_occupied_from(b: Seq<Option<Piece>>, i: int) -> Option<int>
    decreases 64 - i,
{
    if i < 0 || i >= 64 {
        None
    } else if b[i] is Some {
        Some(i)
    } else {
        first_occupied_from(b, i + 1)
    }
}

/// Walks the occupied squares of a position in board order.
pub struct GameIter<'a> {
    game: &'a Game,
    i: usize,
}

impl<'a> GameIter<'a> {
    /// The position being walked.
    pub closed spec fn src(&self) -> GameView {
        self.game@
    }

    /// The next square to look at.
    pub closed spec fn pos(&self) -> int {
        self.i as int
    }

    /// The next piece in board order, if any square at or after the current
    /// position is occupied.
    pub fn next(&mut self) -> (r: Option<Piece>)
        ensures
            final(self).src() == old(self).src(),
            match first_occupied_from(old(self).src().board, old(self).pos()) {
                Some(j) => r == old(self).src().board[j] && r is Some && final(self).pos() == j
                    + 1,
                None => r is None,
            },
    {
        loop
            invariant
                self.game == old(self).game,
                old(self).pos() <= self.pos(),
                first_occupied_from(self.src().board, old(self).pos()) == first_occupied_from(
                    self.src().board,
                    self.pos(),
                ),
            decreases 64 - self.i,
        {
            if self.i >= 64 {
                return None;
            }
            let idx = self.i;
            self.i = self.i + 1;
            match self.game.board[idx] {
                Some(item) => {
                    return Some(item);
                },
                None => {},
            }
        }
    }
}

impl Game {
    pub fn iter(&self) -> (r: GameIter<'_>)
        ensures
            r.src() == self@,
            r.pos() == 0,
    {
        GameIter { game: self, i: 0 }
    }
}

/// What one character of a board string stands for: `None` when the
/// character is not a recognised code, otherwise the contents of square `i`
/// (uppercase for White, lowercase for Black, `.` for an empty square).
pub open spec fn decode_square(c: char, i: int) -> Option<Option<Piece>> {
    if c == '.' {
        Some(None)
    } else if c == 'K' {
        Some(
            Some(
                Piece {
                    side: Side::White,
                    has_moved: false,
                    piece_type: PieceType::King,
                    loc: Coord { index: i as usize },
                },
            ),
        )
    } else if c == 'Q' {
        Some(
            Some(
                Piece {
                    side: Side::White,
                    has_moved: false,
                    piece_type: PieceType::Queen,
                    loc: Coord { index: i as usize },
                },
            ),
        )
    } else if c == 'B' {
        Some(
            Some(
                Piece {
                    side: Side::White,
                    has_moved: false,
                    piece_type: PieceType::Bishop,
                    loc: Coord { index: i as usize },
                },
            ),
        )
    } else if c == 'N' {
        Some(
            Some(
                Piece {
                    side: Side::White,
                    has_moved: false,
                    piece_type: PieceType::Knight,
                    loc: Coord { index: i as usize },
                },
            ),
        )
    } else if c == 'R' {
        Some(
            Some(
                Piece {
                    side: Side::White,
                    has_moved: false,
                    piece_type: PieceType::Rook,
                    loc: Coord { index: i as usize },
                },
            ),
        )
    } else if c == 'P' {
        Some(
            Some(
                Piece {
                    side: Side::White,
                    has_moved: false,
                    piece_type: PieceType::Pawn,
                    loc: Coord { index: i as usize },
                },
            ),
        )
    } else if c == 'k' {
        Some(
            Some(
                Piece {
                    side: Side::Black,
                    has_moved: false,
                    piece_type: PieceType::King,
                    loc: Coord { index: i as usize },
                },
            ),
        )
    } else if c == 'q' {
        Some(
            Some(
                Piece {
                    side: Side::Black,
                    has_moved: false,
                    piece_type: PieceType::Queen,
                    loc: Coord { index: i as usize },
                },
            ),
        )
    } else if c == 'b' {
        Some(
            Some(
                Piece {
                    side: Side::Black,
                    has_moved: false,
                    piece_type: PieceType::Bishop,
                    loc: Coord { index: i as usize },
                },
            ),
        )
    } else if c == 'n' {
        Some(
            Some(
                Piece {
                    side: Side::Black,
                    has_moved: false,
                    piece_type: PieceType::Knight,
                    loc: Coord { index: i as usize },
                },
            ),
        )
    } else if c == 'r' {
        Some(
            Some(
                Piece {
                    side: Side::Black,
                    has_moved: false,
                    piece_type: PieceType::Rook,
                    loc: Coord { index: i as usize },
                },
            ),
        )
    } else if c == 'p' {
        Some(
            Some(
                Piece {
                    side: Side::Black,
                    has_moved: false,
                    piece_type: PieceType::Pawn,
                    loc: Coord { index: i as usize },
                },
            ),
        )
    } else {
        None
    }
}

/// Whether every character of a 64-character board string is recognised.
pub open spec fn chars_ok(s: Seq<char>) -> bool {
    forall|i: int| 0 <= i < 64 ==> decode_square(#[trigger] s[i], i) is Some
}

/// The board a well-formed 64-character board string denotes.
pub open spec fn parsed_board(s: Seq<char>) -> Seq<Option<Piece>> {
    Seq::new(64, |i: int| decode_square(s[i], i)->Some_0)
}

/// The square of the last piece of `side` that is a king among the first `n`
/// board squares.
pub open spec fn king_scan(b: Seq<Option<Piece>>, side: Side, n: int) -> Option<Coord>
    decreases n,
{
    if n <= 0 {
        None
    } else {
        match b[n - 1] {
            Some(p) => if p.piece_type is King && p.side == side {
                Some(p.loc)
            } else {
                king_scan(b, side, n - 1)
            },
            None => king_scan(b, side, n - 1),
        }
    }
}

/// A king found by the scan stands on the board where its location says.
proof fn lemma_king_scan(b: Seq<Option<Piece>>, side: Side, n: int)
    requires
        board_wf(b),
        0 <= n <= 64,
    ensures
        match king_scan(b, side, n) {
            Some(c) => c.wf() && (match b[c.index as int] {
                Some(p) => p.piece_type is King && p.side == side && p.loc == c,
                None => false,
            }),
            None => true,
        },
    decreases n,
{
    if n > 0 {
        lemma_king_scan(b, side, n - 1);
    }
}

/// Error types from parsing strings representing the board
#[derive(Copy, Clone, Debug, PartialEq, Eq, Structural)]
pub enum BoardStringParseError {
    UnexpectedCharacter,
    NoWhiteKing,
    NoBlackKing,
}

fn board_from_string(code: &str) -> (r: Result<[Option<Piece>; 64], BoardStringParseError>)
    requires
        code@.len() == 64,
    ensures
        match r {
            Ok(b) => chars_ok(code@) && b@ == parsed_board(code@),
            Err(e) => !chars_ok(code@) && e is UnexpectedCharacter,
        },
{
    let mut board: [Option<Piece>; 64] = [None; 64];

    let mut i: usize = 0;
    while i < 64
        invariant
            i <= 64,
            code@.len() == 64,
            board@.len() == 64,
            forall|j: int|
                0 <= j < i ==> decode_square(#[trigger] code@[j], j) is Some && board@[j]
                    == decode_square(code@[j], j)->Some_0,
        decreases 64 - i,
    {
        let c = code.get_char(i);
        let square: Option<Piece> = match c {
            'K' => Some(Piece::new(Side::White, false, PieceType::King, Coord::from_index(i))),
            'Q' => Some(Piece::new(Side::White, false, PieceType::Queen, Coord::from_index(i))),
            'B' => Some(Piece::new(Side::White, false, PieceType::Bishop, Coord::from_index(i))),
            'N' => Some(Piece::new(Side::White, false, PieceType::Knight, Coord::from_index(i))),
            'R' => Some(Piece::new(Side::White, false, PieceType::Rook, Coord::from_index(i))),
            'P' => Some(Piece::new(Side::White, false, PieceType::Pawn, Coord::from_index(i))),
            'k' => Some(Piece::new(Side::Black, false, PieceType::King, Coord::from_index(i))),
            'q' => Some(Piece::new(Side::Black, false, PieceType::Queen, Coord::from_index(i))),
            'b' => Some(Piece::new(Side::Black, false, PieceType::Bishop, Coord::from_index(i))),
            'n' => Some(Piece::new(Side::Black, false, PieceType::Knight, Coord::from_index(i))),
            'r' => Some(Piece::new(Side::Black, false, PieceType::Rook, Coord::from_index(i))),
            'p' => Some(Piece::new(Side::Black, false, PieceType::Pawn, Coord::from_index(i))),
            '.' => None,
            _ => {
                return Err(BoardStringParseError::UnexpectedCharacter);
            },
        };
        board[i] = square;
        i += 1;
    }

    proof {
        assert(board@ =~= parsed_board(code@));
    }
    Ok(board)
}

impl Game {
    /// Loads a position from a 64-character board string, rank-major from
    /// the top: a letter per occupied square (uppercase White, lowercase
    /// Black, `K/Q/B/N/R/P`), `.` for an empty square.
    pub fn from_string(code: &str, start_side: Side) -> (r: Result<Game, BoardStringParseError>)
        requires
            code@.len() == 64,
        ensures
            match r {
                Ok(g) => {
                    let b = parsed_board(code@);
                    chars_ok(code@) && Some(g@.white_king) == king_scan(b, Side::White, 64) && Some(
                        g@.black_king,
                    ) == king_scan(b, Side::Black, 64) && g@.board == b && g@.state == (
                    match start_side {
                        Side::White => GameState::WhiteTurn,
                        Side::Black => GameState::BlackTurn,
                    }) && g@.previous_move is None && g@.winner is None && g@.wf()
                },
                Err(e) => match e {
                    BoardStringParseError::UnexpectedCharacter => !chars_ok(code@),
                    BoardStringParseError::NoWhiteKing => chars_ok(code@) && king_scan(
                        parsed_board(code@),
                        Side::White,
                        64,
                    ) is None,
                    BoardStringParseError::NoBlackKing => chars_ok(code@) && king_scan(
                        parsed_board(code@),
                        Side::Black,
                        64,
                    ) is None,
                },
            },
    {
        let board = match board_from_string(code) {
            Ok(b) => b,
            Err(e) => {
                return Err(e);
            },
        };

        let mut white_king_loc: Option<Coord> = None;
        let mut black_king_loc: Option<Coord> = None;

        let mut i: usize = 0;
        while i < 64
            invariant
                i <= 64,
                board@.len() == 64,
                white_king_loc == king_scan(board@, Side::White, i as int),
                black_king_loc == king_scan(board@, Side::Black, i as int),
            decreases 64 - i,
        {
            match board[i] {
                Some(piece) => {
                    // Check if the piece is a king to record its location
                    if piece.is_type(PieceType::King) {
                        match piece.get_side() {
                            Side::White => white_king_loc = Some(piece.get_loc()),
                            Side::Black => black_king_loc = Some(piece.get_loc()),
                        }
                    }
                },
                None => {},
            }
            i += 1;
        }

        // Ensure there are kings
        let white_king_loc = match white_king_loc {
            Some(c) => c,
            None => {
                return Err(BoardStringParseError::NoWhiteKing);
            },
        };
        let black_king_loc = match black_king_loc {
            Some(c) => c,
            None => {
                return Err(BoardStringParseError::NoBlackKing);
            },
        };

        let start_state = match start_side {
            Side::White => GameState::WhiteTurn,
            Side::Black => GameState::BlackTurn,
        };

        let g = Game {
            board,
            white_king_loc,
            black_king_loc,
            state: start_state,
            previous_move: None,
            winner: None,
        };
        proof {
            lemma_king_scan(board@, Side::White, 64);
            lemma_king_scan(board@, Side::Black, 64);
        }
        Ok(g)
    }
}

/// The letter a piece renders as, as text.
pub open spec fn piece_text(p: Piece) -> Seq<char> {
    match p.side {
        Side::White => match p.piece_type {
            PieceType::King => "K"@,
            PieceType::Queen => "Q"@,
            PieceType::Bishop => "B"@,
            PieceType::Knight => "N"@,
            PieceType::Rook => "R"@,
            PieceType::Pawn => "P"@,
        },
        Side::Black => match p.piece_type {
            PieceType::King => "k"@,
            PieceType::Queen => "q"@,
            PieceType::Bishop => "b"@,
            PieceType::Knight => "n"@,
            PieceType::Rook => "r"@,
            PieceType::Pawn => "p"@,
        },
    }
}

/// The text of one rendered square.
pub open spec fn square_text(s: Option<Piece>) -> Seq<char> {
    match s {
        Some(p) => piece_text(p),
        None => "."@,
    }
}

/// The first `n` squares of the rendered board: each square's letter
/// followed by a space, with a line break after every rank.
pub open spec fn board_text(b: Seq<Option<Piece>>, n: int) -> Seq<char>
    decreases n,
{
    if n <= 0 {
        Seq::empty()
    } else {
        board_text(b, n - 1) + square_text(b[n - 1]) + " "@ + (if n % 8 == 0 {
            "\n"@
        } else {
            Seq::empty()
        })
    }
}

/// The status line under the rendered board.
pub open spec fn state_text(s: GameState) -> Seq<char> {
    match s {
        GameState::WhiteTurn => "White to move"@,
        GameState::BlackTurn => "Black to move"@,
        GameState::WhiteWon => "White has won"@,
        GameState::BlackWon => "Black has won"@,
        GameState::Draw => "Draw"@,
    }
}

fn piece_str(piece: &Piece) -> (r: &'static str)
    ensures
        r@ == piece_text(*piece),
{
    match piece.side {
        Side::White => match piece.piece_type {
            PieceType::King => "K",
            PieceType::Queen => "Q",
            PieceType::Bishop => "B",
            PieceType::Knight => "N",
            PieceType::Rook => "R",
            PieceType::Pawn => "P",
        },
        Side::Black => match piece.piece_type {
            PieceType::King => "k",
            PieceType::Queen => "q",
            PieceType::Bishop => "b",
            PieceType::Knight => "n",
            PieceType::Rook => "r",
            PieceType::Pawn => "p",
        },
    }
}

impl Game {
    /// A human-readable rendering: the board as an ASCII grid of piece
    /// letters and dots, a rank per line, followed by a status line.
    pub fn render(&self) -> (r: String)
        ensures
            r@ == board_text(self@.board, 64) + state_text(self@.state),
    {
        let mut out = String::new();
        proof {
            assert(out@ =~= board_text(self@.board, 0));
        }

        let mut i: usize = 0;
        while i < 64
            invariant
                i <= 64,
                out@ == board_text(self@.board, i as int),
            decreases 64 - i,
        {
            match self.get_piece_at(Coord::from_index(i)) {
                Some(piece) => {
                    out.append(piece_str(&piece));
                },
                None => {
                    out.append(".");
                },
            }
            out.append(" ");
            if (i + 1) % 8 == 0 {
                out.append("\n");
            }
            proof {
                assert(out@ =~= board_text(self@.board, i + 1));
            }
            i += 1;
        }

        match self.state {
            GameState::WhiteTurn => out.append("White to move"),
            GameState::BlackTurn => out.append("Black to move"),
            GameState::WhiteWon => out.append("White has won"),
            GameState::BlackWon => out.append("Black has won"),
            GameState::Draw => out.append("Draw"),
        }

        out
    }
}

/// Whether `v` holds move `m`.
fn moves_contain(v: &Vec<Move>, m: Move) -> (r: bool)
    ensures
        r == v@.contains(m),
{
    let mut i: usize = 0;
    while i < v.len()
        invariant
            i <= v@.len(),
            forall|j: int| 0 <= j < i ==> v@[j] != m,
        decreases v@.len() - i,
    {
        if v[i] == m {
            return true;
        }
        i += 1;
    }
    false
}

} // verus!
