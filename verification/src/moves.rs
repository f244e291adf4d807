use vstd::prelude::*;

use crate::coord::{coord_at, on_board, Coord};
use crate::game::{board_after, board_wf, game_after, king_loc_of, square_at, Game, GameView};
use crate::pieces::{other_side, pawn_dir, Piece, PieceType, Side};

verus! {

#[derive(Copy, Clone, Debug, PartialEq, Eq, Structural)]
pub enum Move {
    Standard(StandardMove),
    Castle(Castle),
    Promotion(Promotion),
    EnPassant(EnPassant),
}

#[derive(Copy, Clone, Debug, PartialEq, Eq, Structural)]
pub struct StandardMove {
    pub piece: Piece,
    pub from: Coord,
    pub to: Coord,
}

impl StandardMove {
    pub fn new(piece: Piece, from: Coord, to: Coord) -> (r: Self)
        ensures
            r == (StandardMove { piece, from, to }),
    {
        StandardMove { piece, from, to }
    }
}

#[derive(Copy, Clone, Debug, PartialEq, Eq, Structural)]
pub struct Castle {
    pub king_piece: Piece,
    pub rook_piece: Piece,
    pub king_from: Coord,
    pub rook_from: Coord,
    pub king_to: Coord,
    pub rook_to: Coord,
}

impl Castle {
    pub fn new(
        king_piece: Piece,
        rook_piece: Piece,
        king_from: Coord,
        rook_from: Coord,
        king_to: Coord,
        rook_to: Coord,
    ) -> (r: Self)
        ensures
            r == (Castle { king_piece, rook_piece, king_from, rook_from, king_to, rook_to }),
    {
        Castle { rook_piece, king_piece, king_from, rook_from, king_to, rook_to }
    }
}

#[derive(Copy, Clone, Debug, PartialEq, Eq, Structural)]
pub struct Promotion {
    /// The Pawn being promoted
    pub old_piece: Piece,
    /// The new promoted piece
    pub new_piece: Piece,
    /// Location of the Pawn
    pub from: Coord,
    /// Location of the new Piece
    pub to: Coord,
}

impl Promotion {
    pub fn new(old_piece: Piece, new_piece: Piece, from: Coord, to: Coord) -> (r: Self)
        ensures
            r == (Promotion { old_piece, new_piece, from, to }),
    {
        Self { old_piece, new_piece, from, to }
    }
}

#[derive(Copy, Clone, Debug, PartialEq, Eq, Structural)]
pub struct EnPassant {
    pub piece: Piece,
    pub from: Coord,
    pub to: Coord,
    pub piece_taken: Piece,
    pub coord_taken: Coord,
}

#[derive(Copy, Clone, Debug, PartialEq, Eq, Structural)]
pub enum MoveError {
    InvalidMove,
}

impl Move {
    /// The square the moved piece starts from.
    pub open spec fn spec_from(&self) -> Coord {
        match *self {
            Move::Standard(m) => m.from,
            Move::Castle(m) => m.king_from,
            Move::Promotion(m) => m.from,
            Move::EnPassant(m) => m.from,
        }
    }

    /// The square the moved piece lands on (the king's destination for a castle).
    pub open spec fn spec_to(&self) -> Coord {
        match *self {
            Move::Standard(m) => m.to,
            Move::Castle(m) => m.king_to,
            Move::Promotion(m) => m.to,
            Move::EnPassant(m) => m.to,
        }
    }

    /// The piece being moved (the king for a castle, the pawn for a promotion).
    pub open spec fn spec_piece(&self) -> Piece {
        match *self {
            Move::Standard(m) => m.piece,
            Move::Castle(m) => m.king_piece,
            Move::Promotion(m) => m.old_piece,
            Move::EnPassant(m) => m.piece,
        }
    }

    /// The side making the move.
    pub open spec fn spec_side(&self) -> Side {
        self.spec_piece().side
    }

    #[verifier::when_used_as_spec(spec_from)]
    pub fn get_from(&self) -> (r: Coord)
        ensures
            r == self.spec_from(),
    {
        match *self {
            Move::Standard(move_) => move_.from,
            Move::Castle(move_) => move_.king_from,
            Move::Promotion(move_) => move_.from,
            Move::EnPassant(move_) => move_.from,
        }
    }

    #[verifier::when_used_as_spec(spec_to)]
    pub fn get_to(&self) -> (r: Coord)
        ensures
            r == self.spec_to(),
    {
        match *self {
            Move::Standard(move_) => move_.to,
            Move::Castle(move_) => move_.king_to,
            Move::Promotion(move_) => move_.to,
            Move::EnPassant(move_) => move_.to,
        }
    }

    #[verifier::when_used_as_spec(spec_piece)]
    pub fn get_piece(&self) -> (r: Piece)
        ensures
            r == self.spec_piece(),
    {
        match *self {
            Move::Standard(move_) => move_.piece,
            Move::Castle(move_) => move_.king_piece,
            Move::Promotion(move_) => move_.old_piece,
            Move::EnPassant(move_) => move_.piece,
        }
    }

    #[verifier::when_used_as_spec(spec_side)]
    pub fn get_side(&self) -> (r: Side)
        ensures
            r == self.spec_side(),
    {
        self.get_piece().get_side()
    }
}

/// Every coordinate a move touches denotes a real square, and a promotion
/// places its new piece exactly on the destination square.
pub open spec fn move_wf(m: Move) -> bool {
    match m {
        Move::Standard(s) => s.from.wf() && s.to.wf(),
        Move::Castle(c) => c.king_from.wf() && c.rook_from.wf() && c.king_to.wf()
            && c.rook_to.wf(),
        Move::Promotion(p) => p.from.wf() && p.to.wf() && p.new_piece.loc == p.to,
        Move::EnPassant(e) => e.from.wf() && e.to.wf() && e.coord_taken.wf(),
    }
}

/// The squares a piece of `side` standing at (`x`, `y`) reaches by repeated
/// unit steps (`dx`, `dy`): the ray extends through empty squares, stops at
/// the board edge, stops at and excludes a friendly piece, and stops at and
/// includes an enemy piece.  With `king_limit` the ray is cut off after one
/// step.  `fuel` bounds the length; 8 steps always reach the board edge.
pub open spec fn ray_targets(
    b: Seq<Option<Piece>>,
    x: int,
    y: int,
    dx: int,
    dy: int,
    king_limit: bool,
    side: Side,
    fuel: nat,
) -> Seq<Coord>
    decreases fuel,
{
    if fuel == 0 {
        Seq::empty()
    } else {
        let nx = x + dx;
        let ny = y + dy;
        if !on_board(nx, ny) {
            Seq::empty()
        } else {
            match square_at(b, nx, ny) {
                Some(p) => if p.side != side {
                    seq![coord_at(nx, ny)]
                } else {
                    Seq::empty()
                },
                None => if king_limit {
                    seq![coord_at(nx, ny)]
                } else {
                    seq![coord_at(nx, ny)] + ray_targets(
                        b,
                        nx,
                        ny,
                        dx,
                        dy,
                        king_limit,
                        side,
                        (fuel - 1) as nat,
                    )
                },
            }
        }
    }
}

/// Returns target squares for moves in a given direction from a source square.
/// The search checks for other pieces on the board to prevent a target
/// being behind another piece.
///
/// The `king_limit` is to limit the search to one square as the king usually
/// can only move one square.
fn get_target_locs_in_dir(
    game: &Game,
    source: Coord,
    dir_x: i8,
    dir_y: i8,
    king_limit: bool,
    cur_side: Side,
) -> (r: Vec<Coord>)
    requires
        source.wf(),
        -1 <= dir_x <= 1,
        -1 <= dir_y <= 1,
    ensures
        r@ == ray_targets(
            game@.board,
            source.x(),
            source.y(),
            dir_x as int,
            dir_y as int,
            king_limit,
            cur_side,
            8,
        ),
        forall|j: int| 0 <= j < r@.len() ==> (#[trigger] r@[j]).wf(),
{
    let xy = source.get_x_and_y();
    let mut x = xy[0];
    let mut y = xy[1];

    let mut targets: Vec<Coord> = Vec::new();

    let mut k: usize = 0;
    while k < 8
        invariant_except_break
            k < 8,
            0 <= x < 8,
            0 <= y < 8,
            -1 <= dir_x <= 1,
            -1 <= dir_y <= 1,
            ray_targets(
                game@.board,
                source.x(),
                source.y(),
                dir_x as int,
                dir_y as int,
                king_limit,
                cur_side,
                8,
            ) == targets@ + ray_targets(
                game@.board,
                x as int,
                y as int,
                dir_x as int,
                dir_y as int,
                king_limit,
                cur_side,
                (8 - k) as nat,
            ),
        invariant
            forall|j: int| 0 <= j < targets@.len() ==> (#[trigger] targets@[j]).wf(),
        ensures
            targets@ == ray_targets(
                game@.board,
                source.x(),
                source.y(),
                dir_x as int,
                dir_y as int,
                king_limit,
                cur_side,
                8,
            ),
        decreases 8 - k,
    {
        let ghost pre_x = x as int;
        let ghost pre_y = y as int;
        let ghost pre_fuel = (8 - k) as nat;
        let ghost pre_targets = targets@;

        x += dir_x;
        y += dir_y;
        k += 1;

        // If the new pos is off the board then stop the search
        if x < 0 || x > 7 || y < 0 || y > 7 {
            proof {
                assert(ray_targets(
                    game@.board,
                    pre_x,
                    pre_y,
                    dir_x as int,
                    dir_y as int,
                    king_limit,
                    cur_side,
                    pre_fuel,
                ) =~= Seq::<Coord>::empty());
                assert(targets@ + Seq::<Coord>::empty() =~= targets@);
            }
            break;
        }

        let c = Coord::from_x_and_y(x, y);
        let ghost tail = ray_targets(
            game@.board,
            x as int,
            y as int,
            dir_x as int,
            dir_y as int,
            king_limit,
            cur_side,
            (pre_fuel - 1) as nat,
        );

        match game.get_piece_at(c) {
            Some(piece) => {
                if piece.get_side() != cur_side {
                    targets.push(c);
                    proof {
                        assert(pre_targets + seq![c] =~= targets@);
                    }
                } else {
                    proof {
                        assert(pre_targets + Seq::<Coord>::empty() =~= targets@);
                    }
                }
                break;
            },
            None => {
                targets.push(c);
                if king_limit {
                    proof {
                        assert(pre_targets + seq![c] =~= targets@);
                    }
                    break;
                }
                proof {
                    assert(pre_targets + (seq![c] + tail) =~= targets@ + tail);
                }
                if k == 8 {
                    proof {
                        assert(tail =~= Seq::<Coord>::empty());
                        assert(targets@ + tail =~= targets@);
                    }
                    break;
                }
            },
        }
    }

    targets
}

/// The squares a king threatens: one step in each of the eight directions.
pub open spec fn king_targets_spec(b: Seq<Option<Piece>>, p: Piece) -> Seq<Coord> {
    let x = p.loc.x();
    let y = p.loc.y();
    let s = p.side;
    ray_targets(b, x, y, 1, 1, true, s, 8) + ray_targets(b, x, y, -1, 1, true, s, 8)
        + ray_targets(b, x, y, 1, -1, true, s, 8) + ray_targets(b, x, y, -1, -1, true, s, 8)
        + ray_targets(b, x, y, 1, 0, true, s, 8) + ray_targets(b, x, y, 0, 1, true, s, 8)
        + ray_targets(b, x, y, -1, 0, true, s, 8) + ray_targets(b, x, y, 0, -1, true, s, 8)
}

/// The squares a queen threatens: full rays in each of the eight directions.
pub open spec fn queen_targets_spec(b: Seq<Option<Piece>>, p: Piece) -> Seq<Coord> {
    let x = p.loc.x();
    let y = p.loc.y();
    let s = p.side;
    ray_targets(b, x, y, 1, 1, false, s, 8) + ray_targets(b, x, y, -1, 1, false, s, 8)
        + ray_targets(b, x, y, 1, -1, false, s, 8) + ray_targets(b, x, y, -1, -1, false, s, 8)
        + ray_targets(b, x, y, 1, 0, false, s, 8) + ray_targets(b, x, y, 0, 1, false, s, 8)
        + ray_targets(b, x, y, -1, 0, false, s, 8) + ray_targets(b, x, y, 0, -1, false, s, 8)
}

/// The squares a bishop threatens: full rays along the four diagonals.
pub open spec fn bishop_targets_spec(b: Seq<Option<Piece>>, p: Piece) -> Seq<Coord> {
    let x = p.loc.x();
    let y = p.loc.y();
    let s = p.side;
    ray_targets(b, x, y, 1, 1, false, s, 8) + ray_targets(b, x, y, -1, 1, false, s, 8)
        + ray_targets(b, x, y, 1, -1, false, s, 8) + ray_targets(b, x, y, -1, -1, false, s, 8)
}

/// The squares a rook threatens: full rays along the four orthogonals.
pub open spec fn rook_targets_spec(b: Seq<Option<Piece>>, p: Piece) -> Seq<Coord> {
    let x = p.loc.x();
    let y = p.loc.y();
    let s = p.side;
    ray_targets(b, x, y, 1, 0, false, s, 8) + ray_targets(b, x, y, 0, 1, false, s, 8)
        + ray_targets(b, x, y, -1, 0, false, s, 8) + ray_targets(b, x, y, 0, -1, false, s, 8)
}

/// One knight destination: the offset square, if on the board and not held
/// by a friendly piece.
pub open spec fn knight_step_spec(b: Seq<Option<Piece>>, p: Piece, dx: int, dy: int) -> Seq<
    Coord,
> {
    let nx = p.loc.x() + dx;
    let ny = p.loc.y() + dy;
    if !on_board(nx, ny) {
        Seq::empty()
    } else {
        match square_at(b, nx, ny) {
            Some(q) => if q.side != p.side {
                seq![coord_at(nx, ny)]
            } else {
                Seq::empty()
            },
            None => seq![coord_at(nx, ny)],
        }
    }
}

/// The squares a knight threatens: the eight fixed offsets.
pub open spec fn knight_targets_spec(b: Seq<Option<Piece>>, p: Piece) -> Seq<Coord> {
    knight_step_spec(b, p, 2, 1) + knight_step_spec(b, p, 2, -1) + knight_step_spec(b, p, 1, 2)
        + knight_step_spec(b, p, 1, -2) + knight_step_spec(b, p, -2, 1) + knight_step_spec(
        b,
        p,
        -2,
        -1,
    ) + knight_step_spec(b, p, -1, 2) + knight_step_spec(b, p, -1, -2)
}

fn knight_step(game: &Game, piece: Piece, dx: i8, dy: i8) -> (r: Vec<Coord>)
    requires
        piece.loc.wf(),
        -2 <= dx <= 2,
        -2 <= dy <= 2,
    ensures
        r@ == knight_step_spec(game@.board, piece, dx as int, dy as int),
        forall|j: int| 0 <= j < r@.len() ==> (#[trigger] r@[j]).wf(),
{
    let mut r: Vec<Coord> = Vec::new();

    let xy = piece.get_loc().get_x_and_y();
    let x = xy[0] + dx;
    let y = xy[1] + dy;

    // If the new pos is off the board then there is no target
    if x < 0 || x > 7 || y < 0 || y > 7 {
        return r;
    }

    let c = Coord::from_x_and_y(x, y);
    match game.get_piece_at(c) {
        Some(other_piece) => {
            if other_piece.get_side() != piece.get_side() {
                r.push(c);
            }
        },
        None => r.push(c),
    }

    r
}

pub fn get_knight_targets(game: &Game, piece: Piece) -> (r: Vec<Coord>)
    requires
        piece.loc.wf(),
    ensures
        r@ == knight_targets_spec(game@.board, piece),
        forall|j: int| 0 <= j < r@.len() ==> (#[trigger] r@[j]).wf(),
{
    let mut targets: Vec<Coord> = Vec::new();

    let mut t = knight_step(game, piece, 2, 1);
    targets.append(&mut t);
    let mut t = knight_step(game, piece, 2, -1);
    targets.append(&mut t);
    let mut t = knight_step(game, piece, 1, 2);
    targets.append(&mut t);
    let mut t = knight_step(game, piece, 1, -2);
    targets.append(&mut t);
    let mut t = knight_step(game, piece, -2, 1);
    targets.append(&mut t);
    let mut t = knight_step(game, piece, -2, -1);
    targets.append(&mut t);
    let mut t = knight_step(game, piece, -1, 2);
    targets.append(&mut t);
    let mut t = knight_step(game, piece, -1, -2);
    targets.append(&mut t);

    proof {
        assert(targets@ =~= knight_targets_spec(game@.board, piece));
    }
    targets
}

fn get_king_targets(game: &Game, piece: Piece) -> (r: Vec<Coord>)
    requires
        piece.loc.wf(),
    ensures
        r@ == king_targets_spec(game@.board, piece),
        forall|j: int| 0 <= j < r@.len() ==> (#[trigger] r@[j]).wf(),
{
    let mut targets: Vec<Coord> = Vec::new();
    let loc = piece.get_loc();
    let side = piece.get_side();

    let mut t = get_target_locs_in_dir(game, loc, 1, 1, true, side);
    targets.append(&mut t);
    let mut t = get_target_locs_in_dir(game, loc, -1, 1, true, side);
    targets.append(&mut t);
    let mut t = get_target_locs_in_dir(game, loc, 1, -1, true, side);
    targets.append(&mut t);
    let mut t = get_target_locs_in_dir(game, loc, -1, -1, true, side);
    targets.append(&mut t);
    let mut t = get_target_locs_in_dir(game, loc, 1, 0, true, side);
    targets.append(&mut t);
    let mut t = get_target_locs_in_dir(game, loc, 0, 1, true, side);
    targets.append(&mut t);
    let mut t = get_target_locs_in_dir(game, loc, -1, 0, true, side);
    targets.append(&mut t);
    let mut t = get_target_locs_in_dir(game, loc, 0, -1, true, side);
    targets.append(&mut t);

    proof {
        assert(targets@ =~= king_targets_spec(game@.board, piece));
    }
    targets
}

fn get_queen_targets(game: &Game, piece: Piece) -> (r: Vec<Coord>)
    requires
        piece.loc.wf(),
    ensures
        r@ == queen_targets_spec(game@.board, piece),
        forall|j: int| 0 <= j < r@.len() ==> (#[trigger] r@[j]).wf(),
{
    let mut targets: Vec<Coord> = Vec::new();
    let loc = piece.get_loc();
    let side = piece.get_side();

    let mut t = get_target_locs_in_dir(game, loc, 1, 1, false, side);
    targets.append(&mut t);
    let mut t = get_target_locs_in_dir(game, loc, -1, 1, false, side);
    targets.append(&mut t);
    let mut t = get_target_locs_in_dir(game, loc, 1, -1, false, side);
    targets.append(&mut t);
    let mut t = get_target_locs_in_dir(game, loc, -1, -1, false, side);
    targets.append(&mut t);
    let mut t = get_target_locs_in_dir(game, loc, 1, 0, false, side);
    targets.append(&mut t);
    let mut t = get_target_locs_in_dir(game, loc, 0, 1, false, side);
    targets.append(&mut t);
    let mut t = get_target_locs_in_dir(game, loc, -1, 0, false, side);
    targets.append(&mut t);
    let mut t = get_target_locs_in_dir(game, loc, 0, -1, false, side);
    targets.append(&mut t);

    proof {
        assert(targets@ =~= queen_targets_spec(game@.board, piece));
    }
    targets
}

pub fn get_bishop_targets(game: &Game, piece: Piece) -> (r: Vec<Coord>)
    requires
        piece.loc.wf(),
    ensures
        r@ == bishop_targets_spec(game@.board, piece),
        forall|j: int| 0 <= j < r@.len() ==> (#[trigger] r@[j]).wf(),
{
    let mut targets: Vec<Coord> = Vec::new();
    let loc = piece.get_loc();
    let side = piece.get_side();

    let mut t = get_target_locs_in_dir(game, loc, 1, 1, false, side);
    targets.append(&mut t);
    let mut t = get_target_locs_in_dir(game, loc, -1, 1, false, side);
    targets.append(&mut t);
    let mut t = get_target_locs_in_dir(game, loc, 1, -1, false, side);
    targets.append(&mut t);
    let mut t = get_target_locs_in_dir(game, loc, -1, -1, false, side);
    targets.append(&mut t);

    proof {
        assert(targets@ =~= bishop_targets_spec(game@.board, piece));
    }
    targets
}

pub fn get_rook_targets(game: &Game, piece: Piece) -> (r: Vec<Coord>)
    requires
        piece.loc.wf(),
    ensures
        r@ == rook_targets_spec(game@.board, piece),
        forall|j: int| 0 <= j < r@.len() ==> (#[trigger] r@[j]).wf(),
{
    let mut targets: Vec<Coord> = Vec::new();
    let loc = piece.get_loc();
    let side = piece.get_side();

    let mut t = get_target_locs_in_dir(game, loc, 1, 0, false, side);
    targets.append(&mut t);
    let mut t = get_target_locs_in_dir(game, loc, 0, 1, false, side);
    targets.append(&mut t);
    let mut t = get_target_locs_in_dir(game, loc, -1, 0, false, side);
    targets.append(&mut t);
    let mut t = get_target_locs_in_dir(game, loc, 0, -1, false, side);
    targets.append(&mut t);

    proof {
        assert(targets@ =~= rook_targets_spec(game@.board, piece));
    }
    targets
}

/// One pawn threat square: the forward diagonal at file offset `dx`, if on
/// the board.  A pawn threatens these squares whatever stands on them;
/// forward pushes are never threats.
pub open spec fn pawn_diag_spec(p: Piece, dx: int) -> Seq<Coord> {
    let nx = p.loc.x() + dx;
    let ny = p.loc.y() + pawn_dir(p.side);
    if on_board(nx, ny) {
        seq![coord_at(nx, ny)]
    } else {
        Seq::empty()
    }
}

/// The squares a pawn threatens: its two forward diagonals.
pub open spec fn pawn_targets_spec(p: Piece) -> Seq<Coord> {
    pawn_diag_spec(p, -1) + pawn_diag_spec(p, 1)
}

fn pawn_diag_step(piece: Piece, dx: i8) -> (r: Vec<Coord>)
    requires
        piece.loc.wf(),
        -1 <= dx <= 1,
    ensures
        r@ == pawn_diag_spec(piece, dx as int),
        forall|j: int| 0 <= j < r@.len() ==> (#[trigger] r@[j]).wf(),
{
    let mut r: Vec<Coord> = Vec::new();

    let dir = piece.get_side().get_dir();
    let xy = piece.get_loc().get_x_and_y();
    let x = xy[0] + dx;
    let y = xy[1] + dir;

    if x < 0 || x > 7 || y < 0 || y > 7 {
        return r;
    }

    r.push(Coord::from_x_and_y(x, y));
    r
}

fn get_pawn_standard_targets(_game: &Game, piece: Piece) -> (r: Vec<Coord>)
    requires
        piece.loc.wf(),
    ensures
        r@ == pawn_targets_spec(piece),
        forall|j: int| 0 <= j < r@.len() ==> (#[trigger] r@[j]).wf(),
{
    let mut targets: Vec<Coord> = Vec::new();

    let mut t = pawn_diag_step(piece, -1);
    targets.append(&mut t);
    let mut t = pawn_diag_step(piece, 1);
    targets.append(&mut t);

    proof {
        assert(targets@ =~= pawn_targets_spec(piece));
    }
    targets
}

/// The full set of squares a piece pseudo-legally threatens, by piece type.
pub open spec fn standard_targets_spec(b: Seq<Option<Piece>>, p: Piece) -> Seq<Coord> {
    match p.piece_type {
        PieceType::King => king_targets_spec(b, p),
        PieceType::Queen => queen_targets_spec(b, p),
        PieceType::Bishop => bishop_targets_spec(b, p),
        PieceType::Rook => rook_targets_spec(b, p),
        PieceType::Knight => knight_targets_spec(b, p),
        PieceType::Pawn => pawn_targets_spec(p),
    }
}

pub fn get_piece_standard_targets(game: &Game, piece: Piece) -> (r: Vec<Coord>)
    requires
        piece.loc.wf(),
    ensures
        r@ == standard_targets_spec(game@.board, piece),
        forall|j: int| 0 <= j < r@.len() ==> (#[trigger] r@[j]).wf(),
{
    match piece.get_type() {
        PieceType::King => get_king_targets(game, piece),
        PieceType::Queen => get_queen_targets(game, piece),
        PieceType::Bishop => get_bishop_targets(game, piece),
        PieceType::Rook => get_rook_targets(game, piece),
        PieceType::Knight => get_knight_targets(game, piece),
        PieceType::Pawn => get_pawn_standard_targets(game, piece),
    }
}

/// The squares threatened by the pieces of `side` standing on the first `n`
/// board squares, in board order.
pub open spec fn side_targets_upto(b: Seq<Option<Piece>>, side: Side, n: int) -> Seq<Coord>
    decreases n,
{
    if n <= 0 {
        Seq::empty()
    } else {
        side_targets_upto(b, side, n - 1) + (match b[n - 1] {
            Some(p) => if p.side == side {
                standard_targets_spec(b, p)
            } else {
                Seq::empty()
            },
            None => Seq::empty(),
        })
    }
}

/// Every square threatened by some piece of `side`: the union, in board
/// order, of the threat squares of its pieces.
pub open spec fn side_targets_spec(b: Seq<Option<Piece>>, side: Side) -> Seq<Coord> {
    side_targets_upto(b, side, 64)
}

pub fn get_side_targets(game: &Game, side: Side) -> (r: Vec<Coord>)
    requires
        board_wf(game@.board),
    ensures
        r@ == side_targets_spec(game@.board, side),
{
    let mut targets: Vec<Coord> = Vec::new();

    let mut i: usize = 0;
    while i < 64
        invariant
            i <= 64,
            board_wf(game@.board),
            targets@ == side_targets_upto(game@.board, side, i as int),
        decreases 64 - i,
    {
        let ghost pre = targets@;
        match game.get_piece_at(Coord::from_index(i)) {
            Some(piece) => {
                if piece.is_side(side) {
                    let mut t = get_piece_standard_targets(game, piece);
                    targets.append(&mut t);
                    proof {
                        assert(targets@ =~= side_targets_upto(game@.board, side, i + 1));
                    }
                } else {
                    proof {
                        assert(targets@ =~= side_targets_upto(game@.board, side, i + 1));
                    }
                }
            },
            None => {
                proof {
                    assert(targets@ =~= side_targets_upto(game@.board, side, i + 1));
                }
            },
        }
        i += 1;
    }

    targets
}

/// Whether `side`'s king, standing on `king`, is attacked on board `b`.
pub open spec fn side_in_check_at(b: Seq<Option<Piece>>, king: Coord, side: Side) -> bool {
    side_targets_spec(b, other_side(side)).contains(king)
}

/// Whether applying `m` to the position leaves the mover's own king attacked.
pub open spec fn in_check_after(v: GameView, m: Move) -> bool {
    let side = m.spec_side();
    side_in_check_at(board_after(v.board, m), king_loc_of(game_after(v, m), side), side)
}

fn is_in_check_after_move(game: &Game, move_: Move) -> (r: bool)
    requires
        game@.locs_ok(),
        move_wf(move_),
    ensures
        r == in_check_after(game@, move_),
{
    let mut sim = *game;
    sim.move_piece(move_);
    sim.is_side_in_check(move_.get_side())
}

/// The four promotions replacing a pawn move that reaches the far rank: one
/// per promotable type, each placing the new piece, marked moved, on the
/// destination square.
pub open spec fn promotion_seq(p: Piece, from: Coord, to: Coord) -> Seq<Move> {
    seq![
        Move::Promotion(
            Promotion {
                old_piece: p,
                new_piece: Piece {
                    side: p.side,
                    has_moved: true,
                    piece_type: PieceType::Queen,
                    loc: to,
                },
                from,
                to,
            },
        ),
        Move::Promotion(
            Promotion {
                old_piece: p,
                new_piece: Piece {
                    side: p.side,
                    has_moved: true,
                    piece_type: PieceType::Bishop,
                    loc: to,
                },
                from,
                to,
            },
        ),
        Move::Promotion(
            Promotion {
                old_piece: p,
                new_piece: Piece {
                    side: p.side,
                    has_moved: true,
                    piece_type: PieceType::Rook,
                    loc: to,
                },
                from,
                to,
            },
        ),
        Move::Promotion(
            Promotion {
                old_piece: p,
                new_piece: Piece {
                    side: p.side,
                    has_moved: true,
                    piece_type: PieceType::Knight,
                    loc: to,
                },
                from,
                to,
            },
        ),
    ]
}

/// What one candidate move of `p` contributes to the legal-move list:
/// nothing when it leaves the mover's own king in check; otherwise the four
/// promotions when a pawn move reaches the far rank, else the move itself.
pub open spec fn expand_one(v: GameView, p: Piece, m: Move) -> Seq<Move> {
    if in_check_after(v, m) {
        Seq::empty()
    } else if p.piece_type is Pawn && m.spec_to().y() == crate::pieces::promotion_y(p.side) {
        promotion_seq(m.spec_piece(), m.spec_from(), m.spec_to())
    } else {
        seq![m]
    }
}

/// The legal moves arising from a list of candidate moves of `p`, in order:
/// each candidate is filtered by the check simulation and expanded into
/// promotions where it promotes.
pub open spec fn expand_candidates(v: GameView, p: Piece, ms: Seq<Move>) -> Seq<Move>
    decreases ms.len(),
{
    if ms.len() == 0 {
        Seq::empty()
    } else {
        expand_candidates(v, p, ms.drop_last()) + expand_one(v, p, ms.last())
    }
}

fn add_promotions(old_move: Move, moves: &mut Vec<Move>)
    requires
        old_move.spec_from().wf(),
        old_move.spec_to().wf(),
    ensures
        final(moves)@ == old(moves)@ + promotion_seq(
            old_move.spec_piece(),
            old_move.spec_from(),
            old_move.spec_to(),
        ),
        forall|j: int|
            old(moves)@.len() <= j < final(moves)@.len() ==> move_wf(#[trigger] final(moves)@[j]),
{
    let old_piece = old_move.get_piece();
    let promotion_square = old_move.get_to();

    moves.push(
        Move::Promotion(
            Promotion {
                old_piece,
                new_piece: Piece::new(
                    old_piece.get_side(),
                    true,
                    PieceType::Queen,
                    promotion_square,
                ),
                from: old_move.get_from(),
                to: promotion_square,
            },
        ),
    );
    moves.push(
        Move::Promotion(
            Promotion {
                old_piece,
                new_piece: Piece::new(
                    old_piece.get_side(),
                    true,
                    PieceType::Bishop,
                    promotion_square,
                ),
                from: old_move.get_from(),
                to: promotion_square,
            },
        ),
    );
    moves.push(
        Move::Promotion(
            Promotion {
                old_piece,
                new_piece: Piece::new(
                    old_piece.get_side(),
                    true,
                    PieceType::Rook,
                    promotion_square,
                ),
                from: old_move.get_from(),
                to: promotion_square,
            },
        ),
    );
    moves.push(
        Move::Promotion(
            Promotion {
                old_piece,
                new_piece: Piece::new(
                    old_piece.get_side(),
                    true,
                    PieceType::Knight,
                    promotion_square,
                ),
                from: old_move.get_from(),
                to: promotion_square,
            },
        ),
    );

    proof {
        assert(final(moves)@ =~= old(moves)@ + promotion_seq(
            old_move.spec_piece(),
            old_move.spec_from(),
            old_move.spec_to(),
        ));
    }
}

/// Runs every candidate through the check simulation, expanding promoting
/// pawn moves, and appends the survivors to `moves`.
fn filter_candidates(game: &Game, piece: Piece, candidates: &Vec<Move>, moves: &mut Vec<Move>)
    requires
        game@.locs_ok(),
        forall|j: int| 0 <= j < candidates@.len() ==> move_wf(#[trigger] candidates@[j]),
    ensures
        final(moves)@ == old(moves)@ + expand_candidates(game@, piece, candidates@),
        forall|j: int|
            old(moves)@.len() <= j < final(moves)@.len() ==> move_wf(#[trigger] final(moves)@[j]),
{
    let ghost base = moves@;
    let mut i: usize = 0;
    while i < candidates.len()
        invariant
            i <= candidates@.len(),
            game@.locs_ok(),
            forall|j: int| 0 <= j < candidates@.len() ==> move_wf(#[trigger] candidates@[j]),
            moves@ == base + expand_candidates(game@, piece, candidates@.take(i as int)),
            forall|j: int| base.len() <= j < moves@.len() ==> move_wf(#[trigger] moves@[j]),
        decreases candidates@.len() - i,
    {
        let move_ = candidates[i];

        // Move is only valid if not in check after
        if !is_in_check_after_move(game, move_) {
            if piece.is_type(PieceType::Pawn) && move_.get_to().get_x_and_y()[1]
                == piece.get_side().get_promotion_y() {
                add_promotions(move_, moves);
            } else {
                moves.push(move_);
            }
        }

        proof {
            assert(candidates@.take(i + 1).drop_last() =~= candidates@.take(i as int));
            assert(candidates@.take(i + 1).last() == candidates@[i as int]);
            assert(moves@ =~= base + expand_candidates(game@, piece, candidates@.take(i + 1)));
        }
        i += 1;
    }
    proof {
        assert(candidates@.take(candidates@.len() as int) =~= candidates@);
    }
}

/// One pawn capture candidate: the forward diagonal at file offset `dx`,
/// when it is on the board and holds an enemy piece.
pub open spec fn pawn_capture_step_spec(b: Seq<Option<Piece>>, p: Piece, dx: int) -> Seq<Move> {
    let nx = p.loc.x() + dx;
    let ny = p.loc.y() + pawn_dir(p.side);
    if on_board(nx, ny) && (match square_at(b, nx, ny) {
        Some(q) => q.side != p.side,
        None => false,
    }) {
        seq![Move::Standard(StandardMove { piece: p, from: p.loc, to: coord_at(nx, ny) })]
    } else {
        Seq::empty()
    }
}

/// The pawn's capture candidates on its two forward diagonals.
pub open spec fn pawn_capture_moves_spec(b: Seq<Option<Piece>>, p: Piece) -> Seq<Move> {
    pawn_capture_step_spec(b, p, -1) + pawn_capture_step_spec(b, p, 1)
}

fn pawn_capture_step(game: &Game, piece: Piece, dx: i8) -> (r: Vec<Move>)
    requires
        piece.loc.wf(),
        -1 <= dx <= 1,
    ensures
        r@ == pawn_capture_step_spec(game@.board, piece, dx as int),
        forall|j: int| 0 <= j < r@.len() ==> move_wf(#[trigger] r@[j]),
{
    let mut r: Vec<Move> = Vec::new();

    let dir = piece.get_side().get_dir();
    let xy = piece.get_loc().get_x_and_y();
    let x = xy[0] + dx;
    let y = xy[1] + dir;

    if x < 0 || x > 7 || y < 0 || y > 7 {
        return r;
    }

    let c = Coord::from_x_and_y(x, y);
    match game.get_piece_at(c) {
        Some(other_piece) => {
            if other_piece.get_side() != piece.get_side() {
                r.push(Move::Standard(StandardMove { piece, from: piece.get_loc(), to: c }));
            }
        },
        None => {},
    }

    r
}

/// The pawn's push candidates: one square straight ahead when that square is
/// empty, and two squares ahead additionally when the pawn has never moved
/// and that square is also empty.
pub open spec fn pawn_push_moves_spec(b: Seq<Option<Piece>>, p: Piece) -> Seq<Move> {
    let x = p.loc.x();
    let y = p.loc.y();
    let dir = pawn_dir(p.side);
    if on_board(x, y + dir) && square_at(b, x, y + dir) is None {
        seq![Move::Standard(StandardMove { piece: p, from: p.loc, to: coord_at(x, y + dir) })]
            + if !p.has_moved && on_board(x, y + 2 * dir) && square_at(b, x, y + 2 * dir) is None {
            seq![
                Move::Standard(StandardMove { piece: p, from: p.loc, to: coord_at(x, y + 2 * dir) }),
            ]
        } else {
            Seq::empty()
        }
    } else {
        Seq::empty()
    }
}

fn get_pawn_moves(game: &Game, piece: Piece) -> (r: Vec<Move>)
    requires
        piece.loc.wf(),
    ensures
        r@ == pawn_push_moves_spec(game@.board, piece),
        forall|j: int| 0 <= j < r@.len() ==> move_wf(#[trigger] r@[j]),
{
    let mut moves: Vec<Move> = Vec::new();

    let dir = piece.get_side().get_dir();
    let xy = piece.get_loc().get_x_and_y();
    let x = xy[0];
    let y = xy[1];

    let ny = y + dir;
    if ny >= 0 && ny <= 7 {
        let one = Coord::from_x_and_y(x, ny);
        if game.get_piece_at(one).is_none() {
            moves.push(Move::Standard(StandardMove { piece, from: piece.get_loc(), to: one }));

            // If the square is empty and the pawn hasn't moved then it can double move
            let ny2 = y + 2 * dir;
            if !piece.has_moved() && ny2 >= 0 && ny2 <= 7 {
                let two = Coord::from_x_and_y(x, ny2);
                if game.get_piece_at(two).is_none() {
                    moves.push(
                        Move::Standard(StandardMove { piece, from: piece.get_loc(), to: two }),
                    );
                }
            }
        }
    }

    proof {
        assert(moves@ =~= pawn_push_moves_spec(game@.board, piece));
    }
    moves
}

/// The en passant candidate, if any: the last move was a pawn advancing two
/// ranks to the capturing pawn's own rank on an adjacent file; the capturer
/// steps diagonally behind that pawn and the pawn itself is taken off its
/// own square.
pub open spec fn en_passant_moves_spec(v: GameView, p: Piece) -> Seq<Move> {
    match v.previous_move {
        Some(prev) => {
            let pv = prev.spec_piece();
            let fdx = p.loc.x() - prev.spec_to().x();
            let rdy = prev.spec_from().y() - prev.spec_to().y();
            let ny = p.loc.y() + pawn_dir(p.side);
            if pv.piece_type is Pawn && pv.loc.wf() && prev.spec_to().wf() && prev.spec_from().wf()
                && (fdx == 1 || fdx == -1) && (rdy == 2 || rdy == -2) && p.loc.y()
                == prev.spec_to().y() && on_board(pv.loc.x(), ny) {
                match v.board[prev.spec_to().index as int] {
                    Some(taken) => seq![
                        Move::EnPassant(
                            EnPassant {
                                piece: p,
                                from: p.loc,
                                to: coord_at(pv.loc.x(), ny),
                                piece_taken: taken,
                                coord_taken: prev.spec_to(),
                            },
                        ),
                    ],
                    None => Seq::empty(),
                }
            } else {
                Seq::empty()
            }
        },
        None => Seq::empty(),
    }
}

/// The en passant candidate after the check-simulation filter.
pub open spec fn en_passant_filtered_spec(v: GameView, p: Piece) -> Seq<Move> {
    let eps = en_passant_moves_spec(v, p);
    if eps.len() > 0 && !in_check_after(v, eps[0]) {
        eps
    } else {
        Seq::empty()
    }
}

/// The castle candidates of king `p`, short then long.  Each side asks for
/// an unmoved rook in its corner, empty squares strictly between king and
/// rook, and that the king's current square, the square it passes through,
/// and its destination are all free of enemy threat; the candidate then
/// passes the check simulation like every other move.
pub open spec fn castle_moves_spec(v: GameView, p: Piece) -> Seq<Move> {
    let y = if p.side is White {
        0
    } else {
        7
    };
    let ts = side_targets_spec(v.board, other_side(p.side));
    short_castle_spec(v, p, y, ts) + long_castle_spec(v, p, y, ts)
}

/// The short (king-side) castle candidate of king `p` on back rank `y`.
pub open spec fn short_castle_spec(v: GameView, p: Piece, y: int, ts: Seq<Coord>) -> Seq<Move> {
    match square_at(v.board, 7, y) {
        Some(rook) => {
            let mv = Move::Castle(
                Castle {
                    king_piece: p,
                    rook_piece: rook,
                    king_from: p.loc,
                    rook_from: coord_at(7, y),
                    king_to: coord_at(6, y),
                    rook_to: coord_at(5, y),
                },
            );
            if rook.piece_type is Rook && !rook.has_moved && rook.side == p.side && square_at(
                v.board,
                5,
                y,
            ) is None && square_at(v.board, 6, y) is None && !ts.contains(p.loc) && !ts.contains(
                coord_at(5, y),
            ) && !ts.contains(coord_at(6, y)) && !in_check_after(v, mv) {
                seq![mv]
            } else {
                Seq::empty()
            }
        },
        None => Seq::empty(),
    }
}

/// The long (queen-side) castle candidate of king `p` on back rank `y`.
pub open spec fn long_castle_spec(v: GameView, p: Piece, y: int, ts: Seq<Coord>) -> Seq<Move> {
    match square_at(v.board, 0, y) {
        Some(rook) => {
            let mv = Move::Castle(
                Castle {
                    king_piece: p,
                    rook_piece: rook,
                    king_from: p.loc,
                    rook_from: coord_at(0, y),
                    king_to: coord_at(2, y),
                    rook_to: coord_at(3, y),
                },
            );
            if rook.piece_type is Rook && !rook.has_moved && rook.side == p.side && square_at(
                v.board,
                1,
                y,
            ) is None && square_at(v.board, 2, y) is None && square_at(v.board, 3, y) is None
                && !ts.contains(p.loc) && !ts.contains(coord_at(2, y)) && !ts.contains(
                coord_at(3, y),
            ) && !in_check_after(v, mv) {
                seq![mv]
            } else {
                Seq::empty()
            }
        },
        None => Seq::empty(),
    }
}

fn get_castle_moves(game: &Game, piece: Piece) -> (r: Vec<Move>)
    requires
        game@.locs_ok(),
        piece.loc.wf(),
    ensures
        r@ == castle_moves_spec(game@, piece),
        forall|j: int| 0 <= j < r@.len() ==> move_wf(#[trigger] r@[j]),
{
    let mut moves: Vec<Move> = Vec::new();

    let y: i8 = match piece.get_side() {
        Side::White => 0,
        Side::Black => 7,
    };

    let targets = get_side_targets(game, piece.get_side().other());

    // Short castle: the corner rook may not have moved, the path must be
    // clear, and the king may not stand in, pass through, or enter check
    let corner = Coord::from_x_and_y(7, y);
    match game.get_piece_at(corner) {
        Some(rook) => {
            if rook.is_type(PieceType::Rook) && !rook.has_moved() && rook.is_side(
                piece.get_side(),
            ) && game.get_piece_at(Coord::from_x_and_y(5, y)).is_none() && game.get_piece_at(
                Coord::from_x_and_y(6, y),
            ).is_none() && !coords_contain(&targets, piece.get_loc()) && !coords_contain(
                &targets,
                Coord::from_x_and_y(5, y),
            ) && !coords_contain(&targets, Coord::from_x_and_y(6, y)) {
                let mv = Move::Castle(
                    Castle::new(
                        piece,
                        rook,
                        piece.get_loc(),
                        corner,
                        Coord::from_x_and_y(6, y),
                        Coord::from_x_and_y(5, y),
                    ),
                );
                if !is_in_check_after_move(game, mv) {
                    moves.push(mv);
                }
            }
        },
        None => {},
    }
    proof {
        assert(moves@ =~= short_castle_spec(
            game@,
            piece,
            y as int,
            side_targets_spec(game@.board, other_side(piece.side)),
        ));
    }

    // Long castle
    let ghost short_moves = moves@;
    let corner = Coord::from_x_and_y(0, y);
    match game.get_piece_at(corner) {
        Some(rook) => {
            if rook.is_type(PieceType::Rook) && !rook.has_moved() && rook.is_side(
                piece.get_side(),
            ) && game.get_piece_at(Coord::from_x_and_y(1, y)).is_none() && game.get_piece_at(
                Coord::from_x_and_y(2, y),
            ).is_none() && game.get_piece_at(Coord::from_x_and_y(3, y)).is_none()
                && !coords_contain(&targets, piece.get_loc()) && !coords_contain(
                &targets,
                Coord::from_x_and_y(2, y),
            ) && !coords_contain(&targets, Coord::from_x_and_y(3, y)) {
                let mv = Move::Castle(
                    Castle::new(
                        piece,
                        rook,
                        piece.get_loc(),
                        corner,
                        Coord::from_x_and_y(2, y),
                        Coord::from_x_and_y(3, y),
                    ),
                );
                if !is_in_check_after_move(game, mv) {
                    moves.push(mv);
                }
            }
        },
        None => {},
    }
    proof {
        assert(moves@ =~= short_moves + long_castle_spec(
            game@,
            piece,
            y as int,
            side_targets_spec(game@.board, other_side(piece.side)),
        ));
        assert(moves@ =~= castle_moves_spec(game@, piece));
    }

    moves
}

/// The candidate moves of a non-pawn: one standard move per threatened
/// square, in order.
pub open spec fn targets_to_moves(p: Piece, ts: Seq<Coord>) -> Seq<Move>
    decreases ts.len(),
{
    if ts.len() == 0 {
        Seq::empty()
    } else {
        targets_to_moves(p, ts.drop_last()).push(
            Move::Standard(StandardMove { piece: p, from: p.loc, to: ts.last() }),
        )
    }
}

/// The full legal-move list of piece `p` in position `v`: for a pawn, its
/// captures, pushes and en passant; for any other piece, a move per
/// threatened square; for an unmoved king, also the castles.  Every
/// candidate is filtered by the check simulation, and pawn moves reaching
/// the far rank are expanded into the four promotions.
pub open spec fn piece_moves_spec(v: GameView, p: Piece) -> Seq<Move> {
    (if p.piece_type is Pawn {
        expand_candidates(
            v,
            p,
            pawn_capture_moves_spec(v.board, p) + pawn_push_moves_spec(v.board, p),
        ) + en_passant_filtered_spec(v, p)
    } else {
        expand_candidates(v, p, targets_to_moves(p, standard_targets_spec(v.board, p)))
    }) + (if p.piece_type is King && !p.has_moved {
        castle_moves_spec(v, p)
    } else {
        Seq::empty()
    })
}

pub fn get_piece_moves(game: &Game, piece: Piece) -> (r: Vec<Move>)
    requires
        game@.locs_ok(),
        piece.loc.wf(),
    ensures
        r@ == piece_moves_spec(game@, piece),
        forall|j: int| 0 <= j < r@.len() ==> move_wf(#[trigger] r@[j]),
{
    let mut moves: Vec<Move> = Vec::new();

    if piece.is_type(PieceType::Pawn) {
        // Pawn candidates: diagonal captures, then pushes
        let mut candidates = pawn_capture_step(game, piece, -1);
        let mut t = pawn_capture_step(game, piece, 1);
        candidates.append(&mut t);
        let mut pushes = get_pawn_moves(game, piece);
        candidates.append(&mut pushes);
        proof {
            assert(candidates@ =~= pawn_capture_moves_spec(game@.board, piece)
                + pawn_push_moves_spec(game@.board, piece));
        }
        filter_candidates(game, piece, &candidates, &mut moves);

        // En passant
        let ghost pre_ep = moves@;
        match game.get_previous_move() {
            Some(prev) => {
                let prev_piece = prev.get_piece();
                let prev_to = prev.get_to();
                let prev_from = prev.get_from();
                if prev_piece.is_type(PieceType::Pawn) && prev_piece.get_loc().get_index() < 64
                    && prev_to.get_index() < 64 && prev_from.get_index() < 64 {
                    let pxy = piece.get_loc().get_x_and_y();
                    let toxy = prev_to.get_x_and_y();
                    let fromxy = prev_from.get_x_and_y();
                    let fdx = pxy[0] - toxy[0];
                    let rdy = fromxy[1] - toxy[1];
                    let ny = pxy[1] + piece.get_side().get_dir();
                    if (fdx == 1 || fdx == -1) && (rdy == 2 || rdy == -2) && pxy[1] == toxy[1]
                        && ny >= 0 && ny <= 7 {
                        match game.get_piece_at(prev_to) {
                            Some(taken) => {
                                let pvxy = prev_piece.get_loc().get_x_and_y();
                                let ep = Move::EnPassant(
                                    EnPassant {
                                        piece,
                                        from: piece.get_loc(),
                                        to: Coord::from_x_and_y(pvxy[0], ny),
                                        piece_taken: taken,
                                        coord_taken: prev_to,
                                    },
                                );
                                proof {
                                    assert(en_passant_moves_spec(game@, piece) =~= seq![ep]);
                                }
                                if !is_in_check_after_move(game, ep) {
                                    moves.push(ep);
                                }
                            },
                            None => {},
                        }
                    }
                }
            },
            None => {},
        }
        proof {
            assert(moves@ =~= pre_ep + en_passant_filtered_spec(game@, piece));
        }
    } else {
        // One candidate move per threatened square
        let targets = get_piece_standard_targets(game, piece);
        let mut candidates: Vec<Move> = Vec::new();
        let mut i: usize = 0;
        while i < targets.len()
            invariant
                i <= targets@.len(),
                forall|j: int| 0 <= j < targets@.len() ==> (#[trigger] targets@[j]).wf(),
                candidates@ == targets_to_moves(piece, targets@.take(i as int)),
                forall|j: int| 0 <= j < candidates@.len() ==> move_wf(#[trigger] candidates@[j]),
                piece.loc.wf(),
            decreases targets@.len() - i,
        {
            candidates.push(
                Move::Standard(StandardMove { piece, from: piece.get_loc(), to: targets[i] }),
            );
            proof {
                assert(targets@.take(i + 1).drop_last() =~= targets@.take(i as int));
            }
            i += 1;
        }
        proof {
            assert(targets@.take(targets@.len() as int) =~= targets@);
        }
        filter_candidates(game, piece, &candidates, &mut moves);
    }

    // Check for castling.
    // Making the assumption that the unmoved Rooks are in the corner
    if piece.is_type(PieceType::King) && !piece.has_moved() {
        let mut cm = get_castle_moves(game, piece);
        moves.append(&mut cm);
    }

    proof {
        assert(moves@ =~= piece_moves_spec(game@, piece));
    }
    moves
}

/// Whether `v` holds coordinate `c`.
pub(crate) fn coords_contain(v: &Vec<Coord>, c: Coord) -> (r: bool)
    ensures
        r == v@.contains(c),
{
    let mut i: usize = 0;
    while i < v.len()
        invariant
            i <= v@.len(),
            forall|j: int| 0 <= j < i ==> v@[j] != c,
        decreases v@.len() - i,
    {
        if v[i] == c {
            return true;
        }
        i += 1;
    }
    false
}

} // verus!
