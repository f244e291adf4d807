use vstd::prelude::*;

use crate::coord::Coord;

verus! {

#[derive(Copy, Clone, Debug, PartialEq, Eq, Structural)]
pub enum Side {
    Black,
    White,
}

/// The opponent of `side`.
pub open spec fn other_side(side: Side) -> Side {
    match side {
        Side::White => Side::Black,
        Side::Black => Side::White,
    }
}

/// The rank a pawn of `side` must reach to promote.
pub open spec fn promotion_y(side: Side) -> int {
    match side {
        Side::White => 7,
        Side::Black => 0,
    }
}

/// The direction, along the rank axis, in which a pawn of `side` advances.
pub open spec fn pawn_dir(side: Side) -> int {
    match side {
        Side::White => 1,
        Side::Black => -1,
    }
}

impl Side {
    pub fn other(&self) -> (r: Self)
        ensures
            r == other_side(*self),
    {
        match *self {
            Side::White => Side::Black,
            Side::Black => Side::White,
        }
    }

    pub fn get_promotion_y(&self) -> (r: i8)
        ensures
            r == promotion_y(*self),
    {
        match *self {
            Side::White => 7,
            Side::Black => 0,
        }
    }

    pub fn get_dir(&self) -> (r: i8)
        ensures
            r == pawn_dir(*self),
    {
        match *self {
            Side::White => 1,
            Side::Black => -1,
        }
    }
}

#[derive(Copy, Clone, Debug, PartialEq, Eq, Structural)]
pub enum PieceType {
    King,
    Queen,
    Bishop,
    Rook,
    Knight,
    Pawn,
}

#[derive(Copy, Clone, Debug, PartialEq, Eq, Structural)]
pub struct Piece {
    pub side: Side,
    pub has_moved: bool,
    pub piece_type: PieceType,
    pub loc: Coord,
}

impl Piece {
    pub fn new(side: Side, has_moved: bool, piece_type: PieceType, loc: Coord) -> (r: Self)
        ensures
            r == (Piece { side, has_moved, piece_type, loc }),
    {
        Self { side, has_moved, piece_type, loc }
    }

    pub fn is_type(&self, piece_type: PieceType) -> (r: bool)
        ensures
            r == (self.piece_type == piece_type),
    {
        self.piece_type == piece_type
    }

    pub fn get_type(&self) -> (r: PieceType)
        ensures
            r == self.piece_type,
    {
        self.piece_type
    }

    pub fn is_side(&self, side: Side) -> (r: bool)
        ensures
            r == (self.side == side),
    {
        self.side == side
    }

    pub fn get_side(&self) -> (r: Side)
        ensures
            r == self.side,
    {
        self.side
    }

    pub fn get_loc(&self) -> (r: Coord)
        ensures
            r == self.loc,
    {
        self.loc
    }

    pub fn has_moved(&self) -> (r: bool)
        ensures
            r == self.has_moved,
    {
        self.has_moved
    }

    pub fn move_to(&mut self, loc: Coord) -> (r: Self)
        ensures
            *final(self) == moved_piece(*old(self), loc),
            r == *final(self),
    {
        self.loc = loc;
        self.has_moved = true;
        *self
    }
}

/// The value a piece takes after being relocated to `loc`: same side and
/// type, marked as having moved.
pub open spec fn moved_piece(p: Piece, loc: Coord) -> Piece {
    Piece { loc, has_moved: true, ..p }
}

/// The letter a piece prints as: uppercase for White, lowercase for Black.
pub open spec fn piece_char(p: Piece) -> char {
    match p.side {
        Side::White => match p.piece_type {
            PieceType::King => 'K',
            PieceType::Queen => 'Q',
            PieceType::Bishop => 'B',
            PieceType::Knight => 'N',
            PieceType::Rook => 'R',
            PieceType::Pawn => 'P',
        },
        Side::Black => match p.piece_type {
            PieceType::King => 'k',
            PieceType::Queen => 'q',
            PieceType::Bishop => 'b',
            PieceType::Knight => 'n',
            PieceType::Rook => 'r',
            PieceType::Pawn => 'p',
        },
    }
}

pub fn get_piece_char(piece: &Piece) -> (r: char)
    ensures
        r == piece_char(*piece),
{
    match piece.side {
        Side::White => match piece.piece_type {
            PieceType::King => 'K',
            PieceType::Queen => 'Q',
            PieceType::Bishop => 'B',
            PieceType::Knight => 'N',
            PieceType::Rook => 'R',
            PieceType::Pawn => 'P',
        },
        Side::Black => match piece.piece_type {
            PieceType::King => 'k',
            PieceType::Queen => 'q',
            PieceType::Bishop => 'b',
            PieceType::Knight => 'n',
            PieceType::Rook => 'r',
            PieceType::Pawn => 'p',
        },
    }
}

} // verus!
