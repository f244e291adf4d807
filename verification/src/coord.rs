use vstd::prelude::*;

verus! {

/// The linear index of the square with file `x` and rank `y`.
/// Index 0 is the top-left corner (file 0, rank 7); index 63 is the
/// bottom-right corner (file 7, rank 0).
pub open spec fn coord_index(x: int, y: int) -> int {
    x + 8 * (7 - y)
}

/// The file of the square with linear index `i`.
pub open spec fn coord_x(i: int) -> int {
    i % 8
}

/// The rank of the square with linear index `i`.
pub open spec fn coord_y(i: int) -> int {
    7 - i / 8
}

/// Whether the square with file `x` and rank `y` lies on the board.
pub open spec fn on_board(x: int, y: int) -> bool {
    0 <= x < 8 && 0 <= y < 8
}

/// The coordinate of the square with file `x` and rank `y`.
pub open spec fn coord_at(x: int, y: int) -> Coord {
    Coord { index: coord_index(x, y) as usize }
}

/// Coordinate system for the board
#[derive(Copy, Clone, PartialEq, Eq, Structural, Debug, Hash)]
pub struct Coord {
    pub index: usize,
}

impl Coord {
    /// A coordinate is meaningful only when it denotes one of the 64 squares.
    pub open spec fn wf(&self) -> bool {
        self.index < 64
    }

    /// The file, in [0, 8), of a well-formed coordinate.
    pub open spec fn x(&self) -> int {
        coord_x(self.index as int)
    }

    /// The rank, in [0, 8), of a well-formed coordinate.
    pub open spec fn y(&self) -> int {
        coord_y(self.index as int)
    }

    pub fn from_index(index: usize) -> (r: Self)
        requires
            index < 64,
        ensures
            r.index == index,
            r.wf(),
    {
        Self { index }
    }

    pub fn from_x_and_y(x: i8, y: i8) -> (r: Self)
        requires
            0 <= x < 8,
            0 <= y < 8,
        ensures
            r.index == coord_index(x as int, y as int),
            r == coord_at(x as int, y as int),
            r.wf(),
            r.x() == x,
            r.y() == y,
    {
        proof {
            lemma_xy_index_round_trip(x as int, y as int);
        }
        Self { index: x as usize + (8 * (7 - (y as usize))) }
    }

    pub fn get_index(&self) -> (r: usize)
        ensures
            r == self.index,
    {
        self.index
    }

    pub fn get_x_and_y(&self) -> (r: [i8; 2])
        requires
            self.wf(),
        ensures
            r[0] == self.x(),
            r[1] == self.y(),
            0 <= self.x() < 8,
            0 <= self.y() < 8,
    {
        [(self.index % 8) as i8, 7 - (self.index / 8) as i8]
    }
}

/// Round trip through file and rank: decomposing a square index into its
/// file and rank and recombining them yields the index again.
pub proof fn lemma_index_xy_round_trip(i: int)
    requires
        0 <= i < 64,
    ensures
        0 <= coord_x(i) < 8,
        0 <= coord_y(i) < 8,
        coord_index(coord_x(i), coord_y(i)) == i,
{
}

/// Round trip through the linear index: the square index built from a file
/// and a rank is on the board and decomposes back into the same file and rank.
pub proof fn lemma_xy_index_round_trip(x: int, y: int)
    requires
        0 <= x < 8,
        0 <= y < 8,
    ensures
        0 <= coord_index(x, y) < 64,
        coord_x(coord_index(x, y)) == x,
        coord_y(coord_index(x, y)) == y,
{
}

/// Round trip at the coordinate level: a well-formed coordinate is exactly
/// the coordinate of its own file and rank.
pub proof fn lemma_coord_round_trip(c: Coord)
    requires
        c.wf(),
    ensures
        coord_at(c.x(), c.y()) == c,
{
    lemma_index_xy_round_trip(c.index as int);
}

} // verus!
