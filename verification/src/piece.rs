//! A piece on the board: a shape, where it is and how it is turned; and the
//! candidates that a rotation tries.

use vstd::prelude::*;
use crate::board::{collides, on_board, Board};
use crate::tetrimino::{is_square, mask_of, BoardPixel, Tetrimino, BOARD_HEIGHT, BOARD_WIDTH};

verus! {

#[derive(Copy, Clone, Debug, PartialEq, Eq, Structural)]
pub enum Rotation {
    Clockwise,
    CounterClockwise,
}

#[derive(Copy, Clone, Debug, PartialEq, Eq, Structural)]
pub enum Orientation {
    North,
    East,
    South,
    West,
}

impl Orientation {
    /// The orientation after a quarter turn.
    pub open spec fn spec_turned(self, rotation: Rotation) -> Orientation {
        match (self, rotation) {
            (Orientation::North, Rotation::Clockwise) => Orientation::East,
            (Orientation::North, Rotation::CounterClockwise) => Orientation::West,
            (Orientation::East, Rotation::Clockwise) => Orientation::South,
            (Orientation::East, Rotation::CounterClockwise) => Orientation::North,
            (Orientation::South, Rotation::Clockwise) => Orientation::West,
            (Orientation::South, Rotation::CounterClockwise) => Orientation::East,
            (Orientation::West, Rotation::Clockwise) => Orientation::North,
            (Orientation::West, Rotation::CounterClockwise) => Orientation::South,
        }
    }

    /// The orientation after a quarter turn.
    pub fn turned(self, rotation: Rotation) -> (next: Orientation)
        ensures
            next == self.spec_turned(rotation),
    {
        match (self, rotation) {
            (Orientation::North, Rotation::Clockwise) => Orientation::East,
            (Orientation::North, Rotation::CounterClockwise) => Orientation::West,
            (Orientation::East, Rotation::Clockwise) => Orientation::South,
            (Orientation::East, Rotation::CounterClockwise) => Orientation::North,
            (Orientation::South, Rotation::Clockwise) => Orientation::West,
            (Orientation::South, Rotation::CounterClockwise) => Orientation::East,
            (Orientation::West, Rotation::Clockwise) => Orientation::North,
            (Orientation::West, Rotation::CounterClockwise) => Orientation::South,
        }
    }
}

/// A square mask after a quarter turn. Clockwise, the cell `[x][y]` of the
/// result is the cell `[n - 1 - y][x]` of `mask`; counter-clockwise it is the
/// cell `[y][n - 1 - x]`, which undoes the clockwise turn.
pub open spec fn turned_mask(mask: Seq<Seq<bool>>, rotation: Rotation) -> Seq<Seq<bool>> {
    let n = mask.len();
    match rotation {
        Rotation::Clockwise => Seq::new(n, |x: int| Seq::new(n, |y: int| mask[n - 1 - y][x])),
        Rotation::CounterClockwise => Seq::new(
            n,
            |x: int| Seq::new(n, |y: int| mask[y][n - 1 - x]),
        ),
    }
}

/// The mask of a shape in a given orientation: the spawn mask turned
/// clockwise zero to three times.
pub open spec fn oriented_mask(tetrimino: Tetrimino, orientation: Orientation) -> Seq<Seq<bool>> {
    let spawn = tetrimino.spec_bounding_box();
    let n = spawn.len();
    Seq::new(
        n,
        |x: int|
            Seq::new(
                n,
                |y: int|
                    match orientation {
                        Orientation::North => spawn[x][y],
                        Orientation::East => spawn[n - 1 - y][x],
                        Orientation::South => spawn[n - 1 - x][n - 1 - y],
                        Orientation::West => spawn[y][n - 1 - x],
                    },
            ),
    )
}

/// The offset corrections that a rotation tries, in order, for a shape that
/// starts in `orientation`. The O shape is listed but never tried.
pub open spec fn kick_table(
    tetrimino: Tetrimino,
    orientation: Orientation,
    rotation: Rotation,
) -> Seq<(int, int)> {
    match tetrimino {
        Tetrimino::O => seq![(0, 0), (0, 0), (0, 0), (0, 0), (0, 0)],
        Tetrimino::I => match (orientation, rotation) {
            (Orientation::North, Rotation::Clockwise) => seq![
                (0, 0),
                (-2, 0),
                (1, 0),
                (-2, -1),
                (1, 2),
            ],
            (Orientation::North, Rotation::CounterClockwise) => seq![
                (0, 0),
                (-1, 0),
                (2, 0),
                (-1, 2),
                (2, -1),
            ],
            (Orientation::East, Rotation::Clockwise) => seq![
                (0, 0),
                (-1, 0),
                (2, 0),
                (-1, 2),
                (2, -1),
            ],
            (Orientation::East, Rotation::CounterClockwise) => seq![
                (0, 0),
                (2, 0),
                (-1, 0),
                (2, 1),
                (-1, -2),
            ],
            (Orientation::South, Rotation::Clockwise) => seq![
                (0, 0),
                (2, 0),
                (-1, 0),
                (2, 1),
                (-1, -2),
            ],
            (Orientation::South, Rotation::CounterClockwise) => seq![
                (0, 0),
                (1, 0),
                (-2, 0),
                (1, -2),
                (-2, 1),
            ],
            (Orientation::West, Rotation::Clockwise) => seq![
                (0, 0),
                (1, 0),
                (-2, 0),
                (1, -2),
                (-2, 1),
            ],
            (Orientation::West, Rotation::CounterClockwise) => seq![
                (0, 0),
                (-2, 0),
                (1, 0),
                (-2, -1),
                (1, 2),
            ],
        },
        _ => match (orientation, rotation) {
            (Orientation::North, Rotation::Clockwise) => seq![
                (0, 0),
                (-1, 0),
                (-1, 1),
                (0, -2),
                (-1, -2),
            ],
            (Orientation::North, Rotation::CounterClockwise) => seq![
                (0, 0),
                (1, 0),
                (1, 1),
                (0, -2),
                (1, -2),
            ],
            (Orientation::East, _) => seq![(0, 0), (1, 0), (1, -1), (0, 2), (1, 2)],
            (Orientation::South, Rotation::Clockwise) => seq![
                (0, 0),
                (1, 0),
                (1, 1),
                (0, -2),
                (1, -2),
            ],
            (Orientation::South, Rotation::CounterClockwise) => seq![
                (0, 0),
                (-1, 0),
                (-1, 1),
                (0, -2),
                (-1, -2),
            ],
            (Orientation::West, _) => seq![(0, 0), (-1, 0), (-1, -1), (0, 2), (-1, 2)],
        },
    }
}

/// How many candidates a rotation of this shape has.
pub open spec fn candidate_count(tetrimino: Tetrimino) -> int {
    if tetrimino == Tetrimino::O {
        0
    } else {
        5
    }
}

/// The index of the candidate that a rotation accepts: the first one that is
/// clear of the board, if there is one.
pub open spec fn first_fit(
    piece: PieceView,
    rotation: Rotation,
    grid: Seq<Seq<BoardPixel>>,
) -> Option<int> {
    if piece.tetrimino == Tetrimino::O {
        None
    } else if !collides(grid, piece.candidate(rotation, 0)) {
        Some(0)
    } else if !collides(grid, piece.candidate(rotation, 1)) {
        Some(1)
    } else if !collides(grid, piece.candidate(rotation, 2)) {
        Some(2)
    } else if !collides(grid, piece.candidate(rotation, 3)) {
        Some(3)
    } else if !collides(grid, piece.candidate(rotation, 4)) {
        Some(4)
    } else {
        None
    }
}

/// What a rotation gives: the first candidate that is clear of the board,
/// or nothing when every candidate collides. The O shape has no candidate.
pub open spec fn rotated(
    piece: PieceView,
    rotation: Rotation,
    grid: Seq<Seq<BoardPixel>>,
) -> Option<PieceView> {
    match first_fit(piece, rotation, grid) {
        Some(index) => Some(piece.candidate(rotation, index)),
        None => None,
    }
}

/// A cell that the mask of the shape fills in the given orientation.
pub open spec fn anchor_cell(tetrimino: Tetrimino, orientation: Orientation) -> (int, int) {
    match tetrimino {
        Tetrimino::O => (0, 0),
        Tetrimino::I => match orientation {
            Orientation::North => (1, 2),
            Orientation::East => (2, 1),
            Orientation::South => (1, 1),
            Orientation::West => (1, 1),
        },
        _ => (1, 1),
    }
}

#[derive(Debug, Eq, PartialEq)]
pub struct Piece {
    /// Board coordinates of the cell `[0][0]` of the mask.
    pub offset: (isize, isize),
    /// The mask in the current orientation, indexed `[x][y]` with `y` upward.
    pub bounding_box: Vec<Vec<bool>>,
    pub tetrimino: Tetrimino,
    pub orientation: Orientation,
}

/// A piece as plain values.
pub struct PieceView {
    pub offset: (int, int),
    pub cells: Seq<Seq<bool>>,
    pub tetrimino: Tetrimino,
    pub orientation: Orientation,
}

impl View for Piece {
    type V = PieceView;

    open spec fn view(&self) -> PieceView {
        PieceView {
            offset: (self.offset.0 as int, self.offset.1 as int),
            cells: mask_of(self.bounding_box),
            tetrimino: self.tetrimino,
            orientation: self.orientation,
        }
    }
}

impl Clone for Piece {
    fn clone(&self) -> (copy: Piece)
        ensures
            copy@ == self@,
    {
        Piece {
            offset: (self.offset.0, self.offset.1),
            bounding_box: copy_box(&self.bounding_box),
            tetrimino: self.tetrimino,
            orientation: self.orientation,
        }
    }
}

impl PieceView {
    /// The mask is the one of the shape in the piece's orientation.
    pub open spec fn wf(self) -> bool {
        self.cells == oriented_mask(self.tetrimino, self.orientation)
    }

    /// The mask has a filled cell at `[x][y]`.
    pub open spec fn filled(self, x: int, y: int) -> bool {
        0 <= x < self.cells.len() && 0 <= y < self.cells[x].len() && self.cells[x][y]
    }

    /// The piece fills the board cell `(x, y)`.
    pub open spec fn covers(self, x: int, y: int) -> bool {
        self.filled(x - self.offset.0, y - self.offset.1)
    }

    /// The piece moved by `(dx, dy)`.
    pub open spec fn shifted(self, dx: int, dy: int) -> PieceView {
        PieceView { offset: (self.offset.0 + dx, self.offset.1 + dy), ..self }
    }

    /// A fresh piece of the given shape at `offset`.
    pub open spec fn fresh(tetrimino: Tetrimino, offset: (int, int)) -> PieceView {
        PieceView {
            offset,
            cells: tetrimino.spec_bounding_box(),
            tetrimino,
            orientation: Orientation::North,
        }
    }

    /// The `index`-th candidate of a rotation: the mask turned, the offset
    /// corrected by the `index`-th entry of the kick table.
    pub open spec fn candidate(self, rotation: Rotation, index: int) -> PieceView {
        let kick = kick_table(self.tetrimino, self.orientation, rotation)[index];
        PieceView {
            offset: (self.offset.0 + kick.0, self.offset.1 + kick.1),
            cells: turned_mask(self.cells, rotation),
            tetrimino: self.tetrimino,
            orientation: self.orientation.spec_turned(rotation),
        }
    }

    /// Every candidate's offset fits the machine's integers.
    pub open spec fn can_kick(self) -> bool {
        &&& isize::MIN + 2 <= self.offset.0 <= isize::MAX - 2
        &&& isize::MIN + 2 <= self.offset.1 <= isize::MAX - 2
    }
}

/// The cells of the first `columns` columns of `mask`, column by column and
/// upward within a column, each with its coordinates.
pub open spec fn mask_cells(mask: Seq<Seq<bool>>, columns: nat) -> Seq<(usize, usize, bool)>
    decreases columns,
{
    if columns == 0 {
        Seq::empty()
    } else {
        let x = (columns - 1) as int;
        mask_cells(mask, (columns - 1) as nat) + Seq::new(
            mask[x].len(),
            |y: int| (x as usize, y as usize, mask[x][y]),
        )
    }
}

/// A copy of a mask.
pub fn copy_box(bounding_box: &Vec<Vec<bool>>) -> (copy: Vec<Vec<bool>>)
    ensures
        mask_of(copy) == mask_of(*bounding_box),
{
    let mut copy: Vec<Vec<bool>> = Vec::new();
    let mut x: usize = 0;
    while x < bounding_box.len()
        invariant
            x <= bounding_box@.len(),
            copy@.len() == x,
            forall|i: int| 0 <= i < x ==> (#[trigger] copy@[i])@ == bounding_box@[i]@,
        decreases bounding_box@.len() - x,
    {
        let mut column: Vec<bool> = Vec::new();
        let mut y: usize = 0;
        while y < bounding_box[x].len()
            invariant
                x < bounding_box@.len(),
                y <= bounding_box@[x as int]@.len(),
                column@.len() == y,
                forall|j: int| 0 <= j < y ==> #[trigger] column@[j] == bounding_box@[x as int]@[j],
            decreases bounding_box@[x as int]@.len() - y,
        {
            column.push(bounding_box[x][y]);
            y += 1;
        }
        assert(column@ =~= bounding_box@[x as int]@);
        copy.push(column);
        x += 1;
    }
    assert(mask_of(copy) =~~= mask_of(*bounding_box));
    copy
}

/// A quarter turn of a square mask.
pub fn turn_box(bounding_box: &Vec<Vec<bool>>, rotation: Rotation) -> (turned: Vec<Vec<bool>>)
    requires
        is_square(mask_of(*bounding_box)),
    ensures
        mask_of(turned) == turned_mask(mask_of(*bounding_box), rotation),
{
    let n = bounding_box.len();
    let ghost mask = mask_of(*bounding_box);
    let mut turned: Vec<Vec<bool>> = Vec::new();
    let mut x: usize = 0;
    while x < n
        invariant
            n == bounding_box@.len(),
            mask == mask_of(*bounding_box),
            is_square(mask),
            x <= n,
            turned@.len() == x,
            forall|i: int| 0 <= i < x ==> (#[trigger] turned@[i])@ == turned_mask(mask, rotation)[i],
        decreases n - x,
    {
        let mut column: Vec<bool> = Vec::new();
        let mut y: usize = 0;
        while y < n
            invariant
                n == bounding_box@.len(),
                mask == mask_of(*bounding_box),
                is_square(mask),
                x < n,
                y <= n,
                column@.len() == y,
                forall|j: int| 0 <= j < y ==> #[trigger] column@[j] == turned_mask(mask, rotation)[x as int][j],
            decreases n - y,
        {
            let cell = match rotation {
                Rotation::Clockwise => {
                    assert(mask[n - 1 - y].len() == n);
                    bounding_box[n - 1 - y][x]
                },
                Rotation::CounterClockwise => {
                    assert(mask[y as int].len() == n);
                    bounding_box[y][n - 1 - x]
                },
            };
            column.push(cell);
            y += 1;
        }
        assert(column@ =~= turned_mask(mask, rotation)[x as int]);
        turned.push(column);
        x += 1;
    }
    assert(mask_of(turned) =~~= turned_mask(mask, rotation));
    turned
}

impl Piece {
    /// A fresh piece of the given shape, facing north, at `offset`.
    pub fn new(tetrimino: Tetrimino, offset: (isize, isize)) -> (piece: Piece)
        ensures
            piece@ == PieceView::fresh(tetrimino, (offset.0 as int, offset.1 as int)),
            piece@.wf(),
    {
        let piece = Piece {
            offset,
            bounding_box: tetrimino.bounding_box(),
            tetrimino,
            orientation: Orientation::North,
        };
        proof {
            lemma_spawn_mask(tetrimino);
        }
        piece
    }

    /// Every cell of the mask with its coordinates and whether it is filled,
    /// column by column.
    pub fn filled_pixels(&self) -> (cells: Vec<(usize, usize, bool)>)
        ensures
            cells@ == mask_cells(self@.cells, self@.cells.len()),
    {
        let ghost mask = self@.cells;
        let mut cells: Vec<(usize, usize, bool)> = Vec::new();
        let mut x: usize = 0;
        while x < self.bounding_box.len()
            invariant
                mask == mask_of(self.bounding_box),
                x <= self.bounding_box@.len(),
                cells@ == mask_cells(mask, x as nat),
            decreases self.bounding_box@.len() - x,
        {
            let ghost before = cells@;
            let mut y: usize = 0;
            while y < self.bounding_box[x].len()
                invariant
                    mask == mask_of(self.bounding_box),
                    x < self.bounding_box@.len(),
                    y <= mask[x as int].len(),
                    cells@ == before + Seq::new(
                        y as nat,
                        |j: int| (x, j as usize, mask[x as int][j]),
                    ),
                decreases mask[x as int].len() - y,
            {
                cells.push((x, y, self.bounding_box[x][y]));
                assert(cells@ =~= before + Seq::new(
                    (y + 1) as nat,
                    |j: int| (x, j as usize, mask[x as int][j]),
                ));
                y += 1;
            }
            assert(cells@ =~= mask_cells(mask, (x + 1) as nat));
            x += 1;
        }
        cells
    }

    /// The piece turned to `next_orientation` and moved by `kick`, or nothing
    /// when the machine's integers cannot hold its offset.
    fn kicked(
        &self,
        rotation: Rotation,
        next_orientation: Orientation,
        kick: (isize, isize),
    ) -> (turned: Option<Piece>)
        requires
            self@.wf(),
            next_orientation == self.orientation.spec_turned(rotation),
        ensures
            match turned {
                Some(piece) => piece@ == (PieceView {
                    offset: (self@.offset.0 + kick.0, self@.offset.1 + kick.1),
                    cells: turned_mask(self@.cells, rotation),
                    tetrimino: self.tetrimino,
                    orientation: self.orientation.spec_turned(rotation),
                }),
                None => !(isize::MIN <= self@.offset.0 + kick.0 <= isize::MAX && isize::MIN
                    <= self@.offset.1 + kick.1 <= isize::MAX),
            },
    {
        match (self.offset.0.checked_add(kick.0), self.offset.1.checked_add(kick.1)) {
            (Some(x), Some(y)) => {
                proof {
                    lemma_oriented_mask_square(self.tetrimino, self.orientation);
                }
                Some(
                    Piece {
                        offset: (x, y),
                        bounding_box: turn_box(&self.bounding_box, rotation),
                        tetrimino: self.tetrimino,
                        orientation: next_orientation,
                    },
                )
            },
            _ => None,
        }
    }

    /// The piece moved by `(dx, dy)`, or nothing when the machine's integers
    /// cannot hold its offset.
    pub fn moved(&self, dx: isize, dy: isize) -> (shifted: Option<Piece>)
        ensures
            match shifted {
                Some(piece) => piece@ == self@.shifted(dx as int, dy as int),
                None => !(isize::MIN <= self@.offset.0 + dx <= isize::MAX && isize::MIN
                    <= self@.offset.1 + dy <= isize::MAX),
            },
    {
        match (self.offset.0.checked_add(dx), self.offset.1.checked_add(dy)) {
            (Some(x), Some(y)) => Some(
                Piece {
                    offset: (x, y),
                    bounding_box: copy_box(&self.bounding_box),
                    tetrimino: self.tetrimino,
                    orientation: self.orientation,
                },
            ),
            _ => None,
        }
    }

    /// Turns the piece by a quarter. The candidates of the kick table are
    /// tried in order, and the first one that is clear of the board is the
    /// result. When all collide, or the shape is an O, there is none.
    pub fn rotate(&self, rotation: Rotation, board: &Board) -> (turned: Option<Piece>)
        requires
            self@.wf(),
        ensures
            match turned {
                Some(piece) => rotated(self@, rotation, board@) == Some(piece@) && piece@.wf(),
                None => rotated(self@, rotation, board@) is None,
            },
    {
        if self.tetrimino == Tetrimino::O {
            return None;
        }
        let next_orientation = self.orientation.turned(rotation);
        let points = self.rotation_points(rotation);
        let mut index: usize = 0;
        while index < 5
            invariant
                self@.wf(),
                self.tetrimino != Tetrimino::O,
                next_orientation == self.orientation.spec_turned(rotation),
                index <= 5,
                forall|i: int|
                    0 <= i < 5 ==> (#[trigger] points@[i].0 as int, points@[i].1 as int)
                        == kick_table(self.tetrimino, self.orientation, rotation)[i],
                forall|i: int|
                    0 <= i < index ==> collides(board@, #[trigger] self@.candidate(rotation, i)),
            decreases 5 - index,
        {
            let ghost candidate = self@.candidate(rotation, index as int);
            proof {
                assert((points@[index as int].0 as int, points@[index as int].1 as int)
                    == kick_table(self.tetrimino, self.orientation, rotation)[index as int]);
                lemma_turned_mask(self.tetrimino, self.orientation, rotation);
            }
            match self.kicked(rotation, next_orientation, points[index]) {
                Some(piece) => {
                    assert(piece@ == candidate);
                    if !board.check_collision(&piece) {
                        return Some(piece);
                    }
                },
                None => {
                    proof {
                        lemma_far_piece_collides(board@, candidate);
                    }
                },
            }
            index += 1;
        }
        None
    }

    /// The candidates of a rotation, to be taken one by one.
    pub fn iter_rotate(&self, rotation: Rotation) -> (candidates: PieceRotationIter<'_>)
        requires
            self@.wf(),
            self@.can_kick(),
        ensures
            candidates.wf(),
            candidates.piece() == self@,
            candidates.rotation() == rotation,
            candidates.index() == 0,
    {
        let next_orientation = self.orientation.turned(rotation);
        PieceRotationIter {
            piece: self,
            index: 0,
            rotation,
            next_orientation,
            rotation_points: self.rotation_points(rotation),
        }
    }

    /// The offset corrections that a rotation of this piece tries, in order.
    pub fn rotation_points(&self, rotation: Rotation) -> (points: [(isize, isize); 5])
        ensures
            forall|i: int|
                0 <= i < 5 ==> (#[trigger] points@[i].0 as int, points@[i].1 as int) == kick_table(
                    self.tetrimino,
                    self.orientation,
                    rotation,
                )[i],
    {
        match self.tetrimino {
            Tetrimino::J | Tetrimino::L | Tetrimino::S | Tetrimino::T | Tetrimino::Z => {
                match (self.orientation, rotation) {
                    (Orientation::North, Rotation::Clockwise) => {
                        [(0, 0), (-1, 0), (-1, 1), (0, -2), (-1, -2)]
                    },
                    (Orientation::North, Rotation::CounterClockwise) => {
                        [(0, 0), (1, 0), (1, 1), (0, -2), (1, -2)]
                    },
                    (Orientation::East, Rotation::Clockwise) => {
                        [(0, 0), (1, 0), (1, -1), (0, 2), (1, 2)]
                    },
                    (Orientation::East, Rotation::CounterClockwise) => {
                        [(0, 0), (1, 0), (1, -1), (0, 2), (1, 2)]
                    },
                    (Orientation::South, Rotation::Clockwise) => {
                        [(0, 0), (1, 0), (1, 1), (0, -2), (1, -2)]
                    },
                    (Orientation::South, Rotation::CounterClockwise) => {
                        [(0, 0), (-1, 0), (-1, 1), (0, -2), (-1, -2)]
                    },
                    (Orientation::West, Rotation::Clockwise) => {
                        [(0, 0), (-1, 0), (-1, -1), (0, 2), (-1, 2)]
                    },
                    (Orientation::West, Rotation::CounterClockwise) => {
                        [(0, 0), (-1, 0), (-1, -1), (0, 2), (-1, 2)]
                    },
                }
            },
            Tetrimino::I => match (self.orientation, rotation) {
                (Orientation::North, Rotation::Clockwise) => {
                    [(0, 0), (-2, 0), (1, 0), (-2, -1), (1, 2)]
                },
                (Orientation::North, Rotation::CounterClockwise) => {
                    [(0, 0), (-1, 0), (2, 0), (-1, 2), (2, -1)]
                },
                (Orientation::East, Rotation::Clockwise) => {
                    [(0, 0), (-1, 0), (2, 0), (-1, 2), (2, -1)]
                },
                (Orientation::East, Rotation::CounterClockwise) => {
                    [(0, 0), (2, 0), (-1, 0), (2, 1), (-1, -2)]
                },
                (Orientation::South, Rotation::Clockwise) => {
                    [(0, 0), (2, 0), (-1, 0), (2, 1), (-1, -2)]
                },
                (Orientation::South, Rotation::CounterClockwise) => {
                    [(0, 0), (1, 0), (-2, 0), (1, -2), (-2, 1)]
                },
                (Orientation::West, Rotation::Clockwise) => {
                    [(0, 0), (1, 0), (-2, 0), (1, -2), (-2, 1)]
                },
                (Orientation::West, Rotation::CounterClockwise) => {
                    [(0, 0), (-2, 0), (1, 0), (-2, -1), (1, 2)]
                },
            },
            Tetrimino::O => [(0, 0), (0, 0), (0, 0), (0, 0), (0, 0)],
        }
    }
}

/// The candidates of one rotation of one piece, and how many were taken.
pub struct PieceRotationIter<'p> {
    piece: &'p Piece,
    index: usize,
    rotation: Rotation,
    next_orientation: Orientation,
    rotation_points: [(isize, isize); 5],
}

impl<'p> PieceRotationIter<'p> {
    /// The piece that is turned.
    pub closed spec fn piece(&self) -> PieceView {
        self.piece@
    }

    pub closed spec fn rotation(&self) -> Rotation {
        self.rotation
    }

    /// How many candidates were taken.
    pub closed spec fn index(&self) -> int {
        self.index as int
    }

    pub closed spec fn wf(&self) -> bool {
        &&& self.piece@.wf()
        &&& self.piece@.can_kick()
        &&& self.index <= 5
        &&& self.next_orientation == self.piece.orientation.spec_turned(self.rotation)
        &&& forall|i: int|
            0 <= i < 5 ==> (
                #[trigger] self.rotation_points@[i].0 as int,
                self.rotation_points@[i].1 as int,
            ) == kick_table(self.piece.tetrimino, self.piece.orientation, self.rotation)[i]
    }

    /// The next candidate, while there is one: five for every shape but the
    /// O, which has none.
    pub fn next(&mut self) -> (item: Option<Piece>)
        requires
            old(self).wf(),
        ensures
            final(self).wf(),
            final(self).piece() == old(self).piece(),
            final(self).rotation() == old(self).rotation(),
            match item {
                Some(piece) => {
                    &&& old(self).index() < candidate_count(old(self).piece().tetrimino)
                    &&& piece@ == old(self).piece().candidate(
                        old(self).rotation(),
                        old(self).index(),
                    )
                    &&& piece@.wf()
                    &&& final(self).index() == old(self).index() + 1
                },
                None => {
                    &&& old(self).index() >= candidate_count(old(self).piece().tetrimino)
                    &&& final(self).index() == old(self).index()
                },
            },
    {
        if self.index < 5 && self.piece.tetrimino != Tetrimino::O {
            let kick = self.rotation_points[self.index];
            proof {
                assert((
                    self.rotation_points@[self.index as int].0 as int,
                    self.rotation_points@[self.index as int].1 as int,
                ) == kick_table(self.piece.tetrimino, self.piece.orientation, self.rotation)[self.index as int]);
                lemma_kick_reach(self.piece.tetrimino, self.piece.orientation, self.rotation, self.index as int);
                lemma_turned_mask(self.piece.tetrimino, self.piece.orientation, self.rotation);
            }
            let item = self.piece.kicked(self.rotation, self.next_orientation, kick);
            self.index += 1;
            item
        } else {
            None
        }
    }

    /// How many entries of the kick table are left, as both bounds.
    pub fn size_hint(&self) -> (bounds: (usize, Option<usize>))
        requires
            self.wf(),
        ensures
            bounds.0 == 5 - self.index(),
            bounds.1 == Some(bounds.0),
    {
        let remaining = 5 - self.index;
        (remaining, Some(remaining))
    }
}

/// No entry of the kick table moves a piece by more than two cells.
pub proof fn lemma_kick_reach(
    tetrimino: Tetrimino,
    orientation: Orientation,
    rotation: Rotation,
    index: int,
)
    requires
        0 <= index < 5,
    ensures
        -2 <= kick_table(tetrimino, orientation, rotation)[index].0 <= 2,
        -2 <= kick_table(tetrimino, orientation, rotation)[index].1 <= 2,
{
}

/// The mask of a shape fills its anchor cell, in every orientation.
pub proof fn lemma_anchor_cell(tetrimino: Tetrimino, orientation: Orientation)
    ensures
        0 <= anchor_cell(tetrimino, orientation).0 < tetrimino.spec_size(),
        0 <= anchor_cell(tetrimino, orientation).1 < tetrimino.spec_size(),
        oriented_mask(tetrimino, orientation)[anchor_cell(tetrimino, orientation).0][anchor_cell(
            tetrimino,
            orientation,
        ).1],
{
}

/// A piece whose mask lies wholly beyond the board collides.
pub proof fn lemma_far_piece_collides(grid: Seq<Seq<BoardPixel>>, piece: PieceView)
    requires
        piece.wf(),
        !(-4 < piece.offset.0 < BOARD_WIDTH && -4 < piece.offset.1 < BOARD_HEIGHT),
    ensures
        collides(grid, piece),
{
    let (x, y) = anchor_cell(piece.tetrimino, piece.orientation);
    lemma_anchor_cell(piece.tetrimino, piece.orientation);
    assert(piece.filled(x, y));
    assert(!on_board(x + piece.offset.0, y + piece.offset.1));
}

/// The spawn mask is the mask that faces north, and it is square.
pub proof fn lemma_spawn_mask(tetrimino: Tetrimino)
    ensures
        oriented_mask(tetrimino, Orientation::North) == tetrimino.spec_bounding_box(),
        tetrimino.spec_bounding_box().len() == tetrimino.spec_size(),
        is_square(tetrimino.spec_bounding_box()),
{
    assert(oriented_mask(tetrimino, Orientation::North) =~~= tetrimino.spec_bounding_box());
}

/// A mask of a shape is square, with the side of the shape.
pub proof fn lemma_oriented_mask_square(tetrimino: Tetrimino, orientation: Orientation)
    ensures
        oriented_mask(tetrimino, orientation).len() == tetrimino.spec_size(),
        is_square(oriented_mask(tetrimino, orientation)),
{
}

/// Turning the mask of a shape gives the mask of the turned orientation.
pub proof fn lemma_turned_mask(tetrimino: Tetrimino, orientation: Orientation, rotation: Rotation)
    ensures
        turned_mask(oriented_mask(tetrimino, orientation), rotation) == oriented_mask(
            tetrimino,
            orientation.spec_turned(rotation),
        ),
{
    assert(turned_mask(oriented_mask(tetrimino, orientation), rotation) =~~= oriented_mask(
        tetrimino,
        orientation.spec_turned(rotation),
    ));
}

} // verus!
