//! The seven shapes, their colours and their spawn masks.

use vstd::prelude::*;

verus! {

/// Columns of the visible playing field.
pub const VISIBLE_WIDTH: usize = 10;

/// Rows of the visible playing field.
pub const VISIBLE_HEIGHT: usize = 20;

/// Columns of the board.
pub const BOARD_WIDTH: usize = 10;

/// Rows of the board: the visible rows and as many hidden staging rows above them.
pub const BOARD_HEIGHT: usize = 40;

#[derive(Copy, Clone, Debug, PartialEq, Eq, Structural)]
pub enum Tetrimino {
    I,
    J,
    L,
    O,
    S,
    T,
    Z,
}

#[derive(Copy, Clone, Debug, PartialEq, Eq, Structural)]
pub enum PixelColor {
    LightBlue,
    DarkBlue,
    Orange,
    Yellow,
    Green,
    Red,
    Magenta,
    Gray,
}

/// One cell of the board.
#[derive(Copy, Clone, Debug, PartialEq, Eq, Structural)]
pub enum BoardPixel {
    Filled(PixelColor),
    Empty,
}

/// A mask as a grid of plain values: `mask_of(v)[x][y]` is `v[x][y]`.
pub open spec fn mask_of(v: Vec<Vec<bool>>) -> Seq<Seq<bool>> {
    Seq::new(v@.len(), |x: int| v@[x]@)
}

/// Every column of `mask` has as many cells as `mask` has columns.
pub open spec fn is_square(mask: Seq<Seq<bool>>) -> bool {
    forall|x: int| 0 <= x < mask.len() ==> (#[trigger] mask[x]).len() == mask.len()
}

/// A shape drawn as rows from top to bottom, turned into board coordinates:
/// the result is indexed `[x][y]`, with `y` growing upward.
pub open spec fn normalized(natural: Seq<Seq<bool>>) -> Seq<Seq<bool>> {
    Seq::new(
        natural.len(),
        |x: int| Seq::new(natural.len(), |y: int| natural[natural.len() - 1 - y][x]),
    )
}

impl Tetrimino {
    /// Side of the square box that holds the shape.
    pub open spec fn spec_size(self) -> nat {
        match self {
            Tetrimino::I => 4,
            Tetrimino::O => 2,
            _ => 3,
        }
    }

    /// The shape as it looks, rows from top to bottom.
    pub open spec fn natural_shape(self) -> Seq<Seq<bool>> {
        match self {
            Tetrimino::I => seq![
                seq![false, false, false, false],
                seq![true, true, true, true],
                seq![false, false, false, false],
                seq![false, false, false, false],
            ],
            Tetrimino::J => seq![
                seq![true, false, false],
                seq![true, true, true],
                seq![false, false, false],
            ],
            Tetrimino::L => seq![
                seq![false, false, true],
                seq![true, true, true],
                seq![false, false, false],
            ],
            Tetrimino::O => seq![seq![true, true], seq![true, true]],
            Tetrimino::S => seq![
                seq![false, true, true],
                seq![true, true, false],
                seq![false, false, false],
            ],
            Tetrimino::T => seq![
                seq![false, true, false],
                seq![true, true, true],
                seq![false, false, false],
            ],
            Tetrimino::Z => seq![
                seq![true, true, false],
                seq![false, true, true],
                seq![false, false, false],
            ],
        }
    }

    /// The mask of a freshly spawned piece, indexed `[x][y]` with `y` upward.
    pub open spec fn spec_bounding_box(self) -> Seq<Seq<bool>> {
        normalized(self.natural_shape())
    }

    pub open spec fn spec_color(self) -> PixelColor {
        match self {
            Tetrimino::I => PixelColor::LightBlue,
            Tetrimino::J => PixelColor::DarkBlue,
            Tetrimino::L => PixelColor::Orange,
            Tetrimino::O => PixelColor::Yellow,
            Tetrimino::S => PixelColor::Green,
            Tetrimino::T => PixelColor::Magenta,
            Tetrimino::Z => PixelColor::Red,
        }
    }

    /// The shape as it looks, rows from top to bottom.
    fn natural_rows(&self) -> (rows: Vec<Vec<bool>>)
        ensures
            mask_of(rows) == self.natural_shape(),
            is_square(mask_of(rows)),
            rows@.len() == self.spec_size(),
    {
        let rows = match self {
            Tetrimino::I => vec![
                vec![false, false, false, false],
                vec![true, true, true, true],
                vec![false, false, false, false],
                vec![false, false, false, false],
            ],
            Tetrimino::J => vec![
                vec![true, false, false],
                vec![true, true, true],
                vec![false, false, false],
            ],
            Tetrimino::L => vec![
                vec![false, false, true],
                vec![true, true, true],
                vec![false, false, false],
            ],
            Tetrimino::O => vec![vec![true, true], vec![true, true]],
            Tetrimino::S => vec![
                vec![false, true, true],
                vec![true, true, false],
                vec![false, false, false],
            ],
            Tetrimino::T => vec![
                vec![false, true, false],
                vec![true, true, true],
                vec![false, false, false],
            ],
            Tetrimino::Z => vec![
                vec![true, true, false],
                vec![false, true, true],
                vec![false, false, false],
            ],
        };
        assert(mask_of(rows) =~~= self.natural_shape());
        rows
    }

    /// The mask of a freshly spawned piece.
    pub fn bounding_box(&self) -> (mask: Vec<Vec<bool>>)
        ensures
            mask_of(mask) == self.spec_bounding_box(),
    {
        let rows = self.natural_rows();
        normalize_box(&rows)
    }

    pub fn color(&self) -> (color: PixelColor)
        ensures
            color == self.spec_color(),
    {
        match self {
            Tetrimino::I => PixelColor::LightBlue,
            Tetrimino::J => PixelColor::DarkBlue,
            Tetrimino::L => PixelColor::Orange,
            Tetrimino::O => PixelColor::Yellow,
            Tetrimino::S => PixelColor::Green,
            Tetrimino::T => PixelColor::Magenta,
            Tetrimino::Z => PixelColor::Red,
        }
    }
}

/// Turns a square shape drawn as rows from top to bottom into board
/// coordinates.
pub fn normalize_box(natural_box: &Vec<Vec<bool>>) -> (game_box: Vec<Vec<bool>>)
    requires
        is_square(mask_of(*natural_box)),
    ensures
        mask_of(game_box) == normalized(mask_of(*natural_box)),
{
    let n = natural_box.len();
    let mut game_box: Vec<Vec<bool>> = Vec::new();
    let mut x: usize = 0;
    while x < n
        invariant
            n == natural_box@.len(),
            is_square(mask_of(*natural_box)),
            x <= n,
            game_box@.len() == x,
            forall|i: int| 0 <= i < x ==> (#[trigger] game_box@[i])@ == normalized(mask_of(*natural_box))[i],
        decreases n - x,
    {
        let mut column: Vec<bool> = Vec::new();
        let mut y: usize = 0;
        while y < n
            invariant
                n == natural_box@.len(),
                is_square(mask_of(*natural_box)),
                x < n,
                y <= n,
                column@.len() == y,
                forall|j: int| 0 <= j < y ==> #[trigger] column@[j] == mask_of(*natural_box)[n - 1 - j][x as int],
            decreases n - y,
        {
            assert(mask_of(*natural_box)[n - 1 - y].len() == n);
            column.push(natural_box[n - 1 - y][x]);
            y += 1;
        }
        assert(column@ =~= normalized(mask_of(*natural_box))[x as int]);
        game_box.push(column);
        x += 1;
    }
    assert(mask_of(game_box) =~~= normalized(mask_of(*natural_box)));
    game_box
}

} // verus!
