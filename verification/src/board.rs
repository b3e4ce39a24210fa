//! The grid of cells that pieces fall into.

use vstd::prelude::*;
use rand::rngs::StdRng;
use crate::piece::{Piece, PieceView};
use crate::rng::below;
use crate::tetrimino::{BoardPixel, PixelColor, BOARD_HEIGHT, BOARD_WIDTH};

verus! {

/// The cell `(x, y)` lies on the board.
pub open spec fn on_board(x: int, y: int) -> bool {
    0 <= x < BOARD_WIDTH && 0 <= y < BOARD_HEIGHT
}

/// `grid` has the rows and columns of a board. A grid is indexed `[y][x]`,
/// with row 0 at the bottom.
pub open spec fn is_grid(grid: Seq<Seq<BoardPixel>>) -> bool {
    &&& grid.len() == BOARD_HEIGHT
    &&& forall|y: int| 0 <= y < BOARD_HEIGHT ==> (#[trigger] grid[y]).len() == BOARD_WIDTH
}

/// What a read of the cell `(x, y)` gives: beyond the board lies a wall.
pub open spec fn pixel_at(grid: Seq<Seq<BoardPixel>>, x: int, y: int) -> BoardPixel {
    if on_board(x, y) {
        grid[y][x]
    } else {
        BoardPixel::Filled(PixelColor::Gray)
    }
}

/// The cell `(x, y)` is filled, or lies beyond the board.
pub open spec fn occupied(grid: Seq<Seq<BoardPixel>>, x: int, y: int) -> bool {
    pixel_at(grid, x, y) != BoardPixel::Empty
}

/// Some filled cell of the piece lies on an occupied cell.
pub open spec fn collides(grid: Seq<Seq<BoardPixel>>, piece: PieceView) -> bool {
    exists|x: int, y: int|
        #[trigger] piece.filled(x, y) && occupied(grid, x + piece.offset.0, y + piece.offset.1)
}

pub open spec fn empty_row() -> Seq<BoardPixel> {
    Seq::new(BOARD_WIDTH as nat, |x: int| BoardPixel::Empty)
}

pub open spec fn empty_grid() -> Seq<Seq<BoardPixel>> {
    Seq::new(BOARD_HEIGHT as nat, |y: int| empty_row())
}

/// `grid` after a write to the cell `(x, y)`: a write beyond the board changes
/// nothing.
pub open spec fn with_pixel(
    grid: Seq<Seq<BoardPixel>>,
    x: int,
    y: int,
    pixel: BoardPixel,
) -> Seq<Seq<BoardPixel>> {
    if on_board(x, y) {
        grid.update(y, grid[y].update(x, pixel))
    } else {
        grid
    }
}

/// `grid` after row `row` is cleared: the rows from `row` on hold what the row
/// above them held, and the top row is empty.
pub open spec fn without_row(grid: Seq<Seq<BoardPixel>>, row: int) -> Seq<Seq<BoardPixel>> {
    Seq::new(
        BOARD_HEIGHT as nat,
        |y: int|
            if y == BOARD_HEIGHT - 1 {
                empty_row()
            } else if y >= row {
                grid[y + 1]
            } else {
                grid[y]
            },
    )
}

/// A garbage row: gray but for one empty cell.
pub open spec fn garbage_row(gap: int) -> Seq<BoardPixel> {
    Seq::new(
        BOARD_WIDTH as nat,
        |x: int|
            if x == gap {
                BoardPixel::Empty
            } else {
                BoardPixel::Filled(PixelColor::Gray)
            },
    )
}

/// How many garbage rows an injection of `rows` rows puts on the board.
pub open spec fn injected(rows: int) -> int {
    if rows < BOARD_HEIGHT {
        rows
    } else {
        BOARD_HEIGHT as int
    }
}

/// `gaps` names one column of the board for each row that an injection of
/// `rows` rows puts on the board.
pub open spec fn is_gaps(gaps: Seq<usize>, rows: int) -> bool {
    &&& gaps.len() == injected(rows)
    &&& forall|y: int| 0 <= y < gaps.len() ==> #[trigger] gaps[y] < BOARD_WIDTH
}

/// `grid` after `rows` garbage rows are injected: what was there moves up by
/// `rows`, and row `y` below it is a garbage row with its gap at `gaps[y]`.
pub open spec fn raised(
    grid: Seq<Seq<BoardPixel>>,
    rows: int,
    gaps: Seq<usize>,
) -> Seq<Seq<BoardPixel>> {
    Seq::new(
        BOARD_HEIGHT as nat,
        |y: int|
            if y < rows {
                garbage_row(gaps[y] as int)
            } else {
                grid[y - rows]
            },
    )
}

/// No cell of row `y` reads as empty. A row beyond the board is full.
pub open spec fn row_full(grid: Seq<Seq<BoardPixel>>, y: int) -> bool {
    forall|x: int| 0 <= x < BOARD_WIDTH ==> #[trigger] occupied(grid, x, y)
}

/// No row of the board is full.
pub open spec fn no_full_rows(grid: Seq<Seq<BoardPixel>>) -> bool {
    forall|y: int| 0 <= y < BOARD_HEIGHT ==> !#[trigger] row_full(grid, y)
}

/// `grid` with the filled cells of the piece written into it, in the colour
/// of its shape.
pub open spec fn with_piece(grid: Seq<Seq<BoardPixel>>, piece: PieceView) -> Seq<Seq<BoardPixel>> {
    Seq::new(
        BOARD_HEIGHT as nat,
        |y: int|
            Seq::new(
                BOARD_WIDTH as nat,
                |x: int|
                    if piece.covers(x, y) {
                        BoardPixel::Filled(piece.tetrimino.spec_color())
                    } else {
                        grid[y][x]
                    },
            ),
    )
}

/// The scan for full rows after a lock. It looks at the `height` rows from
/// `bottom` on, the topmost first, and clears each one that is full and not
/// below the board. The result is the grid after the scan and the number of
/// rows cleared.
pub open spec fn swept(grid: Seq<Seq<BoardPixel>>, bottom: int, height: nat) -> (
    Seq<Seq<BoardPixel>>,
    nat,
)
    decreases height,
{
    if height == 0 {
        (grid, 0)
    } else {
        let row = bottom + height - 1;
        if row >= 0 && row_full(grid, row) {
            let rest = swept(without_row(grid, row), bottom, (height - 1) as nat);
            (rest.0, rest.1 + 1)
        } else {
            swept(grid, bottom, (height - 1) as nat)
        }
    }
}

pub struct Board {
    pixels: [[BoardPixel; BOARD_WIDTH]; BOARD_HEIGHT],
}

impl View for Board {
    type V = Seq<Seq<BoardPixel>>;

    /// The cells as a grid, indexed `[y][x]`.
    closed spec fn view(&self) -> Seq<Seq<BoardPixel>> {
        Seq::new(
            BOARD_HEIGHT as nat,
            |y: int| Seq::new(BOARD_WIDTH as nat, |x: int| self.pixels@[y]@[x]),
        )
    }
}

impl Board {
    /// The view of a board has the rows and columns of a board.
    pub proof fn lemma_is_grid(&self)
        ensures
            is_grid(self@),
    {
    }

    /// A board with every cell empty.
    pub fn new() -> (board: Board)
        ensures
            board@ == empty_grid(),
    {
        let board = Board { pixels: [[BoardPixel::Empty; BOARD_WIDTH]; BOARD_HEIGHT] };
        assert(board@ =~~= empty_grid());
        board
    }

    /// Whether `(x, y)` lies on the board.
    pub fn on_board(x: isize, y: isize) -> (on: bool)
        ensures
            on == on_board(x as int, y as int),
    {
        x >= 0 && x < BOARD_WIDTH as isize && y >= 0 && y < BOARD_HEIGHT as isize
    }

    /// The cell `(x, y)`; beyond the board, a filled cell.
    pub fn get(&self, x: isize, y: isize) -> (pixel: BoardPixel)
        ensures
            pixel == pixel_at(self@, x as int, y as int),
    {
        if Self::on_board(x, y) {
            self.pixels[y as usize][x as usize]
        } else {
            BoardPixel::Filled(PixelColor::Gray)
        }
    }

    /// Writes the cell `(x, y)`; beyond the board, nothing.
    pub fn set(&mut self, x: isize, y: isize, pixel: BoardPixel)
        ensures
            final(self)@ == with_pixel(old(self)@, x as int, y as int, pixel),
    {
        if Self::on_board(x, y) {
            self.pixels[y as usize][x as usize] = pixel;
        }
        assert(self@ =~~= with_pixel(old(self)@, x as int, y as int, pixel));
    }

    /// Whether the cell `(x, y)` is filled or beyond the board, for
    /// coordinates of any size.
    fn occupied_at(&self, x: i128, y: i128) -> (filled: bool)
        ensures
            filled == occupied(self@, x as int, y as int),
    {
        if 0 <= x && x < BOARD_WIDTH as i128 && 0 <= y && y < BOARD_HEIGHT as i128 {
            self.pixels[y as usize][x as usize] != BoardPixel::Empty
        } else {
            true
        }
    }

    /// Whether some filled cell of the piece lies on a filled cell of the
    /// board or beyond the board.
    pub fn check_collision(&self, piece: &Piece) -> (hit: bool)
        ensures
            hit == collides(self@, piece@),
    {
        let ghost view = piece@;
        let mut x: usize = 0;
        while x < piece.bounding_box.len()
            invariant
                view == piece@,
                x <= piece.bounding_box@.len(),
                forall|i: int, j: int|
                    0 <= i < x && #[trigger] view.filled(i, j) ==> !occupied(
                        self@,
                        i + view.offset.0,
                        j + view.offset.1,
                    ),
            decreases piece.bounding_box@.len() - x,
        {
            let mut y: usize = 0;
            while y < piece.bounding_box[x].len()
                invariant
                    view == piece@,
                    x < piece.bounding_box@.len(),
                    y <= piece.bounding_box@[x as int]@.len(),
                    forall|i: int, j: int|
                        (0 <= i < x || (i == x && 0 <= j < y)) && #[trigger] view.filled(i, j)
                            ==> !occupied(self@, i + view.offset.0, j + view.offset.1),
                decreases piece.bounding_box@[x as int]@.len() - y,
            {
                if piece.bounding_box[x][y] {
                    let board_x = x as i128 + piece.offset.0 as i128;
                    let board_y = y as i128 + piece.offset.1 as i128;
                    if self.occupied_at(board_x, board_y) {
                        assert(view.filled(x as int, y as int));
                        return true;
                    }
                }
                y += 1;
            }
            x += 1;
        }
        false
    }

    /// Clears row `row_y`: every row from `row_y` on takes what the row above
    /// it holds, and the top row becomes empty.
    pub fn clear_row(&mut self, row_y: usize)
        ensures
            final(self)@ == without_row(old(self)@, row_y as int),
    {
        let mut y: usize = row_y;
        while y < BOARD_HEIGHT - 1
            invariant
                row_y <= y,
                forall|r: int|
                    0 <= r < BOARD_HEIGHT ==> #[trigger] self@[r] == if row_y <= r < y {
                        old(self)@[r + 1]
                    } else {
                        old(self)@[r]
                    },
            decreases BOARD_HEIGHT - y,
        {
            let ghost before = self@;
            self.pixels[y] = self.pixels[y + 1];
            assert(self@[y as int] =~= before[y + 1]);
            assert forall|r: int| 0 <= r < BOARD_HEIGHT && r != y implies #[trigger] self@[r]
                == before[r] by {
                assert(self@[r] =~= before[r]);
            }
            y += 1;
        }
        let ghost before = self@;
        self.pixels[BOARD_HEIGHT - 1] = [BoardPixel::Empty; BOARD_WIDTH];
        assert forall|r: int| 0 <= r < BOARD_HEIGHT - 1 implies #[trigger] self@[r]
            == before[r] by {
            assert(self@[r] =~= before[r]);
        }
        assert(self@[BOARD_HEIGHT - 1] =~= empty_row());
        assert(self@ =~= without_row(old(self)@, row_y as int));
    }

    /// Draws one gap column for each row that an injection of `rows` rows
    /// puts on the board.
    pub fn draw_gaps(rows: usize, rng: &mut StdRng) -> (gaps: Vec<usize>)
        ensures
            is_gaps(gaps@, rows as int),
    {
        let count = if rows < BOARD_HEIGHT {
            rows
        } else {
            BOARD_HEIGHT
        };
        let mut gaps: Vec<usize> = Vec::new();
        let mut y: usize = 0;
        while y < count
            invariant
                y <= count,
                gaps@.len() == y,
                forall|i: int| 0 <= i < y ==> #[trigger] gaps@[i] < BOARD_WIDTH,
            decreases count - y,
        {
            let empty_space = below(rng, BOARD_WIDTH);
            gaps.push(empty_space);
            y += 1;
        }
        gaps
    }

    /// Injects `rows` garbage rows at the bottom, with the gap of row `y` in
    /// column `gaps[y]`. What the board held moves up by `rows`; what moves
    /// beyond the top is lost.
    pub fn fill_rows_with(&mut self, rows: usize, gaps: &Vec<usize>)
        requires
            rows > 0,
            is_gaps(gaps@, rows as int),
        ensures
            final(self)@ == raised(old(self)@, rows as int, gaps@),
    {
        // move our rows up
        let mut y: usize = BOARD_HEIGHT;
        while y > rows
            invariant
                y <= BOARD_HEIGHT,
                forall|r: int|
                    0 <= r < BOARD_HEIGHT ==> #[trigger] self@[r] == if y <= r {
                        old(self)@[r - rows]
                    } else {
                        old(self)@[r]
                    },
            decreases y,
        {
            y -= 1;
            let ghost before = self@;
            self.pixels[y] = self.pixels[y - rows];
            assert(self@[y as int] =~= before[y - rows]);
            assert forall|r: int| 0 <= r < BOARD_HEIGHT && r != y implies #[trigger] self@[r]
                == before[r] by {
                assert(self@[r] =~= before[r]);
            }
        }
        // add in our filled rows
        let ghost moved = self@;
        let mut y: usize = 0;
        while y < gaps.len()
            invariant
                is_gaps(gaps@, rows as int),
                y <= gaps@.len(),
                forall|r: int|
                    0 <= r < BOARD_HEIGHT ==> #[trigger] self@[r] == if r < y {
                        garbage_row(gaps@[r] as int)
                    } else {
                        moved[r]
                    },
            decreases gaps@.len() - y,
        {
            let ghost before = self@;
            let mut row = [BoardPixel::Filled(PixelColor::Gray); BOARD_WIDTH];
            row[gaps[y]] = BoardPixel::Empty;
            self.pixels[y] = row;
            assert(self@[y as int] =~= garbage_row(gaps@[y as int] as int));
            assert forall|r: int| 0 <= r < BOARD_HEIGHT && r != y implies #[trigger] self@[r]
                == before[r] by {
                assert(self@[r] =~= before[r]);
            }
            y += 1;
        }
        assert(self@ =~= raised(old(self)@, rows as int, gaps@));
    }

    /// Injects `rows` garbage rows at the bottom, each gray but for one empty
    /// cell in a column drawn from `rng`. What the board held moves up by
    /// `rows`.
    pub fn fill_rows(&mut self, rows: usize, rng: &mut StdRng)
        requires
            rows > 0,
        ensures
            exists|gaps: Seq<usize>|
                is_gaps(gaps, rows as int) && final(self)@ == #[trigger] raised(
                    old(self)@,
                    rows as int,
                    gaps,
                ),
    {
        let gaps = Self::draw_gaps(rows, rng);
        self.fill_rows_with(rows, &gaps);
    }

    /// Whether no cell of row `y` reads as empty.
    pub fn is_row_full(&self, y: isize) -> (full: bool)
        ensures
            full == row_full(self@, y as int),
    {
        let mut x: usize = 0;
        while x < BOARD_WIDTH
            invariant
                x <= BOARD_WIDTH,
                forall|i: int| 0 <= i < x ==> #[trigger] occupied(self@, i, y as int),
            decreases BOARD_WIDTH - x,
        {
            if self.get(x as isize, y) == BoardPixel::Empty {
                assert(!occupied(self@, x as int, y as int));
                return false;
            }
            x += 1;
        }
        true
    }

    /// Writes every filled cell of the piece into the board, in the colour of
    /// its shape. Cells beyond the board are left out.
    pub fn place(&mut self, piece: &Piece)
        ensures
            final(self)@ == with_piece(old(self)@, piece@),
    {
        let ghost view = piece@;
        let color = piece.tetrimino.color();
        let mut x: usize = 0;
        while x < piece.bounding_box.len()
            invariant
                view == piece@,
                color == view.tetrimino.spec_color(),
                x <= piece.bounding_box@.len(),
                forall|bx: int, by: int|
                    on_board(bx, by) ==> #[trigger] self@[by][bx] == if view.covers(bx, by) && bx
                        - view.offset.0 < x {
                        BoardPixel::Filled(color)
                    } else {
                        old(self)@[by][bx]
                    },
            decreases piece.bounding_box@.len() - x,
        {
            let mut y: usize = 0;
            while y < piece.bounding_box[x].len()
                invariant
                    view == piece@,
                    color == view.tetrimino.spec_color(),
                    x < piece.bounding_box@.len(),
                    y <= piece.bounding_box@[x as int]@.len(),
                    forall|bx: int, by: int|
                        on_board(bx, by) ==> #[trigger] self@[by][bx] == if view.covers(bx, by) && (
                        bx - view.offset.0 < x || (bx - view.offset.0 == x && by - view.offset.1
                            < y)) {
                            BoardPixel::Filled(color)
                        } else {
                            old(self)@[by][bx]
                        },
                decreases piece.bounding_box@[x as int]@.len() - y,
            {
                if piece.bounding_box[x][y] {
                    let board_x = x as i128 + piece.offset.0 as i128;
                    let board_y = y as i128 + piece.offset.1 as i128;
                    if 0 <= board_x && board_x < BOARD_WIDTH as i128 && 0 <= board_y && board_y
                        < BOARD_HEIGHT as i128 {
                        self.pixels[board_y as usize][board_x as usize] = BoardPixel::Filled(color);
                    }
                }
                y += 1;
            }
            x += 1;
        }
        assert(self@ =~~= with_piece(old(self)@, piece@));
    }

    /// Clears the full rows among those that the mask of the piece spans,
    /// scanning from the top of the mask down, and returns how many it
    /// cleared.
    pub fn sweep(&mut self, piece: &Piece) -> (cleared_lines: usize)
        ensures
            (final(self)@, cleared_lines as nat) == swept(
                old(self)@,
                piece@.offset.1,
                piece@.cells.len(),
            ),
    {
        let ghost bottom = piece@.offset.1;
        let height = piece.bounding_box.len();
        let mut cleared_lines: usize = 0;
        let mut y: usize = height;
        while y > 0
            invariant
                bottom == piece@.offset.1,
                height == piece@.cells.len(),
                y <= height,
                cleared_lines <= height - y,
                swept(old(self)@, bottom, piece@.cells.len()).0 == swept(self@, bottom, y as nat).0,
                swept(old(self)@, bottom, piece@.cells.len()).1 == swept(self@, bottom, y as nat).1
                    + cleared_lines,
            decreases y,
        {
            y -= 1;
            let ghost before = self@;
            let board_y = y as i128 + piece.offset.1 as i128;
            if board_y >= 0 {
                if board_y >= BOARD_HEIGHT as i128 {
                    assert(row_full(before, board_y as int));
                    self.clear_row(BOARD_HEIGHT);
                    assert(self@ =~= without_row(before, board_y as int));
                    cleared_lines += 1;
                } else if self.is_row_full(board_y as isize) {
                    self.clear_row(board_y as usize);
                    cleared_lines += 1;
                }
            }
        }
        cleared_lines
    }
}

} // verus!
