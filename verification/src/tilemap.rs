//! The tile grid: an immutable `width x height` field of wall/empty
//! cells, stored row-major, built once from a sequence of cell symbols.

use vstd::prelude::*;

verus! {

/// Symbol that marks a wall cell in a map source.
pub const WALL_SYMBOL: u8 = 49;

/// Largest accepted map side length, so index arithmetic stays small.
pub const MAX_MAP_DIM: usize = 4096;

/// The map source did not hold exactly `width * height` cell symbols.
#[derive(Clone, Copy, Debug, PartialEq, Eq, Structural)]
pub struct MapFormatError {
    /// The number of cells the requested dimensions call for.
    pub expected: usize,
    /// The number of symbols the source actually held.
    pub found: usize,
}

/// An immutable grid of wall/empty cells with bounds queries.
#[derive(Debug)]
pub struct TileMap {
    width: usize,
    height: usize,
    cells: Vec<bool>,
}

impl TileMap {
    /// The grid holds one cell per coordinate pair and its sides are
    /// small enough for index arithmetic never to overflow.
    pub closed spec fn wf(self) -> bool {
        &&& self.cells@.len() == self.width * self.height
        &&& self.width <= MAX_MAP_DIM
        &&& self.height <= MAX_MAP_DIM
    }

    /// Number of columns of the grid.
    pub closed spec fn spec_width(self) -> int {
        self.width as int
    }

    /// Number of rows of the grid.
    pub closed spec fn spec_height(self) -> int {
        self.height as int
    }

    /// The grid dimensions are never negative.
    pub proof fn lemma_dims_nonneg(self)
        ensures
            0 <= self.spec_width(),
            0 <= self.spec_height(),
    {
    }

    /// Whether `(x, y)` names a cell of the grid.
    pub open spec fn in_bounds(self, x: int, y: int) -> bool {
        0 <= x < self.spec_width() && 0 <= y < self.spec_height()
    }

    /// The cell at `(x, y)`, read from the row-major store.
    pub closed spec fn wall_at(self, x: int, y: int) -> bool {
        self.cells@[y * self.spec_width() + x]
    }

    /// Builds a map from a row-major sequence of cell symbols, one per
    /// cell, `WALL_SYMBOL` marking a wall. Fails exactly when the
    /// source length is not `width * height`.
    pub fn from_symbols(width: usize, height: usize, symbols: &[u8]) -> (r: Result<
        TileMap,
        MapFormatError,
    >)
        requires
            width <= MAX_MAP_DIM,
            height <= MAX_MAP_DIM,
        ensures
            r is Ok <==> symbols@.len() == width * height,
            r matches Ok(m) ==> {
                &&& m.wf()
                &&& m.spec_width() == width
                &&& m.spec_height() == height
                &&& forall|x: int, y: int|
                    m.in_bounds(x, y) ==> m.wall_at(x, y) == (symbols@[y * width + x]
                        == WALL_SYMBOL)
            },
            r matches Err(e) ==> e == (MapFormatError {
                expected: (width * height) as usize,
                found: symbols@.len() as usize,
            }),
    {
        proof {
            assert(width * height <= MAX_MAP_DIM * MAX_MAP_DIM) by (nonlinear_arith)
                requires
                    width <= MAX_MAP_DIM,
                    height <= MAX_MAP_DIM,
            ;
        }
        let expected: usize = width * height;
        if symbols.len() != expected {
            return Err(MapFormatError { expected, found: symbols.len() });
        }
        let mut cells: Vec<bool> = Vec::new();
        let mut i: usize = 0;
        while i < expected
            invariant
                i <= expected,
                expected == symbols@.len(),
                cells@.len() == i,
                forall|j: int| 0 <= j < i ==> cells@[j] == (symbols@[j] == WALL_SYMBOL),
            decreases expected - i,
        {
            cells.push(symbols[i] == WALL_SYMBOL);
            i = i + 1;
        }
        let m = TileMap { width, height, cells };
        proof {
            assert forall|x: int, y: int| m.in_bounds(x, y) implies m.wall_at(x, y) == (symbols@[y
                * width + x] == WALL_SYMBOL) by {
                assert(0 <= y * width + x < width * height) by (nonlinear_arith)
                    requires
                        0 <= x < width,
                        0 <= y < height,
                ;
            }
        }
        Ok(m)
    }

    /// Number of columns of the grid.
    pub fn width(&self) -> (r: usize)
        ensures
            r == self.spec_width(),
    {
        self.width
    }

    /// Number of rows of the grid.
    pub fn height(&self) -> (r: usize)
        ensures
            r == self.spec_height(),
    {
        self.height
    }

    /// Whether `(x, y)` names a cell of the grid; callers must treat
    /// out-of-bounds coordinates as their own condition before asking
    /// about walls.
    pub fn contains(&self, x: i64, y: i64) -> (r: bool)
        requires
            self.wf(),
        ensures
            r == self.in_bounds(x as int, y as int),
    {
        0 <= x && x < self.width as i64 && 0 <= y && y < self.height as i64
    }

    /// Whether the in-bounds cell `(x, y)` is a wall.
    pub fn is_wall(&self, x: usize, y: usize) -> (r: bool)
        requires
            self.wf(),
            self.in_bounds(x as int, y as int),
        ensures
            r == self.wall_at(x as int, y as int),
    {
        proof {
            assert(y * self.width + x < self.width * self.height && y * self.width + x < 0x1000000)
                by (nonlinear_arith)
                requires
                    x < self.width,
                    y < self.height,
                    self.width <= MAX_MAP_DIM,
                    self.height <= MAX_MAP_DIM,
            ;
        }
        let idx: usize = y * self.width + x;
        self.cells[idx]
    }
}

} // verus!
