//! The 3x3 grid of colour symbols that one face shows.

use vstd::prelude::*;

verus! {

/// What a grid holds: its three rows, each a sequence of three symbols.
pub type Grid = Seq<Seq<char>>;

/// Whether a sequence of rows has the shape of a grid: three rows of three
/// symbols.
pub open spec fn is_grid(rows: Grid) -> bool {
    rows.len() == 3 && forall|r: int| 0 <= r < 3 ==> (#[trigger] rows[r]).len() == 3
}

/// The colour symbols of one face, addressed by row and column.
#[derive(Clone, Copy, Debug)]
pub struct RawFace {
    colors: [[char; 3]; 3],
}

/// The rows of a 3x3 array, top row first.
pub open spec fn rows_of(colors: [[char; 3]; 3]) -> Grid {
    Seq::new(3, |r: int| colors[r]@)
}

impl View for RawFace {
    type V = Grid;

    closed spec fn view(&self) -> Grid {
        rows_of(self.colors)
    }
}

impl RawFace {
    /// A grid with the given symbols. The contents are not examined.
    pub fn new(colors: [[char; 3]; 3]) -> (grid: RawFace)
        ensures
            grid@ == rows_of(colors),
    {
        RawFace { colors }
    }

    /// The symbol at `row` and `col`.
    pub fn get(&self, row: usize, col: usize) -> (symbol: char)
        requires
            row < 3,
            col < 3,
        ensures
            symbol == self@[row as int][col as int],
    {
        self.colors[row][col]
    }

    /// The symbol in the middle of the grid.
    pub fn center(&self) -> (symbol: char)
        ensures
            symbol == self@[1][1],
    {
        self.colors[1][1]
    }

    /// Every grid has three rows of three symbols.
    pub proof fn lemma_shape(self)
        ensures
            is_grid(self@),
    {
    }
}

} // verus!
