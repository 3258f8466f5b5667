use vstd::prelude::*;

verus! {

use crate::TILE_SIZE;

/// Immutable-after-build walkability map of the level, one boolean per tile,
/// indexed as `tile_matrix[row][col]`. Row `0` is the bottom of the world:
/// the rows are stored vertically reversed relative to the source tile
/// layer.
pub struct PassableTiles {
    pub tile_matrix: Vec<Vec<bool>>,
}

impl PassableTiles {
    /// The grid as a sequence of rows of booleans.
    pub open spec fn grid(self) -> Seq<Seq<bool>> {
        self.tile_matrix@.map_values(|row: Vec<bool>| row@)
    }

    /// Well-formedness: the grid is rectangular (every row has the length of
    /// the first).
    pub open spec fn wf(self) -> bool {
        forall|i: int|
            0 <= i < self.grid().len() ==> (#[trigger] self.grid()[i]).len() == self.grid()[0].len()
    }

    /// Whether the cell at (`row`, `col`) exists and is walkable. Indices
    /// outside the grid are never walkable.
    pub open spec fn spec_walkable_cell(self, row: int, col: int) -> bool {
        &&& 0 <= row < self.grid().len()
        &&& 0 <= col < self.grid()[row].len()
        &&& self.grid()[row][col]
    }

    /// Whether the world point (`x`, `y`) lies on a walkable tile: points
    /// with a negative coordinate or beyond the grid's extent are never
    /// walkable.
    pub open spec fn spec_walkable_at(self, x: int, y: int) -> bool {
        &&& x >= 0
        &&& y >= 0
        &&& self.spec_walkable_cell(y / (TILE_SIZE as int), x / (TILE_SIZE as int))
    }

    /// Look up the tile under the world point (`x`, `y`). A point off the
    /// grid — negative coordinates included — is reported as not walkable,
    /// never as an out-of-range fault.
    pub fn walkable_at(&self, x: i64, y: i64) -> (r: bool)
        ensures
            r == self.spec_walkable_at(x as int, y as int),
    {
        if x < 0 || y < 0 {
            return false;
        }
        let col = (x as u64) / TILE_SIZE;
        let row = (y as u64) / TILE_SIZE;
        if row >= self.tile_matrix.len() as u64 {
            return false;
        }
        let tile_row = &self.tile_matrix[row as usize];
        if col >= tile_row.len() as u64 {
            return false;
        }
        tile_row[col as usize]
    }
}

} // verus!
