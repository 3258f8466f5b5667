use vstd::prelude::*;

verus! {

use vstd::arithmetic::mul::lemma_mul_inequality;
use crate::grid::PassableTiles;

/// Tile identifier marking a walkable floor cell.
pub const FLOOR_TILE_ID: u32 = 10;

/// Tile identifier of an empty cell: no static sprite is placed for it.
pub const EMPTY_TILE_ID: u32 = 0;

/// Tile identifier of a cell that is skipped when placing static sprites.
pub const SKIP_TILE_ID: u32 = 31;

/// Errors of the scene-load step.
#[derive(Clone, Copy, Debug, PartialEq, Eq, Structural)]
pub enum MapError {
    /// The source tile layer is not rectangular: some row differs in length
    /// from the first.
    NonRectangular,
}

/// The tile layer as a sequence of rows of tile identifiers.
pub open spec fn layer_view(layer: Vec<Vec<u32>>) -> Seq<Seq<u32>> {
    layer@.map_values(|row: Vec<u32>| row@)
}

/// A layer is rectangular when every row has the length of the first.
pub open spec fn layer_rectangular(layer: Seq<Seq<u32>>) -> bool {
    forall|i: int| 0 <= i < layer.len() ==> (#[trigger] layer[i]).len() == layer[0].len()
}

impl PassableTiles {
    /// Build the walkability map from a parsed tile layer: a cell is
    /// walkable exactly when its tile identifier is the floor marker, and
    /// the rows are reversed, so that the bottom row of the stored layer
    /// becomes row `0` of the grid (world space grows upward). A
    /// non-rectangular layer is a configuration fault and is rejected.
    pub fn from_layer(layer: &Vec<Vec<u32>>) -> (r: Result<PassableTiles, MapError>)
        ensures
            r is Ok <==> layer_rectangular(layer_view(*layer)),
            r matches Err(e) ==> e == MapError::NonRectangular,
            r matches Ok(g) ==> {
                let lv = layer_view(*layer);
                &&& g.wf()
                &&& g.grid().len() == lv.len()
                &&& forall|i: int|
                    0 <= i < lv.len() ==> (#[trigger] g.grid()[i]).len() == lv[lv.len() - 1
                        - i].len()
                &&& forall|i: int, j: int|
                    0 <= i < lv.len() && 0 <= j < lv[lv.len() - 1 - i].len()
                        ==> g.grid()[i][j] == (lv[lv.len() - 1 - i][j] == FLOOR_TILE_ID)
            },
    {
        let ghost lv = layer_view(*layer);
        let rows = layer.len();
        let mut i: usize = 0;
        while i < rows
            invariant
                rows == layer@.len(),
                lv == layer_view(*layer),
                i <= rows,
                forall|k: int| 0 <= k < i ==> (#[trigger] lv[k]).len() == lv[0].len(),
            decreases rows - i,
        {
            if layer[i].len() != layer[0].len() {
                assert(lv[i as int].len() != lv[0].len());
                return Err(MapError::NonRectangular);
            }
            i = i + 1;
        }
        assert(layer_rectangular(lv));
        let mut matrix: Vec<Vec<bool>> = Vec::new();
        let mut j: usize = 0;
        while j < rows
            invariant
                rows == layer@.len(),
                lv == layer_view(*layer),
                layer_rectangular(lv),
                j <= rows,
                matrix@.len() == j,
                forall|k: int|
                    0 <= k < j ==> (#[trigger] matrix@[k])@.len() == lv[rows - 1 - k].len(),
                forall|k: int, c: int|
                    0 <= k < j && 0 <= c < lv[rows - 1 - k].len() ==> matrix@[k]@[c] == (lv[rows - 1
                        - k][c] == FLOOR_TILE_ID),
            decreases rows - j,
        {
            let src = &layer[rows - 1 - j];
            let cols = src.len();
            let mut row: Vec<bool> = Vec::new();
            let mut c: usize = 0;
            while c < cols
                invariant
                    cols == src@.len(),
                    src@ == lv[rows - 1 - j],
                    rows == layer@.len(),
                    j < rows,
                    c <= cols,
                    row@.len() == c,
                    forall|t: int| 0 <= t < c ==> row@[t] == (src@[t] == FLOOR_TILE_ID),
                decreases cols - c,
            {
                row.push(src[c] == FLOOR_TILE_ID);
                c = c + 1;
            }
            matrix.push(row);
            j = j + 1;
        }
        let result = PassableTiles { tile_matrix: matrix };
        assert forall|i2: int|
            0 <= i2 < result.grid().len() implies (#[trigger] result.grid()[i2]).len()
            == result.grid()[0].len() by {
            assert(result.grid()[i2].len() == lv[rows - 1 - i2].len());
            assert(lv[rows - 1 - i2].len() == lv[0].len());
            if rows > 0 {
                assert(result.grid()[0].len() == lv[rows - 1].len());
            }
        }
        Ok(result)
    }
}

/// A static sprite entity placed during scene load: a world position and
/// the index of the sprite drawn there.
#[derive(Clone, Copy, Debug, PartialEq, Eq, Structural)]
pub struct StaticTile {
    pub x: u64,
    pub y: u64,
    pub sprite_number: usize,
}

/// Whether a tile identifier gets a static sprite: empty and skipped cells
/// get none, and neither does the walkable floor marker — only the
/// remaining, visible obstacles are placed.
pub open spec fn spec_tile_rendered(tile_id: u32) -> bool {
    tile_id != EMPTY_TILE_ID && tile_id != SKIP_TILE_ID && tile_id != FLOOR_TILE_ID
}

/// The static sprites of one layer row from column `col` on, left to right:
/// one per rendered tile, centred in its cell (`x = tile_width / 2 +
/// col * tile_width`), with sprite index `tile_id - 1`.
pub open spec fn spec_row_tiles(row: Seq<u32>, tile_width: u64, y: u64, col: nat) -> Seq<StaticTile>
    decreases row.len() - col,
{
    if col >= row.len() {
        Seq::empty()
    } else {
        let rest = spec_row_tiles(row, tile_width, y, col + 1);
        if spec_tile_rendered(row[col as int]) {
            seq![
                StaticTile {
                    x: (tile_width / 2 + col * tile_width) as u64,
                    y: y,
                    sprite_number: (row[col as int] - 1) as usize,
                },
            ] + rest
        } else {
            rest
        }
    }
}

/// The static sprites of the whole layer from emitted row `j` on. Rows are
/// emitted bottom-up: emitted row `j` is stored row `len - 1 - j`, at world
/// height `y = tile_height / 2 + j * tile_height`.
pub open spec fn spec_layer_tiles(
    layer: Seq<Seq<u32>>,
    tile_width: u64,
    tile_height: u64,
    j: nat,
) -> Seq<StaticTile>
    decreases layer.len() - j,
{
    if j >= layer.len() {
        Seq::empty()
    } else {
        spec_row_tiles(
            layer[layer.len() - 1 - j],
            tile_width,
            (tile_height / 2 + j * tile_height) as u64,
            0,
        ) + spec_layer_tiles(layer, tile_width, tile_height, j + 1)
    }
}

/// Compute the static sprite entities a parsed tile layer gives rise to,
/// bottom row first: every non-empty, non-floor tile that is not skipped
/// yields one sprite, centred in its cell, with sprite index
/// `tile_id - 1`. The bounds in `requires` only keep every emitted
/// coordinate representable.
pub fn map_static_tiles(layer: &Vec<Vec<u32>>, tile_width: u64, tile_height: u64) -> (r: Vec<
    StaticTile,
>)
    requires
        tile_height / 2 + layer_view(*layer).len() * tile_height <= u64::MAX,
        forall|i: int|
            0 <= i < layer_view(*layer).len() ==> tile_width / 2 + (#[trigger] layer_view(
                *layer,
            )[i]).len() * tile_width <= u64::MAX,
    ensures
        r@ == spec_layer_tiles(layer_view(*layer), tile_width, tile_height, 0),
{
    let ghost lv = layer_view(*layer);
    let rows = layer.len();
    let mut out: Vec<StaticTile> = Vec::new();
    let mut j: usize = 0;
    while j < rows
        invariant
            rows == layer@.len(),
            lv == layer_view(*layer),
            tile_height / 2 + lv.len() * tile_height <= u64::MAX,
            forall|i: int|
                0 <= i < lv.len() ==> tile_width / 2 + (#[trigger] lv[i]).len() * tile_width
                    <= u64::MAX,
            j <= rows,
            out@ + spec_layer_tiles(lv, tile_width, tile_height, j as nat) == spec_layer_tiles(
                lv,
                tile_width,
                tile_height,
                0,
            ),
        decreases rows - j,
    {
        proof {
            lemma_mul_inequality(j as int, lv.len() as int, tile_height as int);
        }
        let y = tile_height / 2 + (j as u64) * tile_height;
        let src = &layer[rows - 1 - j];
        let cols = src.len();
        let mut c: usize = 0;
        while c < cols
            invariant
                cols == src@.len(),
                src@ == lv[rows - 1 - j],
                rows == layer@.len(),
                lv == layer_view(*layer),
                j < rows,
                c <= cols,
                tile_width / 2 + cols * tile_width <= u64::MAX,
                y == (tile_height / 2 + (j as nat) * tile_height) as u64,
                out@ + spec_row_tiles(src@, tile_width, y, c as nat) + spec_layer_tiles(
                    lv,
                    tile_width,
                    tile_height,
                    (j + 1) as nat,
                ) == spec_layer_tiles(lv, tile_width, tile_height, 0),
            decreases cols - c,
        {
            let tile_id = src[c];
            if tile_id != EMPTY_TILE_ID && tile_id != SKIP_TILE_ID && tile_id != FLOOR_TILE_ID {
                proof {
                    lemma_mul_inequality(c as int, cols as int, tile_width as int);
                }
                let x = tile_width / 2 + (c as u64) * tile_width;
                let tile = StaticTile { x, y, sprite_number: (tile_id - 1) as usize };
                assert(spec_row_tiles(src@, tile_width, y, c as nat) == seq![tile]
                    + spec_row_tiles(src@, tile_width, y, (c + 1) as nat));
                assert(out@.push(tile) =~= out@ + seq![tile]);
                assert((out@ + seq![tile]) + spec_row_tiles(src@, tile_width, y, (c + 1) as nat)
                    =~= out@ + (seq![tile] + spec_row_tiles(src@, tile_width, y, (c + 1) as nat)));
                out.push(tile);
            } else {
                assert(spec_row_tiles(src@, tile_width, y, c as nat) == spec_row_tiles(
                    src@,
                    tile_width,
                    y,
                    (c + 1) as nat,
                ));
            }
            c = c + 1;
        }
        assert(spec_row_tiles(src@, tile_width, y, cols as nat) =~= Seq::<StaticTile>::empty());
        assert(out@ + Seq::<StaticTile>::empty() =~= out@);
        assert(spec_layer_tiles(lv, tile_width, tile_height, j as nat) == spec_row_tiles(
            src@,
            tile_width,
            y,
            0,
        ) + spec_layer_tiles(lv, tile_width, tile_height, (j + 1) as nat));
        j = j + 1;
    }
    assert(spec_layer_tiles(lv, tile_width, tile_height, rows as nat) =~= Seq::<
        StaticTile,
    >::empty());
    assert(out@ + Seq::<StaticTile>::empty() =~= out@);
    out
}

/// Pixel position of a sprite inside its sheet, as the tileset geometry
/// lays it out: sprites are numbered row-major over `cols` columns, where
/// `cols` is how many tiles of width `tile_width`, separated by `spacing`,
/// fit in the image once both margins are taken off.
pub open spec fn spec_sheet_cols(image_width: u32, margin: u32, spacing: u32, tile_width: u32) -> int {
    (image_width - 2 * margin + spacing) / (tile_width + spacing)
}

/// Pixel coordinates of the top-left corner of sprite `sprite_id` in the
/// tile sheet, honouring the tileset's margin and spacing. The bounds in
/// `requires` keep the geometry meaningful (at least one column) and every
/// intermediate value representable.
pub fn sprite_coords(
    image_width: u32,
    margin: u32,
    spacing: u32,
    tile_width: u32,
    tile_height: u32,
    sprite_id: u32,
) -> (r: (u32, u32))
    requires
        2 * margin <= image_width,
        image_width - 2 * margin + spacing <= u32::MAX,
        1 <= tile_width + spacing <= u32::MAX,
        1 <= spec_sheet_cols(image_width, margin, spacing, tile_width),
        ({
            let cols = spec_sheet_cols(image_width, margin, spacing, tile_width);
            &&& margin + tile_width * (sprite_id as int % cols) + spacing * (sprite_id as int
                % cols) <= u32::MAX
            &&& margin + tile_height * (sprite_id as int / cols) + spacing * (sprite_id as int
                / cols) <= u32::MAX
        }),
    ensures
        ({
            let cols = spec_sheet_cols(image_width, margin, spacing, tile_width);
            &&& r.0 == margin + tile_width * (sprite_id as int % cols) + spacing * (sprite_id
                as int % cols)
            &&& r.1 == margin + tile_height * (sprite_id as int / cols) + spacing * (sprite_id
                as int / cols)
        }),
{
    let width = image_width - 2 * margin + spacing;
    let cols = width / (tile_width + spacing);
    let col = sprite_id % cols;
    let row = sprite_id / cols;
    let left = margin + tile_width * col + spacing * col;
    let top = margin + tile_height * row + spacing * row;
    (left, top)
}

} // verus!
