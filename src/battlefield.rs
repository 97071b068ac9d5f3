//! The battlefield: a rectangular grid of terrain tiles, and the transform
//! that centres it on the world origin.
//!
//! Positions are measured in quarter pixels of the unscaled atlas. Half a
//! tile and a quarter of a sprite are then whole numbers of units, so the
//! centring and the placement of units are exact for every tile and sprite
//! size.

use vstd::prelude::*;
use crate::tile::{atlas_index, Tile, TileType};
use vstd::arithmetic::div_mod::lemma_fundamental_div_mod_converse;

verus! {

/// Number of position units in one pixel, along each axis.
pub const UNITS_PER_PIXEL: i128 = 4;

/// Why a battlefield could not be built or queried.
#[derive(Clone, Copy, Debug, PartialEq, Eq, Structural)]
pub enum LayoutError {
    /// The grid has no rows, or its rows differ in length.
    InvalidGrid,
    /// A cell outside the grid was asked for.
    OutOfBounds,
}

/// A point in world space: `x` and `y` in quarter pixels of the unscaled
/// atlas (the display scale is applied by the renderer), and the drawing
/// layer `z`.
#[derive(Clone, Copy, Debug, PartialEq, Eq, Structural)]
pub struct WorldPosition {
    pub x: i128,
    pub y: i128,
    pub z: i64,
}

/// The depth at which terrain tiles are drawn.
pub const TILE_LAYER: i64 = 0;

/// One terrain sprite ready to be drawn: the atlas cell it shows and where it
/// stands.
#[derive(Clone, Copy, Debug, PartialEq, Eq, Structural)]
pub struct TilePlacement {
    pub atlas_index: usize,
    pub position: WorldPosition,
}

/// The rows of a grid, each seen as a sequence of tiles.
pub open spec fn grid_view(rows: Seq<Vec<TileType>>) -> Seq<Seq<TileType>> {
    rows.map_values(|row: Vec<TileType>| row@)
}

/// A grid is rectangular when it has at least one row and every row is as
/// long as the first.
pub open spec fn is_rectangular(grid: Seq<Seq<TileType>>) -> bool {
    &&& grid.len() > 0
    &&& forall|row: int| 0 <= row < grid.len() ==> #[trigger] grid[row].len() == grid[0].len()
}

/// How far, in quarter pixels, the centring transform moves a point along an
/// axis of `cells` tiles of `tile_size` pixels: half the grid's extent less
/// half a tile, `cells * tile_size / 2 - tile_size / 2` pixels, which is
/// `2 * (cells - 1) * tile_size` quarter pixels.
pub open spec fn center_offset(cells: int, tile_size: int) -> int {
    2 * (cells - 1) * tile_size
}

/// A rectangular grid of terrain tiles, row by row.
pub struct Tilemap {
    data: Vec<Vec<TileType>>,
    num_columns: usize,
    num_rows: usize,
}

impl Tilemap {
    /// The grid, row by row.
    pub closed spec fn view(&self) -> Seq<Seq<TileType>> {
        grid_view(self.data@)
    }

    /// The grid is rectangular and its stored dimensions match it.
    pub closed spec fn wf(&self) -> bool {
        &&& is_rectangular(self@)
        &&& self.num_rows == self@.len()
        &&& self.num_columns == self@[0].len()
    }

    /// Number of cells in each row.
    pub open spec fn columns(&self) -> nat {
        self@[0].len()
    }

    /// Number of rows.
    pub open spec fn rows(&self) -> nat {
        self@.len()
    }

    /// Builds a tile map from its rows. Fails with `InvalidGrid` when there
    /// are no rows or when a row's length differs from the first row's.
    pub fn new(data: Vec<Vec<TileType>>) -> (r: Result<Tilemap, LayoutError>)
        ensures
            match r {
                Ok(tilemap) => tilemap.wf() && tilemap@ == grid_view(data@),
                Err(e) => e == LayoutError::InvalidGrid,
            },
            r is Ok <==> is_rectangular(grid_view(data@)),
    {
        if data.len() == 0 {
            return Err(LayoutError::InvalidGrid);
        }
        let num_columns = data[0].len();
        let mut i: usize = 1;
        while i < data.len()
            invariant
                1 <= i <= data@.len(),
                num_columns == data@[0]@.len(),
                forall|row: int| 0 <= row < i ==> #[trigger] data@[row]@.len() == num_columns,
            decreases data@.len() - i,
        {
            if data[i].len() != num_columns {
                assert(grid_view(data@)[i as int].len() != grid_view(data@)[0].len());
                return Err(LayoutError::InvalidGrid);
            }
            i = i + 1;
        }
        let num_rows = data.len();
        let tilemap = Tilemap { data, num_columns, num_rows };
        assert(is_rectangular(tilemap@)) by {
            assert forall|row: int| 0 <= row < tilemap@.len() implies #[trigger] tilemap@[row].len()
                == tilemap@[0].len() by {
                assert(tilemap.data@[row]@.len() == num_columns);
            }
        }
        Ok(tilemap)
    }

    /// Number of cells in each row.
    pub fn num_columns(&self) -> (r: usize)
        requires
            self.wf(),
        ensures
            r == self.columns(),
    {
        self.num_columns
    }

    /// Number of rows.
    pub fn num_rows(&self) -> (r: usize)
        requires
            self.wf(),
        ensures
            r == self.rows(),
    {
        self.num_rows
    }
}

/// What a battlefield is: its grid of tiles, row by row, and the size in
/// pixels of one tile.
pub struct BattlefieldView {
    pub grid: Seq<Seq<TileType>>,
    pub tile_size: nat,
}

/// The battlefield: its tile map and the size in pixels of one tile. Both are
/// fixed when it is built.
pub struct Battlefield {
    tile_size: u32,
    tilemap: Tilemap,
}

impl Battlefield {
    /// The grid and the tile size.
    pub closed spec fn view(&self) -> BattlefieldView {
        BattlefieldView { grid: self.tilemap@, tile_size: self.tile_size as nat }
    }

    /// The tile map is valid and the tile size positive.
    pub closed spec fn wf(&self) -> bool {
        &&& self.tilemap.wf()
        &&& self.tile_size > 0
    }

    /// Number of cells in each row.
    pub open spec fn columns(&self) -> nat {
        self@.grid[0].len()
    }

    /// Number of rows.
    pub open spec fn rows(&self) -> nat {
        self@.grid.len()
    }

    /// How far the centring transform moves a point towards negative x.
    pub open spec fn width_center_offset(&self) -> int {
        center_offset(self.columns() as int, self@.tile_size as int)
    }

    /// How far the centring transform moves a point towards negative y.
    pub open spec fn height_center_offset(&self) -> int {
        center_offset(self.rows() as int, self@.tile_size as int)
    }

    /// `p` draws the tile of the cell at `column`, `row`: the cell's corner,
    /// `column` and `row` tiles from the grid's origin, taken through the
    /// centring transform, on the terrain layer.
    pub open spec fn is_cell_placement(&self, p: TilePlacement, column: int, row: int) -> bool {
        &&& p.atlas_index == atlas_index(self@.grid[row][column])
        &&& p.position.x == 4 * column * self@.tile_size - self.width_center_offset()
        &&& p.position.y == 4 * row * self@.tile_size - self.height_center_offset()
        &&& p.position.z == TILE_LAYER
    }

    /// `s` holds one placement for each cell of the grid, row by row: entry
    /// `i` is for column `i % columns` of row `i / columns`.
    pub open spec fn is_tile_placement_list(&self, s: Seq<TilePlacement>) -> bool {
        &&& s.len() == self.rows() * self.columns()
        &&& forall|i: int|
            0 <= i < s.len() ==> self.is_cell_placement(
                #[trigger] s[i],
                i % self.columns() as int,
                i / self.columns() as int,
            )
    }

    /// Builds a battlefield from the rows of its grid and a positive tile
    /// size. Fails with `InvalidGrid` as `Tilemap::new` does.
    pub fn new(data: Vec<Vec<TileType>>, tile_size: u32) -> (r: Result<Battlefield, LayoutError>)
        requires
            tile_size > 0,
        ensures
            match r {
                Ok(battlefield) => {
                    &&& battlefield.wf()
                    &&& battlefield@.grid == grid_view(data@)
                    &&& battlefield@.tile_size == tile_size
                },
                Err(e) => e == LayoutError::InvalidGrid,
            },
            r is Ok <==> is_rectangular(grid_view(data@)),
    {
        match Tilemap::new(data) {
            Ok(tilemap) => Ok(Battlefield { tile_size, tilemap }),
            Err(e) => Err(e),
        }
    }

    /// The size in pixels of one tile.
    pub fn tile_size(&self) -> (r: u32)
        ensures
            r == self@.tile_size,
    {
        self.tile_size
    }

    /// The tile map.
    pub fn tilemap(&self) -> (r: &Tilemap)
        requires
            self.wf(),
        ensures
            r.wf(),
            r@ == self@.grid,
    {
        &self.tilemap
    }

    /// The tile at a grid cell, or `OutOfBounds` when the cell lies outside
    /// the grid.
    pub fn tile_at(&self, column: usize, row: usize) -> (r: Result<TileType, LayoutError>)
        requires
            self.wf(),
        ensures
            column < self.columns() && row < self.rows() ==> r == Ok::<TileType, LayoutError>(
                self@.grid[row as int][column as int],
            ),
            !(column < self.columns() && row < self.rows()) ==> r == Err::<TileType, LayoutError>(
                LayoutError::OutOfBounds,
            ),
    {
        if row >= self.tilemap.num_rows || column >= self.tilemap.num_columns {
            return Err(LayoutError::OutOfBounds);
        }
        assert(self.tilemap@[row as int].len() == self.tilemap.columns());
        Ok(self.tilemap.data[row][column])
    }

    /// Moves a point given in quarter pixels from the grid's origin so that
    /// the grid's midpoint falls on the world origin; `z` is kept.
    pub fn to_battlefield_coordinates(&self, x: i128, y: i128, z: i64) -> (p: WorldPosition)
        requires
            self.wf(),
            i128::MIN <= x - self.width_center_offset() <= i128::MAX,
            i128::MIN <= y - self.height_center_offset() <= i128::MAX,
        ensures
            p.x == x - self.width_center_offset(),
            p.y == y - self.height_center_offset(),
            p.z == z,
    {
        let width_offset = compute_center_offset(self.tilemap.num_columns, self.tile_size);
        let height_offset = compute_center_offset(self.tilemap.num_rows, self.tile_size);
        WorldPosition { x: x - width_offset, y: y - height_offset, z }
    }

    /// The sprite of every cell of the grid, row by row, each resolved to
    /// its atlas cell and placed with `to_battlefield_coordinates`.
    pub fn tile_placements(&self) -> (r: Vec<TilePlacement>)
        requires
            self.wf(),
        ensures
            self.is_tile_placement_list(r@),
    {
        let columns = self.tilemap.num_columns;
        let rows = self.tilemap.num_rows;
        let tile_size = self.tile_size;
        let mut placements: Vec<TilePlacement> = Vec::new();
        let mut row: usize = 0;
        while row < rows
            invariant
                self.wf(),
                columns == self.columns(),
                rows == self.rows(),
                tile_size == self@.tile_size,
                row <= rows,
                placements@.len() == row * columns,
                forall|i: int|
                    0 <= i < placements@.len() ==> self.is_cell_placement(
                        #[trigger] placements@[i],
                        i % columns as int,
                        i / columns as int,
                    ),
            decreases rows - row,
        {
            assert(self.tilemap@[row as int].len() == columns);
            let mut column: usize = 0;
            while column < columns
                invariant
                    self.wf(),
                    columns == self.columns(),
                    rows == self.rows(),
                    tile_size == self@.tile_size,
                    row < rows,
                    column <= columns,
                    self.tilemap.data@[row as int]@.len() == columns,
                    placements@.len() == row * columns + column,
                    forall|i: int|
                        0 <= i < placements@.len() ==> self.is_cell_placement(
                            #[trigger] placements@[i],
                            i % columns as int,
                            i / columns as int,
                        ),
                decreases columns - column,
            {
                let tile = Tile::from_type(self.tilemap.data[row][column]);
                proof {
                    lemma_scaled_product_bound(column as int, tile_size as int);
                    lemma_scaled_product_bound(row as int, tile_size as int);
                    lemma_center_offset_bound(columns as int, tile_size as int);
                    lemma_center_offset_bound(rows as int, tile_size as int);
                }
                let x = 4 * (column as i128) * (tile_size as i128);
                let y = 4 * (row as i128) * (tile_size as i128);
                let position = self.to_battlefield_coordinates(x, y, TILE_LAYER);
                let ghost i = placements@.len() as int;
                proof {
                    lemma_fundamental_div_mod_converse(i, columns as int, row as int, column as int);
                }
                placements.push(TilePlacement { atlas_index: tile.index, position });
                column = column + 1;
            }
            assert(row * columns + columns == (row + 1) * columns) by (nonlinear_arith);
            row = row + 1;
        }
        placements
    }
}

/// A count of cells of any size that fits in memory, times four tile sizes
/// in pixels, stays far inside `i128`.
pub proof fn lemma_scaled_product_bound(cells: int, tile_size: int)
    requires
        0 <= cells <= usize::MAX,
        0 <= tile_size <= u32::MAX,
    ensures
        0 <= 4 * cells * tile_size < 0x1_0000_0000_0000_0000_0000_0000_0000,
{
    assert(0 <= 4 * cells * tile_size < 0x1_0000_0000_0000_0000_0000_0000_0000) by (nonlinear_arith)
        requires
            0 <= cells < 0x1_0000_0000_0000_0000,
            0 <= tile_size < 0x1_0000_0000,
    ;
}

/// The centring offset of a grid that fits in memory stays far inside
/// `i128`.
pub proof fn lemma_center_offset_bound(cells: int, tile_size: int)
    requires
        0 <= cells <= usize::MAX,
        0 <= tile_size <= u32::MAX,
    ensures
        -0x1_0000_0000_0000_0000_0000_0000_0000 < center_offset(cells, tile_size)
            < 0x1_0000_0000_0000_0000_0000_0000_0000,
{
    assert(-0x1_0000_0000_0000_0000_0000_0000_0000 < 2 * (cells - 1) * tile_size
        < 0x1_0000_0000_0000_0000_0000_0000_0000) by (nonlinear_arith)
        requires
            -1 <= cells - 1 < 0x1_0000_0000_0000_0000,
            0 <= tile_size < 0x1_0000_0000,
    ;
}

/// The centring puts the grid's midpoint on the world origin: the cell at
/// `column`, `row` and the cell mirrored through the grid's middle are
/// drawn at opposite points.
pub proof fn lemma_cell_centres_symmetric(
    battlefield: Battlefield,
    cell: TilePlacement,
    mirrored: TilePlacement,
    column: int,
    row: int,
)
    requires
        battlefield.wf(),
        0 <= column < battlefield.columns(),
        0 <= row < battlefield.rows(),
        battlefield.is_cell_placement(cell, column, row),
        battlefield.is_cell_placement(
            mirrored,
            battlefield.columns() - 1 - column,
            battlefield.rows() - 1 - row,
        ),
    ensures
        cell.position.x == -mirrored.position.x,
        cell.position.y == -mirrored.position.y,
{
    let tile_size = battlefield@.tile_size as int;
    let columns = battlefield.columns() as int;
    let rows = battlefield.rows() as int;
    assert(4 * column * tile_size - 2 * (columns - 1) * tile_size == -(4 * (columns - 1 - column)
        * tile_size - 2 * (columns - 1) * tile_size)) by (nonlinear_arith);
    assert(4 * row * tile_size - 2 * (rows - 1) * tile_size == -(4 * (rows - 1 - row) * tile_size
        - 2 * (rows - 1) * tile_size)) by (nonlinear_arith);
}

/// Enumerating the cells of one battlefield twice gives the same placements:
/// the contract of `tile_placements` leaves no freedom in its result.
pub proof fn lemma_tile_placements_deterministic(
    battlefield: Battlefield,
    first: Seq<TilePlacement>,
    second: Seq<TilePlacement>,
)
    requires
        battlefield.wf(),
        battlefield.is_tile_placement_list(first),
        battlefield.is_tile_placement_list(second),
    ensures
        first == second,
{
    assert forall|i: int| 0 <= i < first.len() implies first[i] == second[i] by {
        let columns = battlefield.columns() as int;
        assert(battlefield.is_cell_placement(first[i], i % columns, i / columns));
        assert(battlefield.is_cell_placement(second[i], i % columns, i / columns));
    }
    assert(first =~= second);
}

/// The placements come in row-major order: the cell at `column`, `row` is
/// drawn by entry `row * columns + column`.
pub proof fn lemma_tile_placements_row_major(
    battlefield: Battlefield,
    placements: Seq<TilePlacement>,
    column: int,
    row: int,
)
    requires
        battlefield.wf(),
        battlefield.is_tile_placement_list(placements),
        0 <= column < battlefield.columns(),
        0 <= row < battlefield.rows(),
    ensures
        battlefield.is_cell_placement(
            placements[row * battlefield.columns() + column],
            column,
            row,
        ),
{
    let columns = battlefield.columns() as int;
    let rows = battlefield.rows() as int;
    let i = row * columns + column;
    assert(0 <= row * columns && row * columns + columns <= rows * columns) by (nonlinear_arith)
        requires
            0 <= row < rows,
            0 <= columns,
    ;
    lemma_fundamental_div_mod_converse(i, columns, row, column);
    assert(battlefield.is_cell_placement(placements[i], i % columns, i / columns));
}

/// `center_offset` for a count of cells and a tile size, computed exactly.
fn compute_center_offset(cells: usize, tile_size: u32) -> (r: i128)
    ensures
        r == center_offset(cells as int, tile_size as int),
{
    proof {
        lemma_center_offset_bound(cells as int, tile_size as int);
    }
    2 * (cells as i128 - 1) * (tile_size as i128)
}

} // verus!
