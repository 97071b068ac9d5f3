//! The tile catalog: which cell of the terrain atlas shows each kind of tile.

use vstd::prelude::*;

verus! {

/// Number of columns of cells in the terrain atlas image.
pub const ATLAS_COLUMNS: usize = 20;

/// Number of rows of cells in the terrain atlas image.
pub const ATLAS_ROWS: usize = 20;

/// The kinds of terrain tile that a battlefield can be drawn with.
#[derive(Clone, Copy, Debug, PartialEq, Eq, Structural)]
pub enum TileType {
    Brown1,
    Brown2,
    Brown3,
    Brown4,
    Green1,
    Green2,
    Green3,
    Green4,
    BrownGreenUpper1,
    BrownGreenUpper2,
    BrownGreenUpper3,
    BrownGreenUpper5,
    BrownGreenUpper7,
    BrownGreenMiddle1,
    BrownGreenMiddle3,
    BrownGreenMiddle4,
    BrownGreenMiddle6,
    BrownGreenLower1,
    BrownGreenLower2,
    BrownGreenLower3,
    BrownGreenLower5,
    BrownGreenLower7,
}

/// A tile resolved to the linear index of its atlas cell.
#[derive(Clone, Copy, Debug, PartialEq, Eq, Structural)]
pub struct Tile {
    pub index: usize,
}

/// The atlas cell, as `(row, column)`, that shows a tile kind.
///
/// Each family of tiles occupies one band of the atlas: the brown tiles row 0,
/// the green tiles row 2, and the brown-green transitions rows 7 (upper edge),
/// 8 (middle) and 9 (lower edge). The number in a tile's name is its position
/// within the band, counting from 1.
pub open spec fn atlas_cell(tile_type: TileType) -> (nat, nat) {
    match tile_type {
        TileType::Brown1 => (0, 0),
        TileType::Brown2 => (0, 1),
        TileType::Brown3 => (0, 2),
        TileType::Brown4 => (0, 3),
        TileType::Green1 => (2, 0),
        TileType::Green2 => (2, 1),
        TileType::Green3 => (2, 2),
        TileType::Green4 => (2, 3),
        TileType::BrownGreenUpper1 => (7, 0),
        TileType::BrownGreenUpper2 => (7, 1),
        TileType::BrownGreenUpper3 => (7, 2),
        TileType::BrownGreenUpper5 => (7, 4),
        TileType::BrownGreenUpper7 => (7, 6),
        TileType::BrownGreenMiddle1 => (8, 0),
        TileType::BrownGreenMiddle3 => (8, 2),
        TileType::BrownGreenMiddle4 => (8, 3),
        TileType::BrownGreenMiddle6 => (8, 5),
        TileType::BrownGreenLower1 => (9, 0),
        TileType::BrownGreenLower2 => (9, 1),
        TileType::BrownGreenLower3 => (9, 2),
        TileType::BrownGreenLower5 => (9, 4),
        TileType::BrownGreenLower7 => (9, 6),
    }
}

/// The linear atlas index of a tile kind: its cell's row times the atlas
/// width, plus its column.
pub open spec fn atlas_index(tile_type: TileType) -> nat {
    atlas_cell(tile_type).0 * ATLAS_COLUMNS as nat + atlas_cell(tile_type).1
}

/// Every tile kind resolves to a cell inside the atlas, so its index lies in
/// `0 .. ATLAS_COLUMNS * ATLAS_ROWS`.
pub proof fn lemma_atlas_index_in_bounds(tile_type: TileType)
    ensures
        atlas_cell(tile_type).0 < ATLAS_ROWS,
        atlas_cell(tile_type).1 < ATLAS_COLUMNS,
        atlas_index(tile_type) < ATLAS_COLUMNS * ATLAS_ROWS,
{
}

impl Tile {
    /// Resolves a tile kind to its atlas cell.
    pub fn from_type(tile_type: TileType) -> (tile: Tile)
        ensures
            tile.index == atlas_index(tile_type),
            tile.index < ATLAS_COLUMNS * ATLAS_ROWS,
    {
        match tile_type {
            TileType::Brown1 => Tile { index: 0 },
            TileType::Brown2 => Tile { index: 1 },
            TileType::Brown3 => Tile { index: 2 },
            TileType::Brown4 => Tile { index: 3 },
            TileType::Green1 => Tile { index: 2 * ATLAS_COLUMNS },
            TileType::Green2 => Tile { index: 2 * ATLAS_COLUMNS + 1 },
            TileType::Green3 => Tile { index: 2 * ATLAS_COLUMNS + 2 },
            TileType::Green4 => Tile { index: 2 * ATLAS_COLUMNS + 3 },
            TileType::BrownGreenUpper1 => Tile { index: 7 * ATLAS_COLUMNS },
            TileType::BrownGreenUpper2 => Tile { index: 7 * ATLAS_COLUMNS + 1 },
            TileType::BrownGreenUpper3 => Tile { index: 7 * ATLAS_COLUMNS + 2 },
            TileType::BrownGreenUpper5 => Tile { index: 7 * ATLAS_COLUMNS + 4 },
            TileType::BrownGreenUpper7 => Tile { index: 7 * ATLAS_COLUMNS + 6 },
            TileType::BrownGreenMiddle1 => Tile { index: 8 * ATLAS_COLUMNS },
            TileType::BrownGreenMiddle3 => Tile { index: 8 * ATLAS_COLUMNS + 2 },
            TileType::BrownGreenMiddle4 => Tile { index: 8 * ATLAS_COLUMNS + 3 },
            TileType::BrownGreenMiddle6 => Tile { index: 8 * ATLAS_COLUMNS + 5 },
            TileType::BrownGreenLower1 => Tile { index: 9 * ATLAS_COLUMNS },
            TileType::BrownGreenLower2 => Tile { index: 9 * ATLAS_COLUMNS + 1 },
            TileType::BrownGreenLower3 => Tile { index: 9 * ATLAS_COLUMNS + 2 },
            TileType::BrownGreenLower5 => Tile { index: 9 * ATLAS_COLUMNS + 4 },
            TileType::BrownGreenLower7 => Tile { index: 9 * ATLAS_COLUMNS + 6 },
        }
    }
}

} // verus!
