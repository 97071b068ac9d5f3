//! The battlefield that the game opens on.

use vstd::prelude::*;
use crate::battlefield::{grid_view, is_rectangular, Battlefield};
use crate::tile::TileType;
use crate::tile::TileType::{
    Brown1, Brown2, Brown3, Brown4, BrownGreenLower1, BrownGreenLower2, BrownGreenLower3,
    BrownGreenLower5, BrownGreenLower7, BrownGreenMiddle1, BrownGreenMiddle3, BrownGreenMiddle4,
    BrownGreenMiddle6, BrownGreenUpper1, BrownGreenUpper2, BrownGreenUpper3, BrownGreenUpper5,
    BrownGreenUpper7, Green1, Green2, Green3, Green4,
};

verus! {

/// Size in pixels of one terrain tile of the atlas.
pub const TILE_SIZE: u32 = 16;

/// The opening battlefield, 13 tiles wide and 6 tall, row by row.
pub open spec fn default_grid() -> Seq<Seq<TileType>> {
    seq![
        seq![
            Brown1, BrownGreenLower1, BrownGreenLower2, BrownGreenLower2, BrownGreenLower3,
            BrownGreenLower5, Brown2, BrownGreenLower1, BrownGreenLower3, BrownGreenLower5,
            BrownGreenLower1, BrownGreenLower3, Brown4,
        ],
        seq![
            Brown3, BrownGreenMiddle1, Green2, BrownGreenUpper2, Green1, Green3,
            BrownGreenLower2, Green3, Green2, Green1, BrownGreenMiddle3, BrownGreenMiddle1,
            BrownGreenLower3,
        ],
        seq![
            BrownGreenMiddle4, Green3, BrownGreenMiddle3, BrownGreenLower5, BrownGreenMiddle1,
            Green3, Green4, Green1, Green2, Green3, Green1, Green2, BrownGreenUpper3,
        ],
        seq![
            BrownGreenMiddle4, Green1, Green3, Green4, Green2, Green1, Green1,
            BrownGreenMiddle3, BrownGreenUpper7, BrownGreenUpper1, Green1, Green3,
            BrownGreenMiddle6,
        ],
        seq![
            Brown2, BrownGreenUpper1, Green4, Green1, Green3, Green2, BrownGreenUpper2, Green1,
            Green3, BrownGreenLower2, Green4, Green2, BrownGreenMiddle6,
        ],
        seq![
            Brown1, Brown4, BrownGreenUpper5, BrownGreenUpper1, BrownGreenUpper3,
            BrownGreenUpper1, BrownGreenLower7, BrownGreenUpper3, BrownGreenUpper5,
            BrownGreenUpper1, BrownGreenUpper2, BrownGreenUpper3, Brown2,
        ],
    ]
}

impl Battlefield {
    /// The battlefield that the game opens on: `default_grid` drawn with
    /// tiles of `TILE_SIZE` pixels.
    pub fn default() -> (battlefield: Battlefield)
        ensures
            battlefield.wf(),
            battlefield@.tile_size == TILE_SIZE,
            battlefield@.grid == default_grid(),
    {
        let data: Vec<Vec<TileType>> = vec![
            vec![
                Brown1, BrownGreenLower1, BrownGreenLower2, BrownGreenLower2, BrownGreenLower3,
                BrownGreenLower5, Brown2, BrownGreenLower1, BrownGreenLower3, BrownGreenLower5,
                BrownGreenLower1, BrownGreenLower3, Brown4,
            ],
            vec![
                Brown3, BrownGreenMiddle1, Green2, BrownGreenUpper2, Green1, Green3,
                BrownGreenLower2, Green3, Green2, Green1, BrownGreenMiddle3, BrownGreenMiddle1,
                BrownGreenLower3,
            ],
            vec![
                BrownGreenMiddle4, Green3, BrownGreenMiddle3, BrownGreenLower5, BrownGreenMiddle1,
                Green3, Green4, Green1, Green2, Green3, Green1, Green2, BrownGreenUpper3,
            ],
            vec![
                BrownGreenMiddle4, Green1, Green3, Green4, Green2, Green1, Green1,
                BrownGreenMiddle3, BrownGreenUpper7, BrownGreenUpper1, Green1, Green3,
                BrownGreenMiddle6,
            ],
            vec![
                Brown2, BrownGreenUpper1, Green4, Green1, Green3, Green2, BrownGreenUpper2, Green1,
                Green3, BrownGreenLower2, Green4, Green2, BrownGreenMiddle6,
            ],
            vec![
                Brown1, Brown4, BrownGreenUpper5, BrownGreenUpper1, BrownGreenUpper3,
                BrownGreenUpper1, BrownGreenLower7, BrownGreenUpper3, BrownGreenUpper5,
                BrownGreenUpper1, BrownGreenUpper2, BrownGreenUpper3, Brown2,
            ],
        ];
        assert(grid_view(data@) =~= default_grid());
        assert(is_rectangular(default_grid()));
        match Battlefield::new(data, TILE_SIZE) {
            Ok(battlefield) => battlefield,
            Err(_) => unreached(),
        }
    }
}

} // verus!
