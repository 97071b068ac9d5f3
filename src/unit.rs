//! Which units stand on the battlefield when the game opens, and where unit
//! sprites are drawn.

use vstd::prelude::*;
use crate::battlefield::{Battlefield, WorldPosition, lemma_center_offset_bound};

verus! {

/// Size in pixels of one cell of a unit's sprite sheet.
pub const UNIT_SPRITE_SIZE: u32 = 32;

/// Number of columns of cells in a unit's sprite sheet.
pub const UNIT_SHEET_COLUMNS: usize = 4;

/// Number of rows of cells in a unit's sprite sheet.
pub const UNIT_SHEET_ROWS: usize = 4;

/// The sprite sheet cell that shows a unit standing still.
pub const UNIT_POSE_FRAME: usize = 0;

/// The depth at which units are drawn, above the terrain.
pub const UNIT_LAYER: i64 = 1;

/// The kinds of unit.
#[derive(Clone, Copy, Debug, PartialEq, Eq, Structural)]
pub enum UnitKind {
    Archer,
    Wizard,
    LanceKnight,
    SwordFighter,
}

/// The side a unit fights for.
#[derive(Clone, Copy, Debug, PartialEq, Eq, Structural)]
pub enum Team {
    Blue,
    Red,
}

/// A unit to be put on the battlefield: who it is, the grid cell it stands
/// in, and whether its sprite is mirrored to face the other way.
#[derive(Clone, Copy, Debug, PartialEq, Eq, Structural)]
pub struct UnitSpawn {
    pub kind: UnitKind,
    pub team: Team,
    pub column: usize,
    pub row: usize,
    pub flip: bool,
}

/// One unit sprite ready to be drawn: the sheet cell it shows, where it
/// stands, and whether it is mirrored about its vertical axis.
#[derive(Clone, Copy, Debug, PartialEq, Eq, Structural)]
pub struct UnitPlacement {
    pub frame: usize,
    pub position: WorldPosition,
    pub flip: bool,
}

/// The units on the field when the game opens: the blue team facing right
/// from the left edge, the red team facing left.
pub open spec fn opening_roster() -> Seq<UnitSpawn> {
    seq![
        UnitSpawn { kind: UnitKind::Archer, team: Team::Blue, column: 0, row: 0, flip: false },
        UnitSpawn { kind: UnitKind::Wizard, team: Team::Blue, column: 1, row: 1, flip: false },
        UnitSpawn { kind: UnitKind::LanceKnight, team: Team::Blue, column: 2, row: 2, flip: false },
        UnitSpawn { kind: UnitKind::SwordFighter, team: Team::Blue, column: 2, row: 0, flip: false },
        UnitSpawn { kind: UnitKind::Archer, team: Team::Red, column: 5, row: 1, flip: true },
        UnitSpawn { kind: UnitKind::Wizard, team: Team::Red, column: 5, row: 0, flip: true },
        UnitSpawn { kind: UnitKind::LanceKnight, team: Team::Red, column: 4, row: 2, flip: true },
        UnitSpawn { kind: UnitKind::SwordFighter, team: Team::Red, column: 3, row: 1, flip: true },
    ]
}

/// The units on the field when the game opens, in the order they are put
/// there.
pub fn opening_units() -> (units: Vec<UnitSpawn>)
    ensures
        units@ == opening_roster(),
{
    let units = vec![
        UnitSpawn { kind: UnitKind::Archer, team: Team::Blue, column: 0, row: 0, flip: false },
        UnitSpawn { kind: UnitKind::Wizard, team: Team::Blue, column: 1, row: 1, flip: false },
        UnitSpawn { kind: UnitKind::LanceKnight, team: Team::Blue, column: 2, row: 2, flip: false },
        UnitSpawn { kind: UnitKind::SwordFighter, team: Team::Blue, column: 2, row: 0, flip: false },
        UnitSpawn { kind: UnitKind::Archer, team: Team::Red, column: 5, row: 1, flip: true },
        UnitSpawn { kind: UnitKind::Wizard, team: Team::Red, column: 5, row: 0, flip: true },
        UnitSpawn { kind: UnitKind::LanceKnight, team: Team::Red, column: 4, row: 2, flip: true },
        UnitSpawn { kind: UnitKind::SwordFighter, team: Team::Red, column: 3, row: 1, flip: true },
    ];
    assert(units@ =~= opening_roster());
    units
}

/// Where along one axis, in quarter pixels, a unit in grid cell `cell`
/// stands before centring: the cell's start, `cell * sprite_size` pixels,
/// plus a quarter sprite, so that a sprite smaller than the cell sits inside
/// it.
pub open spec fn unit_offset(cell: int, sprite_size: int) -> int {
    4 * cell * sprite_size + sprite_size
}

/// The point, in quarter pixels from the grid's origin, at which a unit in
/// the given cell stands before centring.
pub fn unit_local_position(column: usize, row: usize, sprite_size: u32) -> (r: (i128, i128))
    ensures
        r.0 == unit_offset(column as int, sprite_size as int),
        r.1 == unit_offset(row as int, sprite_size as int),
{
    (local_offset(column, sprite_size), local_offset(row, sprite_size))
}

/// A unit offset of a cell that fits in memory stays far inside `i128`.
proof fn lemma_unit_offset_bound(cell: int, sprite_size: int)
    requires
        0 <= cell <= usize::MAX,
        0 <= sprite_size <= u32::MAX,
    ensures
        0 <= unit_offset(cell, sprite_size) < 0x2_0000_0000_0000_0000_0000_0000_0000,
{
    assert(0 <= 4 * cell * sprite_size + sprite_size < 0x2_0000_0000_0000_0000_0000_0000_0000)
        by (nonlinear_arith)
        requires
            0 <= cell < 0x1_0000_0000_0000_0000,
            0 <= sprite_size < 0x1_0000_0000,
    ;
}

/// `unit_offset` computed for one axis.
fn local_offset(cell: usize, sprite_size: u32) -> (r: i128)
    ensures
        r == unit_offset(cell as int, sprite_size as int),
{
    proof {
        lemma_unit_offset_bound(cell as int, sprite_size as int);
    }
    4 * (cell as i128) * (sprite_size as i128) + sprite_size as i128
}

impl Battlefield {
    /// Places a unit whose sprite is `sprite_size` pixels square in the
    /// given grid cell: its standing point goes through the same centring
    /// transform as the terrain, on the unit layer, with the still pose.
    pub fn unit_placement(&self, column: usize, row: usize, sprite_size: u32, flip: bool) -> (p:
        UnitPlacement)
        requires
            self.wf(),
        ensures
            p.frame == UNIT_POSE_FRAME,
            p.flip == flip,
            p.position.x == unit_offset(column as int, sprite_size as int)
                - self.width_center_offset(),
            p.position.y == unit_offset(row as int, sprite_size as int)
                - self.height_center_offset(),
            p.position.z == UNIT_LAYER,
    {
        let (x, y) = unit_local_position(column, row, sprite_size);
        let columns = self.tilemap().num_columns();
        let rows = self.tilemap().num_rows();
        let tile_size = self.tile_size();
        proof {
            lemma_unit_offset_bound(column as int, sprite_size as int);
            lemma_unit_offset_bound(row as int, sprite_size as int);
            lemma_center_offset_bound(columns as int, tile_size as int);
            lemma_center_offset_bound(rows as int, tile_size as int);
        }
        let position = self.to_battlefield_coordinates(x, y, UNIT_LAYER);
        UnitPlacement { frame: UNIT_POSE_FRAME, position, flip }
    }
}

} // verus!
