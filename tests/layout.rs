use strategy_game::battlefield::{
    Battlefield, LayoutError, TilePlacement, Tilemap, WorldPosition, UNITS_PER_PIXEL,
};
use strategy_game::default_map::TILE_SIZE;
use strategy_game::tile::{Tile, TileType, ATLAS_COLUMNS, ATLAS_ROWS};
use strategy_game::unit::{
    opening_units, unit_local_position, Team, UnitKind, UnitSpawn, UNIT_LAYER, UNIT_POSE_FRAME,
    UNIT_SPRITE_SIZE,
};

const ALL_TILE_TYPES: [TileType; 22] = [
    TileType::Brown1,
    TileType::Brown2,
    TileType::Brown3,
    TileType::Brown4,
    TileType::Green1,
    TileType::Green2,
    TileType::Green3,
    TileType::Green4,
    TileType::BrownGreenUpper1,
    TileType::BrownGreenUpper2,
    TileType::BrownGreenUpper3,
    TileType::BrownGreenUpper5,
    TileType::BrownGreenUpper7,
    TileType::BrownGreenMiddle1,
    TileType::BrownGreenMiddle3,
    TileType::BrownGreenMiddle4,
    TileType::BrownGreenMiddle6,
    TileType::BrownGreenLower1,
    TileType::BrownGreenLower2,
    TileType::BrownGreenLower3,
    TileType::BrownGreenLower5,
    TileType::BrownGreenLower7,
];

/// A position's x and y in pixels, and its layer.
fn in_pixels(position: WorldPosition) -> (f64, f64, i64) {
    let scale = UNITS_PER_PIXEL as f64;
    (position.x as f64 / scale, position.y as f64 / scale, position.z)
}

fn green_row(len: usize) -> Vec<TileType> {
    vec![TileType::Green1; len]
}

#[test]
fn every_tile_resolves_inside_the_atlas() {
    for tile_type in ALL_TILE_TYPES {
        let index = Tile::from_type(tile_type).index;
        assert!(index < ATLAS_COLUMNS * ATLAS_ROWS);
        assert!(index < 400);
    }
}

#[test]
fn tiles_resolve_to_their_atlas_bands() {
    assert_eq!(Tile::from_type(TileType::Brown1).index, 0);
    assert_eq!(Tile::from_type(TileType::Brown4).index, 3);
    assert_eq!(Tile::from_type(TileType::Green1).index, 40);
    assert_eq!(Tile::from_type(TileType::Green3).index, 42);
    assert_eq!(Tile::from_type(TileType::BrownGreenUpper1).index, 140);
    assert_eq!(Tile::from_type(TileType::BrownGreenUpper7).index, 146);
    assert_eq!(Tile::from_type(TileType::BrownGreenMiddle6).index, 165);
    assert_eq!(Tile::from_type(TileType::BrownGreenLower5).index, 184);
    assert_eq!(Tile::from_type(TileType::BrownGreenLower7).index, 186);
}

#[test]
fn tile_kinds_resolve_to_distinct_cells() {
    let mut seen: Vec<usize> = Vec::new();
    for tile_type in ALL_TILE_TYPES {
        let index = Tile::from_type(tile_type).index;
        assert!(!seen.contains(&index));
        seen.push(index);
    }
}

#[test]
fn resolving_twice_gives_the_same_index() {
    for tile_type in ALL_TILE_TYPES {
        assert_eq!(Tile::from_type(tile_type), Tile::from_type(tile_type));
    }
}

#[test]
fn default_battlefield_is_thirteen_by_six() {
    let battlefield = Battlefield::default();
    assert_eq!(battlefield.tile_size(), TILE_SIZE);
    assert_eq!(battlefield.tile_size(), 16);
    assert_eq!(battlefield.tilemap().num_columns(), 13);
    assert_eq!(battlefield.tilemap().num_rows(), 6);
}

#[test]
fn origin_of_default_battlefield_moves_to_lower_left_tile_centre() {
    let battlefield = Battlefield::default();
    let position = battlefield.to_battlefield_coordinates(0, 0, 0);
    assert_eq!(in_pixels(position), (-96.0, -40.0, 0));
    assert_eq!(position, WorldPosition { x: -384, y: -160, z: 0 });
}

#[test]
fn centring_keeps_depth_and_shifts_every_point_alike() {
    let battlefield = Battlefield::default();
    let position = battlefield.to_battlefield_coordinates(192 * 4, 80 * 4, 7);
    assert_eq!(in_pixels(position), (96.0, 40.0, 7));
    let position = battlefield.to_battlefield_coordinates(-4 * 4, 100 * 4 + 1, -2);
    assert_eq!(in_pixels(position), (-100.0, 60.25, -2));
}

#[test]
fn centring_with_odd_tile_size_is_exact() {
    // 12 * 15 / 2 - 15 / 2 = 82.5 and 3 * 15 / 2 - 15 / 2 = 15 pixels.
    let battlefield = Battlefield::new(vec![green_row(12); 3], 15).unwrap();
    let position = battlefield.to_battlefield_coordinates(0, 0, 0);
    assert_eq!(in_pixels(position), (-82.5, -15.0, 0));
    // Two cells of one pixel sit half a pixel either side of the origin.
    let battlefield = Battlefield::new(vec![green_row(2)], 1).unwrap();
    let placements = battlefield.tile_placements();
    assert_eq!(in_pixels(placements[0].position), (-0.5, 0.0, 0));
    assert_eq!(in_pixels(placements[1].position), (0.5, 0.0, 0));
}

#[test]
fn cell_centres_mirror_through_the_origin() {
    for (columns, rows, tile_size) in [(13, 6, 16), (12, 3, 15), (2, 1, 1), (1, 1, 7)] {
        let battlefield = Battlefield::new(vec![green_row(columns); rows], tile_size).unwrap();
        let placements = battlefield.tile_placements();
        for row in 0..rows {
            for column in 0..columns {
                let cell = placements[row * columns + column].position;
                let mirrored =
                    placements[(rows - 1 - row) * columns + (columns - 1 - column)].position;
                assert_eq!(cell.x, -mirrored.x);
                assert_eq!(cell.y, -mirrored.y);
            }
        }
    }
}

#[test]
fn ragged_grid_is_rejected() {
    let mut rows = vec![green_row(13); 6];
    rows[3] = green_row(12);
    assert!(matches!(Tilemap::new(rows.clone()), Err(LayoutError::InvalidGrid)));
    assert!(matches!(Battlefield::new(rows, 16), Err(LayoutError::InvalidGrid)));
}

#[test]
fn short_first_row_is_rejected() {
    let mut rows = vec![green_row(13); 6];
    rows[0] = green_row(12);
    assert!(matches!(Tilemap::new(rows), Err(LayoutError::InvalidGrid)));
}

#[test]
fn empty_grid_is_rejected() {
    assert!(matches!(Tilemap::new(Vec::new()), Err(LayoutError::InvalidGrid)));
    assert!(matches!(Battlefield::new(Vec::new(), 16), Err(LayoutError::InvalidGrid)));
}

#[test]
fn rectangular_grid_is_accepted_with_its_dimensions() {
    let tilemap = Tilemap::new(vec![green_row(4); 2]).unwrap();
    assert_eq!(tilemap.num_columns(), 4);
    assert_eq!(tilemap.num_rows(), 2);
    let tilemap = Tilemap::new(vec![Vec::new(); 3]).unwrap();
    assert_eq!(tilemap.num_columns(), 0);
    assert_eq!(tilemap.num_rows(), 3);
}

#[test]
fn tile_at_outside_the_grid_is_out_of_bounds() {
    let battlefield = Battlefield::default();
    assert_eq!(battlefield.tile_at(13, 0), Err(LayoutError::OutOfBounds));
    assert_eq!(battlefield.tile_at(0, 6), Err(LayoutError::OutOfBounds));
    assert_eq!(battlefield.tile_at(usize::MAX, usize::MAX), Err(LayoutError::OutOfBounds));
}

#[test]
fn tile_at_reads_the_grid() {
    let battlefield = Battlefield::default();
    assert_eq!(battlefield.tile_at(12, 5), Ok(TileType::Brown2));
    assert_eq!(battlefield.tile_at(0, 0), Ok(TileType::Brown1));
    assert_eq!(battlefield.tile_at(8, 3), Ok(TileType::BrownGreenUpper7));
    assert_eq!(battlefield.tile_at(6, 5), Ok(TileType::BrownGreenLower7));
}

#[test]
fn tile_placements_cover_the_grid_in_row_major_order() {
    let battlefield = Battlefield::default();
    let placements = battlefield.tile_placements();
    assert_eq!(placements.len(), 78);
    assert_eq!(placements[0].atlas_index, 0);
    assert_eq!(in_pixels(placements[0].position), (-96.0, -40.0, 0));
    assert_eq!(placements[12].atlas_index, 3);
    assert_eq!(in_pixels(placements[12].position), (96.0, -40.0, 0));
    assert_eq!(placements[13].atlas_index, 2);
    assert_eq!(in_pixels(placements[13].position), (-96.0, -24.0, 0));
    assert_eq!(
        placements[77],
        TilePlacement { atlas_index: 1, position: WorldPosition { x: 384, y: 160, z: 0 } }
    );
    for (i, placement) in placements.iter().enumerate() {
        let column = i % 13;
        let row = i / 13;
        let tile_type = battlefield.tile_at(column, row).unwrap();
        assert_eq!(placement.atlas_index, Tile::from_type(tile_type).index);
        let expected = battlefield.to_battlefield_coordinates(
            column as i128 * 16 * UNITS_PER_PIXEL,
            row as i128 * 16 * UNITS_PER_PIXEL,
            0,
        );
        assert_eq!(placement.position, expected);
    }
}

#[test]
fn tile_placements_are_identical_on_every_call() {
    let battlefield = Battlefield::default();
    assert_eq!(battlefield.tile_placements(), battlefield.tile_placements());
}

#[test]
fn tile_placements_of_empty_rows_are_empty() {
    let battlefield = Battlefield::new(vec![Vec::new(); 2], 16).unwrap();
    assert!(battlefield.tile_placements().is_empty());
}

#[test]
fn unit_stands_a_quarter_sprite_into_its_cell() {
    let (x, y) = unit_local_position(2, 0, 32);
    assert_eq!((x as f64 / 4.0, y as f64 / 4.0), (72.0, 8.0));
    assert_eq!(unit_local_position(2, 0, 32), (288, 32));
    assert_eq!(unit_local_position(0, 0, 32), (32, 32));
    assert_eq!(unit_local_position(5, 1, UNIT_SPRITE_SIZE), (672, 160));
    // A quarter of a 10-pixel sprite is 2.5 pixels.
    assert_eq!(unit_local_position(1, 3, 10), (50, 130));
}

#[test]
fn unit_placement_uses_the_terrain_centring() {
    let battlefield = Battlefield::default();
    let placement = battlefield.unit_placement(2, 0, UNIT_SPRITE_SIZE, false);
    assert_eq!(placement.frame, UNIT_POSE_FRAME);
    assert_eq!(placement.frame, 0);
    assert!(!placement.flip);
    assert_eq!(in_pixels(placement.position), (-24.0, -32.0, UNIT_LAYER));
    assert_eq!(placement.position.z, 1);
    let (x, y) = unit_local_position(2, 0, UNIT_SPRITE_SIZE);
    assert_eq!(placement.position, battlefield.to_battlefield_coordinates(x, y, UNIT_LAYER));
}

#[test]
fn unit_placement_keeps_the_flip_flag() {
    let battlefield = Battlefield::default();
    let placement = battlefield.unit_placement(5, 1, UNIT_SPRITE_SIZE, true);
    assert!(placement.flip);
    assert_eq!(in_pixels(placement.position), (72.0, 0.0, 1));
}

#[test]
fn opening_units_stand_in_their_cells() {
    let units = opening_units();
    assert_eq!(units.len(), 8);
    assert_eq!(
        units[0],
        UnitSpawn { kind: UnitKind::Archer, team: Team::Blue, column: 0, row: 0, flip: false }
    );
    assert_eq!(
        units[7],
        UnitSpawn { kind: UnitKind::SwordFighter, team: Team::Red, column: 3, row: 1, flip: true }
    );
    for unit in &units {
        assert_eq!(unit.flip, unit.team == Team::Red);
        assert!(battlefield_has_cell(unit.column, unit.row));
    }
}

fn battlefield_has_cell(column: usize, row: usize) -> bool {
    Battlefield::default().tile_at(column, row).is_ok()
}
