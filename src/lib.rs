//! Tile-atlas lookup and battlefield layout for a tile-based strategy game:
//! which atlas cell shows each terrain tile, and where each tile and unit
//! sprite stands once the battlefield is centred on the origin.

pub mod tile;
pub mod battlefield;
pub mod default_map;
pub mod unit;
