//! The records of a map file and the layers of a level.

use vstd::prelude::*;
use crate::background_tiles::BackgroundTiles;

verus! {

/// How a tile can be crossed.
#[derive(Clone, Copy, Debug, PartialEq, Eq, Structural)]
pub enum PassableType {
    NORMAL,
    NOT,
    WATER,
    BIKE,
}

/// One tile of a map: where it lies, the flat id of its texture in the
/// atlas, how it can be crossed, and what may be met on it.
#[derive(Debug)]
pub struct TileData {
    pub position: (i32, i32),
    pub texture: i32,
    pub passable: PassableType,
    pub encounter: i32,
    pub encounter_tables: Vec<i32>,
}

/// The background layers of a level, drawn in order.
#[derive(Debug)]
pub struct Level {
    pub data: Vec<BackgroundTiles>,
}

} // verus!
