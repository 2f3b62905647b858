//! Base maps: a rectangle of identical walkable tiles centred on the origin.

use vstd::prelude::*;
use vstd::string::*;

verus! {

/// How a generated tile can be crossed.
#[derive(Clone, Copy, Debug, PartialEq, Eq, Structural)]
pub enum Passable {
    NORMAL,
}

/// One tile of a base map.
#[derive(Debug)]
pub struct TileData {
    pub position: [i32; 2],
    pub tileset: String,
    pub texture: i32,
    pub passable: Passable,
    pub encounter: i32,
    pub encounter_tables: Vec<i32>,
}

/// The tile of a base map at `(i, j)`: texture 1 of the outside atlas,
/// walkable, with no encounters.
pub open spec fn is_base_tile(tile: TileData, i: int, j: int) -> bool {
    &&& tile.position[0] == i
    &&& tile.position[1] == j
    &&& tile.tileset@ == "OUTSIDE_ATLAS"@
    &&& tile.texture == 1
    &&& tile.passable == Passable::NORMAL
    &&& tile.encounter == -1
    &&& tile.encounter_tables@.len() == 0
}

/// The tiles of the base map with sides `x` and `y`: column by column
/// from `-x/2` to `x/2`, and in each column from `-y/2` to `y/2`.
pub open spec fn is_base_map(tiles: Seq<TileData>, x: int, y: int) -> bool {
    &&& tiles.len() == x * y
    &&& forall|k: int| 0 <= k < tiles.len() ==> is_base_tile(#[trigger] tiles[k], k / y - x / 2, k % y - y / 2)
}

/// A side of a base map must be odd, so that the map has a middle tile.
pub fn is_valid_coord(coord: u32) -> (out: bool)
    ensures
        out == (coord % 2 != 0),
{
    coord % 2 != 0
}

/// The base map with sides `x` and `y`, or `None` where a side is even.
pub fn generate_base_map(x: u32, y: u32) -> (out: Option<Vec<TileData>>)
    ensures
        out is Some <==> x % 2 != 0 && y % 2 != 0,
        out is Some ==> is_base_map(out->0@, x as int, y as int),
{
    if !is_valid_coord(x) || !is_valid_coord(y) {
        return None;
    }
    let half_x: i32 = (x / 2) as i32;
    let half_y: i32 = (y / 2) as i32;
    let ghost xi = x as int;
    let ghost yi = y as int;
    let mut tiles: Vec<TileData> = Vec::new();
    let mut column: u64 = 0;
    while column < x as u64
        invariant
            xi == x,
            yi == y,
            x % 2 != 0,
            y % 2 != 0,
            half_x == x / 2,
            half_y == y / 2,
            column <= x,
            tiles@.len() == column * yi,
            forall|k: int|
                0 <= k < tiles@.len() ==> is_base_tile(
                    #[trigger] tiles@[k],
                    k / yi - xi / 2,
                    k % yi - yi / 2,
                ),
        decreases x - column,
    {
        let i: i32 = (column as i64 - half_x as i64) as i32;
        let mut cell: u64 = 0;
        while cell < y as u64
            invariant
                xi == x,
                yi == y,
                x % 2 != 0,
                y % 2 != 0,
                half_x == x / 2,
                half_y == y / 2,
                column < x,
                i == column - half_x,
                cell <= y,
                    tiles@.len() == column * yi + cell,
                forall|k: int|
                    0 <= k < tiles@.len() ==> is_base_tile(
                        #[trigger] tiles@[k],
                        k / yi - xi / 2,
                        k % yi - yi / 2,
                    ),
            decreases y - cell,
        {
            let j: i32 = (cell as i64 - half_y as i64) as i32;
            let tile = TileData {
                position: [i, j],
                tileset: String::from_str("OUTSIDE_ATLAS"),
                texture: 1,
                passable: Passable::NORMAL,
                encounter: -1,
                encounter_tables: Vec::new(),
            };
            proof {
                vstd::arithmetic::div_mod::lemma_fundamental_div_mod_converse(
                    column * yi + cell,
                    yi,
                    column as int,
                    cell as int,
                );
                assert(is_base_tile(tile, i as int, j as int));
            }
            tiles.push(tile);
            cell = cell + 1;
        }
        column = column + 1;
        assert(column * yi == (column - 1) * yi + yi) by (nonlinear_arith);
    }
    Some(tiles)
}

} // verus!
