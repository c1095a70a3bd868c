//! The trail the cord leaves on the ground: one waypoint for each tile the
//! player walked onto since the pole, taken back on backtracking.

use vstd::prelude::*;
use crate::components::{CordModel, CordSystem, IsometricGrid};
use crate::geometry::{
    closer_than, farther_than, lemma_product_bound, round_div, rounded_quotient, square, Point,
    WORLD_MAX,
};

verus! {

/// Two tile centres nearer than this are the same tile (a tenth of a unit).
pub const TRAIL_EPSILON: u32 = 100;

/// Height of the ground plane under the player's position.
pub const PLAYER_GROUND_OFFSET: i64 = 0;

/// Height of the ground plane under a pole's position.
pub const POLE_GROUND_OFFSET: i64 = 32_000;

/// Column of the tile that holds the world position `(x, y)` on a grid of
/// tiles `tile` wide whose ground plane lies at height `ground`.
pub open spec fn grid_column(x: int, y: int, tile: int, ground: int) -> int {
    round_div(x + 2 * (y - ground), tile)
}

/// Row of the tile that holds the world position `(x, y)`.
pub open spec fn grid_row(x: int, y: int, tile: int, ground: int) -> int {
    round_div(2 * (y - ground) - x, tile)
}

/// World x of the centre of tile `(column, row)`.
pub open spec fn tile_center_x(column: int, row: int, tile: int) -> int {
    round_div((column - row) * tile, 2)
}

/// World y of the centre of tile `(column, row)`.
pub open spec fn tile_center_y(column: int, row: int, tile: int) -> int {
    round_div((column + row) * tile, 4)
}

/// Centre of the isometric tile that holds `world_pos`: the position is
/// turned into grid indices, the indices are rounded to the nearest tile,
/// and the tile is turned back into a world position on the ground plane.
pub open spec fn tile_center(world_pos: Point, tile: int, ground: int) -> (int, int) {
    let column = grid_column(world_pos.x as int, world_pos.y as int, tile, ground);
    let row = grid_row(world_pos.x as int, world_pos.y as int, tile, ground);
    (tile_center_x(column, row, tile), tile_center_y(column, row, tile))
}

/// Centre of the isometric tile that holds `world_pos`, on a grid of tiles
/// `tile_size` wide whose ground plane lies at height `ground_offset`.
pub fn snap_to_tile_center(world_pos: Point, tile_size: u32, ground_offset: i64) -> (center: Point)
    requires
        tile_size > 0,
        world_pos.in_world(),
        -WORLD_MAX <= ground_offset <= WORLD_MAX,
    ensures
        (center.x as int, center.y as int) == tile_center(
            world_pos,
            tile_size as int,
            ground_offset as int,
        ),
{
    let tile: i128 = tile_size as i128;
    let x: i128 = world_pos.x as i128;
    let y: i128 = world_pos.y as i128 - ground_offset as i128;
    let column: i128 = rounded_quotient(x + 2 * y, tile);
    let row: i128 = rounded_quotient(2 * y - x, tile);
    proof {
        lemma_product_bound(column - row, tile as int, 0x4000_0000, 0x1_0000_0000);
        lemma_product_bound(column + row, tile as int, 0x4000_0000, 0x1_0000_0000);
    }
    let cx: i128 = rounded_quotient((column - row) * tile, 2);
    let cy: i128 = rounded_quotient((column + row) * tile, 4);
    Point { x: cx as i64, y: cy as i64 }
}

/// The trail after the player stood on the tile centred at `player_tile`,
/// with the pole on the tile centred at `pole_tile`.
///
/// An empty trail starts at the pole's tile. A player back on the tile
/// before the last one has backtracked: the last waypoint goes. A player
/// on a tile other than the last one has moved on: the tile is appended.
/// Otherwise the trail stays.
pub open spec fn trail_step(trail: Seq<Point>, player_tile: Point, pole_tile: Point) -> Seq<Point> {
    if trail.len() == 0 {
        seq![pole_tile]
    } else if trail.len() >= 2 && player_tile.dist_sq(trail[trail.len() - 2]) < square(
        TRAIL_EPSILON as int,
    ) {
        trail.drop_last()
    } else if player_tile.dist_sq(trail.last()) > square(TRAIL_EPSILON as int) {
        trail.push(player_tile)
    } else {
        trail
    }
}

/// The trail after the player stood on `player_tile`.
pub fn advance_trail(trail: &mut Vec<Point>, player_tile: Point, pole_tile: Point)
    ensures
        final(trail)@ == trail_step(old(trail)@, player_tile, pole_tile),
{
    let count: usize = trail.len();
    if count == 0 {
        trail.push(pole_tile);
        assert(final(trail)@ =~= seq![pole_tile]);
        return ;
    }
    if count >= 2 && closer_than(player_tile, trail[count - 2], TRAIL_EPSILON) {
        trail.pop();
        return ;
    }
    if farther_than(player_tile, trail[count - 1], TRAIL_EPSILON) {
        trail.push(player_tile);
    }
}

impl CordModel {
    /// The cord after its trail followed the player for one tick. Only the
    /// trail of an attached cord moves, and only where both the player and
    /// the pole were found.
    pub open spec fn track_trail(
        self,
        tile: int,
        player_pos: Option<Point>,
        pole_pos: Option<Point>,
    ) -> CordModel {
        if self.attached_pole is Some && player_pos is Some && pole_pos is Some {
            let player_tile = tile_center(player_pos->0, tile, PLAYER_GROUND_OFFSET as int);
            let pole_tile = tile_center(pole_pos->0, tile, POLE_GROUND_OFFSET as int);
            CordModel {
                trail_path: trail_step(
                    self.trail_path,
                    Point { x: player_tile.0 as i64, y: player_tile.1 as i64 },
                    Point { x: pole_tile.0 as i64, y: pole_tile.1 as i64 },
                ),
                ..self
            }
        } else {
            self
        }
    }
}

/// Lets the trail of an attached cord follow the player for one tick.
pub fn update_cord_trail(
    cord_system: &mut CordSystem,
    grid: &IsometricGrid,
    player_pos: Option<Point>,
    pole_pos: Option<Point>,
)
    requires
        grid.tile_size > 0,
        player_pos matches Some(p) ==> p.in_world(),
        pole_pos matches Some(p) ==> p.in_world(),
    ensures
        final(cord_system)@ == old(cord_system)@.track_trail(
            grid.tile_size as int,
            player_pos,
            pole_pos,
        ),
        old(cord_system)@.wf() ==> final(cord_system)@.wf(),
{
    if cord_system.attached_pole.is_none() {
        return ;
    }
    match (player_pos, pole_pos) {
        (Some(player), Some(pole)) => {
            let player_tile: Point = snap_to_tile_center(player, grid.tile_size, PLAYER_GROUND_OFFSET);
            let pole_tile: Point = snap_to_tile_center(pole, grid.tile_size, POLE_GROUND_OFFSET);
            advance_trail(&mut cord_system.trail_path, player_tile, pole_tile);
            assert(final(cord_system)@ =~= old(cord_system)@.track_trail(
                grid.tile_size as int,
                player_pos,
                pole_pos,
            ));
        },
        _ => {},
    }
}

} // verus!
