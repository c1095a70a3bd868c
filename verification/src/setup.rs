//! The world as it stands when the game starts.

use vstd::prelude::*;
use crate::components::{
    Battery, CordModel, CordSystem, GridMovement, IsometricGrid, PlayerDirection, PlayerSprite,
    SolarPanel,
};
use crate::geometry::{
    lemma_round_div_scaled_bound, lemma_signed_product_bound, round_div, rounded_quotient, Point,
};

verus! {

/// Depth of the cord: above the tile map, below the player.
pub const Z_CORD_LAYER: u32 = 150_000;

/// Depth of the player and the other game entities.
pub const Z_GAME_LAYER: u32 = 200_000;

/// Width of the cord's texture in pixels, along the cord.
pub const CORD_TEXTURE_WIDTH: usize = 32;

/// Height of the cord's texture in pixels, across the cord.
pub const CORD_TEXTURE_HEIGHT: usize = 8;

/// Width of a tile at the start of the game.
pub const TILE_SIZE: u32 = 64_000;

/// One channel of the cord's texture: black, with a purple line two
/// pixels wide along the middle, fully opaque.
pub open spec fn cord_texel(row: int, channel: int) -> u8 {
    if channel == 3 {
        255
    } else if (row == CORD_TEXTURE_HEIGHT / 2 || row == CORD_TEXTURE_HEIGHT / 2 - 1) && channel
        != 1 {
        128
    } else {
        0
    }
}

/// The cord's texture, row by row, four channels to the pixel.
pub fn cord_texture_data() -> (data: Vec<u8>)
    ensures
        data@.len() == CORD_TEXTURE_WIDTH * CORD_TEXTURE_HEIGHT * 4,
        forall|row: int, column: int, channel: int|
            0 <= row < CORD_TEXTURE_HEIGHT && 0 <= column < CORD_TEXTURE_WIDTH && 0 <= channel < 4
                ==> #[trigger] data@[(row * CORD_TEXTURE_WIDTH + column) * 4 + channel]
                == cord_texel(row, channel),
{
    let mut data: Vec<u8> = Vec::new();
    let mut row: usize = 0;
    while row < CORD_TEXTURE_HEIGHT
        invariant
            row <= CORD_TEXTURE_HEIGHT,
            data@.len() == row * CORD_TEXTURE_WIDTH * 4,
            forall|r: int, c: int, ch: int|
                0 <= r < row && 0 <= c < CORD_TEXTURE_WIDTH && 0 <= ch < 4 ==> #[trigger] data@[(r
                    * CORD_TEXTURE_WIDTH + c) * 4 + ch] == cord_texel(r, ch),
        decreases CORD_TEXTURE_HEIGHT - row,
    {
        let on_line: bool = row == CORD_TEXTURE_HEIGHT / 2 || row == CORD_TEXTURE_HEIGHT / 2 - 1;
        let mut column: usize = 0;
        while column < CORD_TEXTURE_WIDTH
            invariant
                row < CORD_TEXTURE_HEIGHT,
                column <= CORD_TEXTURE_WIDTH,
                on_line == (row == CORD_TEXTURE_HEIGHT / 2 || row == CORD_TEXTURE_HEIGHT / 2 - 1),
                data@.len() == (row * CORD_TEXTURE_WIDTH + column) * 4,
                forall|r: int, c: int, ch: int|
                    0 <= r < row && 0 <= c < CORD_TEXTURE_WIDTH && 0 <= ch < 4
                        ==> #[trigger] data@[(r * CORD_TEXTURE_WIDTH + c) * 4 + ch] == cord_texel(
                        r,
                        ch,
                    ),
                forall|c: int, ch: int|
                    0 <= c < column && 0 <= ch < 4 ==> #[trigger] data@[(row * CORD_TEXTURE_WIDTH
                        + c) * 4 + ch] == cord_texel(row as int, ch),
            decreases CORD_TEXTURE_WIDTH - column,
        {
            let tint: u8 = if on_line {
                128
            } else {
                0
            };
            data.push(tint);
            data.push(0);
            data.push(tint);
            data.push(255);
            column += 1;
        }
        row += 1;
    }
    data
}

/// World position of the grid point `(grid_x, grid_y)` on a grid of tiles
/// `tile` wide.
pub open spec fn grid_point(grid_x: int, grid_y: int, tile: int) -> Point {
    Point {
        x: round_div((grid_x - grid_y) * tile, 2) as i64,
        y: round_div((grid_x + grid_y) * tile, 4) as i64,
    }
}

/// World position of a grid point.
pub fn grid_to_world(grid: &IsometricGrid, grid_x: i32, grid_y: i32) -> (position: Point)
    ensures
        position == grid_point(grid_x as int, grid_y as int, grid.tile_size as int),
{
    let tile: i128 = grid.tile_size as i128;
    let across: i128 = grid_x as i128 - grid_y as i128;
    let along: i128 = grid_x as i128 + grid_y as i128;
    proof {
        lemma_signed_product_bound(across as int, tile as int, 0xffff_ffff, 0xffff_ffff);
        lemma_signed_product_bound(along as int, tile as int, 0x1_0000_0000, 0xffff_ffff);
        assert(0x1_0000_0000 * 0xffff_ffff == 18_446_744_069_414_584_320) by (nonlinear_arith);
        assert(0xffff_ffff * 0xffff_ffff == 18_446_744_065_119_617_025) by (nonlinear_arith);
        lemma_round_div_scaled_bound(across * tile, 2, 9_223_372_032_559_808_513);
        lemma_round_div_scaled_bound(along * tile, 4, 4_611_686_017_353_646_080);
    }
    let x: i128 = rounded_quotient(across * tile, 2);
    let y: i128 = rounded_quotient(along * tile, 4);
    Point { x: x as i64, y: y as i64 }
}

/// The grid at the start of the game.
pub fn initial_grid() -> (grid: IsometricGrid)
    ensures
        grid == (IsometricGrid { tile_size: TILE_SIZE }),
{
    IsometricGrid { tile_size: TILE_SIZE }
}

/// The player's movement state at the start of the game: standing still,
/// able to move 400 units a second.
pub fn initial_movement() -> (movement: GridMovement)
    ensures
        movement == (GridMovement { target_position: None, move_speed: 400_000, is_moving: false }),
{
    GridMovement { target_position: None, move_speed: 400_000, is_moving: false }
}

/// The player's battery at the start of the game: full, at 100 units.
pub fn initial_battery() -> (battery: Battery)
    ensures
        battery == (Battery { max_charge: 100_000, current_charge: 100_000 }),
{
    Battery { max_charge: 100_000, current_charge: 100_000 }
}

/// The player's solar panel: five units a second in full light.
pub fn initial_solar_panel() -> (panel: SolarPanel)
    ensures
        panel == (SolarPanel { max_output: 5_000 }),
{
    SolarPanel { max_output: 5_000 }
}

/// What a cord is made with; it stays for the cord's whole life.
#[derive(Clone, Copy, Debug, PartialEq, Eq, Structural)]
pub struct CordConfig {
    pub min_length: u32,
    pub max_length: u32,
    pub segment_length: u32,
    pub segment_size: u32,
    pub attachment_range: u32,
    pub min_trail_segment_distance: u32,
}

/// Handles of the bodies and joints a cord starts with.
#[derive(Clone, Copy, Debug, PartialEq, Eq, Structural)]
pub struct InitialChain {
    pub first_segment: u64,
    pub second_segment: u64,
    /// The joint between the two segments.
    pub link_joint: u64,
    /// The joint between the second segment and the player.
    pub player_joint: u64,
    /// The joint between the pole and the first segment.
    pub anchor_joint: u64,
}

impl CordConfig {
    /// The limits are in order, segments have a length and the cord can
    /// reach a pole.
    pub open spec fn wf(self) -> bool {
        &&& self.min_length <= self.max_length
        &&& self.segment_length > 0
        &&& self.attachment_range > 0
    }

    /// Decides `wf`.
    pub fn is_wf(&self) -> (ok: bool)
        ensures
            ok == self.wf(),
    {
        self.min_length <= self.max_length && self.segment_length > 0 && self.attachment_range > 0
    }
}

/// The game's own cord: between 50 and 150 units long, in segments 20
/// units long and 8 thick, attaching within 100 units.
pub fn game_cord_config() -> (config: CordConfig)
    ensures
        config.wf(),
        config == (CordConfig {
            min_length: 50_000,
            max_length: 150_000,
            segment_length: 20_000,
            segment_size: 8_000,
            attachment_range: 100_000,
            min_trail_segment_distance: 10_000,
        }),
{
    CordConfig {
        min_length: 50_000,
        max_length: 150_000,
        segment_length: 20_000,
        segment_size: 8_000,
        attachment_range: 100_000,
        min_trail_segment_distance: 10_000,
    }
}

/// The cord as the world starts with it: attached to the pole `anchor` by
/// its anchor joint, a chain of two segments, at its shortest length, with
/// no trail laid and nothing drawn yet.
pub open spec fn initial_cord(
    player_entity: u64,
    anchor: u64,
    chain: InitialChain,
    config: CordConfig,
) -> CordModel {
    CordModel {
        segments: seq![chain.first_segment, chain.second_segment],
        joints: seq![chain.link_joint, chain.player_joint],
        anchor_joint: Some(chain.anchor_joint),
        visual_meshes: Seq::empty(),
        max_length: config.max_length as int,
        min_length: config.min_length as int,
        current_length: config.min_length as int,
        segment_length: config.segment_length as int,
        segment_size: config.segment_size as int,
        player_entity,
        is_retracting: false,
        attached_pole: Some(anchor),
        attachment_range: config.attachment_range as int,
        trail_path: Seq::empty(),
        min_trail_segment_distance: config.min_trail_segment_distance as int,
    }
}

/// The cord as the world starts with it.
pub fn initial_cord_system(
    player_entity: u64,
    anchor: u64,
    chain: InitialChain,
    config: CordConfig,
) -> (cord: CordSystem)
    requires
        config.wf(),
    ensures
        cord@ == initial_cord(player_entity, anchor, chain, config),
        cord@.wf(),
        cord@.attached_pole == Some(anchor),
        cord@.attachment_range > 0,
{
    let mut segments: Vec<u64> = Vec::new();
    segments.push(chain.first_segment);
    segments.push(chain.second_segment);
    let mut joints: Vec<u64> = Vec::new();
    joints.push(chain.link_joint);
    joints.push(chain.player_joint);
    assert(segments@ =~= seq![chain.first_segment, chain.second_segment]);
    assert(joints@ =~= seq![chain.link_joint, chain.player_joint]);
    let cord = CordSystem {
        segments,
        joints,
        anchor_joint: Some(chain.anchor_joint),
        visual_meshes: Vec::new(),
        max_length: config.max_length,
        min_length: config.min_length,
        current_length: config.min_length,
        segment_length: config.segment_length,
        segment_size: config.segment_size,
        player_entity,
        is_retracting: false,
        attached_pole: Some(anchor),
        attachment_range: config.attachment_range,
        trail_path: Vec::new(),
        min_trail_segment_distance: config.min_trail_segment_distance,
    };
    assert(cord@ =~= initial_cord(player_entity, anchor, chain, config));
    cord
}

/// Scale of the camera's projection at the start of the game, in
/// millionths.
pub const INITIAL_ZOOM: u32 = 250_000;

/// Everything the game starts from but the entities themselves.
#[derive(Clone, Debug)]
pub struct WorldSetup {
    pub cord_texture: Vec<u8>,
    pub grid: IsometricGrid,
    pub camera_scale: u32,
    pub player_position: Point,
    pub player_sprite: PlayerSprite,
    pub movement: GridMovement,
    pub battery: Battery,
    pub solar_panel: SolarPanel,
    pub cord_system: CordSystem,
}

/// The world at the start of the game, around the player `player_entity`:
/// the player stands on the grid's origin, faces up, is fully charged and
/// holds a cord of the given make that is attached to the pole `anchor`.
pub fn setup(player_entity: u64, anchor: u64, chain: InitialChain, config: CordConfig) -> (world:
    WorldSetup)
    requires
        config.wf(),
    ensures
        world.cord_texture@.len() == CORD_TEXTURE_WIDTH * CORD_TEXTURE_HEIGHT * 4,
        forall|row: int, column: int, channel: int|
            0 <= row < CORD_TEXTURE_HEIGHT && 0 <= column < CORD_TEXTURE_WIDTH && 0 <= channel < 4
                ==> #[trigger] world.cord_texture@[(row * CORD_TEXTURE_WIDTH + column) * 4
                + channel] == cord_texel(row, channel),
        world.grid == (IsometricGrid { tile_size: TILE_SIZE }),
        world.camera_scale == INITIAL_ZOOM,
        world.player_position == (Point { x: 0, y: 0 }),
        world.player_sprite == (PlayerSprite { current_direction: PlayerDirection::Up }),
        world.movement == (GridMovement {
            target_position: None,
            move_speed: 400_000,
            is_moving: false,
        }),
        world.battery == (Battery { max_charge: 100_000, current_charge: 100_000 }),
        world.solar_panel == (SolarPanel { max_output: 5_000 }),
        world.cord_system@ == initial_cord(player_entity, anchor, chain, config),
        world.cord_system@.wf(),
        world.cord_system@.attached_pole == Some(anchor),
        world.cord_system@.joint_count() == 3,
{
    let grid: IsometricGrid = initial_grid();
    let player_position: Point = grid_to_world(&grid, 0, 0);
    proof {
        crate::geometry::lemma_round_div_exact(0, 2);
        crate::geometry::lemma_round_div_exact(0, 4);
        assert(0 * TILE_SIZE == 0);
    }
    WorldSetup {
        cord_texture: cord_texture_data(),
        grid,
        camera_scale: INITIAL_ZOOM,
        player_position,
        player_sprite: PlayerSprite { current_direction: PlayerDirection::Up },
        movement: initial_movement(),
        battery: initial_battery(),
        solar_panel: initial_solar_panel(),
        cord_system: initial_cord_system(player_entity, anchor, chain, config),
    }
}

} // verus!
