//! Moving the player from tile to tile, and turning its sprite.

use vstd::prelude::*;
use crate::components::{
    Battery, GridMovement, IsometricGrid, PlayerDirection, PlayerSprite, SystemToggles,
};
use crate::geometry::{
    distance_squared, extend_toward, isqrt_witness, lemma_sqrt_floor_unique,
    lemma_square_monotonic, lies_between, point_toward, square, sqrt_floor, Point,
};

verus! {

/// Charge that starting a move takes from the battery.
pub const MOVE_CHARGE: u32 = 2_000;

/// Nearer than this to its target, the player has arrived.
pub const ARRIVAL_DISTANCE: u64 = 2_000;

/// The movement keys that went down this tick.
#[derive(Clone, Copy, Debug, PartialEq, Eq, Structural)]
pub struct MoveKeys {
    pub w: bool,
    pub s: bool,
    pub a: bool,
    pub d: bool,
}

/// The direction that the keys ask for: up for W, down for S, left for A,
/// right for D, the first of these that went down.
pub open spec fn requested_direction(keys: MoveKeys) -> Option<PlayerDirection> {
    if keys.w {
        Some(PlayerDirection::Up)
    } else if keys.s {
        Some(PlayerDirection::Down)
    } else if keys.a {
        Some(PlayerDirection::Left)
    } else if keys.d {
        Some(PlayerDirection::Right)
    } else {
        None
    }
}

/// The step to the neighbouring tile in the given direction on a grid of
/// tiles `tile` wide: up leads north-east, down south-west, left
/// north-west, right south-east.
pub open spec fn tile_step(direction: PlayerDirection, tile: int) -> (int, int) {
    match direction {
        PlayerDirection::Up => (tile / 2, tile / 4),
        PlayerDirection::Down => (-(tile / 2), -(tile / 4)),
        PlayerDirection::Left => (-(tile / 2), tile / 4),
        PlayerDirection::Right => (tile / 2, -(tile / 4)),
    }
}

/// Index of the sprite sheet's frame for a direction.
pub open spec fn atlas_index_spec(direction: PlayerDirection) -> int {
    match direction {
        PlayerDirection::Up => 3,
        PlayerDirection::Down => 1,
        PlayerDirection::Left => 2,
        PlayerDirection::Right => 0,
    }
}

/// The direction that the keys ask for.
pub fn pressed_direction(keys: MoveKeys) -> (direction: Option<PlayerDirection>)
    ensures
        direction == requested_direction(keys),
{
    if keys.w {
        Some(PlayerDirection::Up)
    } else if keys.s {
        Some(PlayerDirection::Down)
    } else if keys.a {
        Some(PlayerDirection::Left)
    } else if keys.d {
        Some(PlayerDirection::Right)
    } else {
        None
    }
}

/// Index of the sprite sheet's frame for a direction.
pub fn atlas_index(direction: PlayerDirection) -> (index: usize)
    ensures
        index == atlas_index_spec(direction),
{
    match direction {
        PlayerDirection::Up => 3,
        PlayerDirection::Down => 1,
        PlayerDirection::Left => 2,
        PlayerDirection::Right => 0,
    }
}

/// A move starts: movement is switched on, the player stands still, a key
/// went down and the battery holds charge.
pub open spec fn move_starts(
    movement: GridMovement,
    battery: Battery,
    keys: MoveKeys,
    toggles: SystemToggles,
) -> bool {
    toggles.player_movement && !movement.is_moving && requested_direction(keys) is Some
        && battery.current_charge > 0
}

/// Starts a move to the neighbouring tile that the keys ask for.
///
/// A move that starts sets the target one tile step from `position` and
/// takes `MOVE_CHARGE` from the battery. Nothing starts while the player
/// is moving, while movement is switched off, or on an empty battery.
pub fn move_player(
    grid: &IsometricGrid,
    position: Point,
    movement: &mut GridMovement,
    battery: &mut Battery,
    keys: MoveKeys,
    toggles: &SystemToggles,
)
    requires
        position.in_world(),
    ensures
        move_starts(*old(movement), *old(battery), keys, *toggles) ==> {
            let step = tile_step(requested_direction(keys)->0, grid.tile_size as int);
            &&& final(movement).target_position == Some(
                Point { x: (position.x + step.0) as i64, y: (position.y + step.1) as i64 },
            )
            &&& final(movement).is_moving
            &&& final(movement).move_speed == old(movement).move_speed
            &&& *final(battery) == old(battery).drained(MOVE_CHARGE as int)
        },
        !move_starts(*old(movement), *old(battery), keys, *toggles) ==> {
            &&& *final(movement) == *old(movement)
            &&& *final(battery) == *old(battery)
        },
{
    if !toggles.player_movement || movement.is_moving {
        return ;
    }
    let half: i64 = (grid.tile_size / 2) as i64;
    let quarter: i64 = (grid.tile_size / 4) as i64;
    match pressed_direction(keys) {
        Some(direction) => {
            if battery.current_charge > 0 {
                let (dx, dy): (i64, i64) = match direction {
                    PlayerDirection::Up => (half, quarter),
                    PlayerDirection::Down => (-half, -quarter),
                    PlayerDirection::Left => (-half, quarter),
                    PlayerDirection::Right => (half, -quarter),
                };
                movement.target_position = Some(Point { x: position.x + dx, y: position.y + dy });
                movement.is_moving = true;
                battery.drain(MOVE_CHARGE);
            }
        },
        None => {},
    }
}

/// The player has arrived: the target is nearer than `ARRIVAL_DISTANCE`,
/// or no farther than one step of `step` would carry.
pub open spec fn arrives(position: Point, target: Point, step: int) -> bool {
    position.dist_sq(target) < square(ARRIVAL_DISTANCE as int) || square(step)
        >= position.dist_sq(target)
}

/// Distance covered at `speed` during `dt_ms` milliseconds, rounded down.
pub open spec fn travel(speed: int, dt_ms: int) -> int {
    speed * dt_ms / 1000
}

/// Carries the player towards its target for one tick.
///
/// A player that arrives stands on the target and has none any more.
/// Otherwise it moves one step towards the target, never beyond it. A player that is said
/// to move without a target stops.
pub fn grid_movement_system(
    position: &mut Point,
    movement: &mut GridMovement,
    dt_ms: u32,
    toggles: &SystemToggles,
)
    requires
        old(position).in_world(),
        old(movement).target_position matches Some(target) ==> target.in_world(),
    ensures
        final(position).in_world(),
        final(movement).move_speed == old(movement).move_speed,
        old(movement).target_position matches Some(target) ==> {
            &&& lies_between(final(position).x as int, old(position).x as int, target.x as int)
            &&& lies_between(final(position).y as int, old(position).y as int, target.y as int)
        },
        !toggles.player_movement ==> *final(position) == *old(position) && *final(movement)
            == *old(movement),
        toggles.player_movement && old(movement).target_position is None ==> *final(position)
            == *old(position) && final(movement).target_position is None && !final(movement).is_moving,
        toggles.player_movement ==> (old(movement).target_position matches Some(target) ==> {
            let step = travel(old(movement).move_speed as int, dt_ms as int);
            if arrives(*old(position), target, step) {
                &&& *final(position) == target
                &&& final(movement).target_position is None
                &&& !final(movement).is_moving
            } else {
                &&& (final(position).x as int, final(position).y as int) == point_toward(
                    *old(position),
                    target,
                    step,
                )
                &&& final(movement).target_position == Some(target)
                &&& final(movement).is_moving == old(movement).is_moving
            }
        }),
{
    if !toggles.player_movement {
        return ;
    }
    match movement.target_position {
        Some(target) => {
            let d2: u128 = distance_squared(*position, target);
            assert(movement.move_speed as int * dt_ms as int <= 0xffff_ffff * 0xffff_ffff)
                by (nonlinear_arith)
                requires
                    0 <= movement.move_speed <= 0xffff_ffff,
                    0 <= dt_ms <= 0xffff_ffff,
            ;
            let step: u64 = movement.move_speed as u64 * dt_ms as u64 / 1000;
            let arrived: bool = if d2 < (ARRIVAL_DISTANCE * ARRIVAL_DISTANCE) as u128 {
                true
            } else if step >= 0x1_0000_0000 {
                proof {
                    lemma_square_monotonic(0x1_0000_0000, step as int);
                    assert(square(0x1_0000_0000) == 0x1_0000_0000_0000_0000) by (nonlinear_arith);
                }
                true
            } else {
                proof {
                    lemma_square_monotonic(step as int, 0xffff_ffff);
                    assert(square(0xffff_ffff) == 0xffff_fffe_0000_0001) by (nonlinear_arith);
                }
                (step * step) as u128 >= d2
            };
            if arrived {
                *position = target;
                movement.target_position = None;
                movement.is_moving = false;
            } else {
                proof {
                    let norm = isqrt_witness(position.dist_sq(target) as int);
                    lemma_sqrt_floor_unique(
                        position.dist_sq(target),
                        norm,
                        sqrt_floor(position.dist_sq(target)),
                    );
                    if step > norm {
                        lemma_square_monotonic(norm + 1, step as int);
                    }
                }
                *position = extend_toward(*position, target, step as u32);
            }
        },
        None => {
            if movement.is_moving {
                movement.is_moving = false;
            }
        },
    }
}

/// The sprite turns: rotation is switched on and a key asks for a
/// direction other than the current one.
pub open spec fn sprite_turns(sprite: PlayerSprite, keys: MoveKeys, toggles: SystemToggles) -> bool {
    toggles.player_rotation && requested_direction(keys) is Some && requested_direction(keys)
        != Some(sprite.current_direction)
}

/// Turns the player's sprite into the direction that the keys ask for.
/// Where the sprite turns, the result is the frame of the sprite sheet to
/// show from now on.
pub fn update_player_sprite_direction(
    sprite: &mut PlayerSprite,
    keys: MoveKeys,
    toggles: &SystemToggles,
) -> (frame: Option<usize>)
    ensures
        sprite_turns(*old(sprite), keys, *toggles) ==> final(sprite).current_direction
            == requested_direction(keys)->0 && frame == Some(
            atlas_index_spec(requested_direction(keys)->0) as usize,
        ),
        !sprite_turns(*old(sprite), keys, *toggles) ==> *final(sprite) == *old(sprite) && frame
            is None,
{
    if !toggles.player_rotation {
        return None;
    }
    match pressed_direction(keys) {
        Some(direction) => {
            if sprite.current_direction != direction {
                sprite.current_direction = direction;
                Some(atlas_index(direction))
            } else {
                None
            }
        },
        None => None,
    }
}

} // verus!
