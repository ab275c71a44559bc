//! The actor that the player steers: where it wants to go, the camera that
//! follows it and the light that it carries.

use vstd::prelude::*;
use crate::light::{LightDescriptor, Lights, WorldPosition};
use crate::scalar::{Scalar, ONE_HALF_BITS, lemma_halves};

verus! {

/// Slot of the light that the player carries.
pub const PLAYER_LIGHT: usize = 0;

/// Speed of the player in world units per second.
pub const PLAYER_SPEED: u32 = 128;

/// Which of the four directions are held down.
#[derive(Clone, Copy, Debug, PartialEq, Eq, Structural)]
pub struct MoveInput {
    pub up: bool,
    pub down: bool,
    pub left: bool,
    pub right: bool,
}

/// A direction on each axis: -1, 0 or 1.
#[derive(Clone, Copy, Debug, PartialEq, Eq, Structural)]
pub struct MoveAxes {
    pub x: i8,
    pub y: i8,
}

/// 1 for a direction that is held down, 0 for one that is not.
pub open spec fn held(pressed: bool) -> int {
    if pressed {
        1
    } else {
        0
    }
}

/// Turns the held directions into a direction on each axis. Opposite
/// directions cancel.
pub fn player_movement(input: MoveInput) -> (axes: MoveAxes)
    ensures
        axes.x == held(input.right) - held(input.left),
        axes.y == held(input.up) - held(input.down),
{
    let mut x: i8 = 0;
    let mut y: i8 = 0;
    if input.right {
        x = x + 1;
    }
    if input.left {
        x = x - 1;
    }
    if input.up {
        y = y + 1;
    }
    if input.down {
        y = y - 1;
    }
    MoveAxes { x, y }
}

/// Moves the camera over the player: it takes the player's place in the
/// plane and keeps its own depth.
pub fn camera_follows_player(camera: WorldPosition, player: WorldPosition) -> (moved: WorldPosition)
    ensures
        moved == (WorldPosition { x: player.x, y: player.y, z: camera.z }),
{
    WorldPosition { x: player.x, y: player.y, z: camera.z }
}

/// Puts the player's light where the player is, at a strength of one half.
/// No other slot changes.
pub fn light_follows_player(lights: &mut Lights, player: WorldPosition)
    ensures
        final(lights)@.len() == old(lights)@.len(),
        final(lights)@[PLAYER_LIGHT as int].position == player,
        final(lights)@[PLAYER_LIGHT as int].strength.is_dyadic(1, 1),
        final(lights)@ == old(lights)@.update(
            PLAYER_LIGHT as int,
            LightDescriptor { position: player, strength: Scalar { bits: ONE_HALF_BITS } },
        ),
{
    let strength = Scalar::dyadic(1, 1);
    proof {
        lemma_halves(strength);
    }
    lights.set_light(PLAYER_LIGHT, player, strength);
}

} // verus!
