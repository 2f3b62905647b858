//! What the entities decide without the screen: how keys steer the player
//! and the other characters.

use vstd::prelude::*;

verus! {

/// A key as the player understands it.
#[derive(Clone, Copy, Debug, PartialEq, Eq, Structural)]
pub enum MoveKey {
    W,
    A,
    S,
    D,
    Other,
}

/// A velocity in steps of one hundredth of the viewport per tick.
#[derive(Clone, Copy, Debug, PartialEq, Eq, Structural)]
pub struct Velocity {
    pub x: i8,
    pub y: i8,
}

/// The velocity after `key`: `W` and `S` set the vertical speed to one step
/// up or down, `A` and `D` the horizontal speed to one step left or right,
/// and each leaves the other axis alone.
pub open spec fn steer_spec(velocity: Velocity, key: MoveKey) -> Velocity {
    match key {
        MoveKey::W => Velocity { y: 1, ..velocity },
        MoveKey::A => Velocity { x: -1i8, ..velocity },
        MoveKey::S => Velocity { y: -1i8, ..velocity },
        MoveKey::D => Velocity { x: 1, ..velocity },
        MoveKey::Other => velocity,
    }
}

/// Applies a key to the player's velocity.
pub fn steer(velocity: Velocity, key: MoveKey) -> (out: Velocity)
    ensures
        out == steer_spec(velocity, key),
{
    match key {
        MoveKey::W => Velocity { x: velocity.x, y: 1 },
        MoveKey::A => Velocity { x: -1, y: velocity.y },
        MoveKey::S => Velocity { x: velocity.x, y: -1 },
        MoveKey::D => Velocity { x: 1, y: velocity.y },
        MoveKey::Other => velocity,
    }
}

/// A key as the other characters understand it.
#[derive(Clone, Copy, Debug, PartialEq, Eq, Structural)]
pub enum NpcKey {
    U,
    H,
    J,
    K,
    Other,
}

/// The velocity of a character after `key`: `U` and `J` set the vertical
/// speed to five steps up or down, `H` and `K` the horizontal speed to five
/// steps left or right, and each leaves the other axis alone.
pub open spec fn steer_npc_spec(velocity: Velocity, key: NpcKey) -> Velocity {
    match key {
        NpcKey::U => Velocity { y: 5, ..velocity },
        NpcKey::H => Velocity { x: -5i8, ..velocity },
        NpcKey::J => Velocity { y: -5i8, ..velocity },
        NpcKey::K => Velocity { x: 5, ..velocity },
        NpcKey::Other => velocity,
    }
}

/// Applies a key to the velocity of a character.
pub fn steer_npc(velocity: Velocity, key: NpcKey) -> (out: Velocity)
    ensures
        out == steer_npc_spec(velocity, key),
{
    match key {
        NpcKey::U => Velocity { x: velocity.x, y: 5 },
        NpcKey::H => Velocity { x: -5, y: velocity.y },
        NpcKey::J => Velocity { x: velocity.x, y: -5 },
        NpcKey::K => Velocity { x: 5, y: velocity.y },
        NpcKey::Other => velocity,
    }
}

} // verus!
