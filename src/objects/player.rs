//! The player, as far as other objects see it: a body that tiles stop and
//! a dash charge count that balloons refill.

use vstd::prelude::*;

use crate::celeste::{spawnable, Celeste};
use crate::object::{Kind, Object, ObjectType};
use crate::structures::{FlipState, Rectangle, Vector};

verus! {

/// State of the player that other objects read and refill.
#[derive(Clone, Copy, Debug, PartialEq, Eq, Structural)]
pub struct Player {
    /// Dash charges left.
    pub djump: u32,
}

/// Sprite of the player standing.
pub const PLAYER_SPR: u8 = 1;

impl Player {
    /// A player at `(x, y)` with every dash charge.
    pub fn init(celeste: &mut Celeste, x: i32, y: i32) -> (o: Object)
        requires
            spawnable(x as int),
            spawnable(y as int),
        ensures
            o.wf(),
            o.kind() == Kind::Player,
            o.pos == (Vector { x, y }),
            o.spr == PLAYER_SPR,
            o.hitbox == (Rectangle { x: 1, y: 3, w: 6, h: 5 }),
            o.collidable,
            o.solids,
            !o.removed,
            o.spd == (Vector { x: 0, y: 0 }),
            o.obj_type == ObjectType::Player(Player { djump: old(celeste).max_djump }),
            *final(celeste) == *old(celeste),
    {
        Object {
            pos: Vector { x, y },
            spd: Vector { x: 0, y: 0 },
            rem: Vector { x: 0, y: 0 },
            spr: PLAYER_SPR,
            hitbox: Rectangle { x: 1, y: 3, w: 6, h: 5 },
            flip: FlipState { x: false, y: false },
            collidable: true,
            solids: true,
            obj_type: ObjectType::Player(Player { djump: celeste.max_djump }),
            removed: false,
        }
    }
}

} // verus!
