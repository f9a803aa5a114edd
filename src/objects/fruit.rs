//! A fruit, as released by a chest.

use vstd::prelude::*;

use crate::celeste::Celeste;
use crate::object::{Object, ObjectType, POS_LIMIT};
use crate::structures::{FlipState, Rectangle, Vector};

verus! {

/// The fruit kind; it keeps no state of its own.
pub struct Fruit;

/// Sprite of a fruit.
pub const FRUIT_SPR: u8 = 26;

impl Fruit {
    pub open spec fn fruit_at(x: int, y: int) -> Object {
        Object {
            pos: Vector { x: x as i32, y: y as i32 },
            spd: Vector { x: 0, y: 0 },
            rem: Vector { x: 0, y: 0 },
            spr: FRUIT_SPR,
            hitbox: Rectangle { x: 0, y: 0, w: 8, h: 8 },
            flip: FlipState { x: false, y: false },
            collidable: true,
            solids: false,
            obj_type: ObjectType::Fruit,
            removed: false,
        }
    }

    pub fn init(_celeste: &mut Celeste, x: i32, y: i32) -> (o: Object)
        requires
            -POS_LIMIT <= x <= POS_LIMIT,
            -POS_LIMIT <= y <= POS_LIMIT,
        ensures
            o == Fruit::fruit_at(x as int, y as int),
            o.wf(),
            *final(_celeste) == *old(_celeste),
    {
        Object {
            pos: Vector { x, y },
            spd: Vector { x: 0, y: 0 },
            rem: Vector { x: 0, y: 0 },
            spr: FRUIT_SPR,
            hitbox: Rectangle { x: 0, y: 0, w: 8, h: 8 },
            flip: FlipState { x: false, y: false },
            collidable: true,
            solids: false,
            obj_type: ObjectType::Fruit,
            removed: false,
        }
    }
}

} // verus!
