//! A short-lived puff of smoke.

use vstd::prelude::*;

use crate::celeste::Celeste;
use crate::object::{Kind, Object, ObjectType, POS_LIMIT};

use crate::structures::{FlipState, Rectangle, Vector};

verus! {

/// Smoke state.
#[derive(Clone, Copy, Debug, PartialEq, Eq, Structural)]
pub struct Smoke {
    /// Ticks lived.
    pub age: u32,
}

/// Ticks a puff lasts.
pub const SMOKE_TICKS: u32 = 15;

/// First sprite of the puff; it moves on one frame every five ticks.
pub const SMOKE_SPR: u8 = 29;

impl Smoke {
    pub open spec fn wf(&self) -> bool {
        self.age <= SMOKE_TICKS
    }

    /// A fresh puff at `(x, y)`, drifting right and up.
    pub fn init(celeste: &mut Celeste, x: i32, y: i32) -> (o: Object)
        requires
            -POS_LIMIT <= x <= POS_LIMIT,
            -POS_LIMIT <= y <= POS_LIMIT,
        ensures
            o.is_puff_at(x as int, y as int),
            30 <= o.spd.x < 50,
            o.spd.y == -10,
            o.rem == (Vector { x: 0, y: 0 }),
            !o.collidable,
            !o.solids,
            final(celeste).objects == old(celeste).objects,
            final(celeste).same_setting(old(celeste)),
    {
        let drift = celeste.random_below(20);
        Object {
            pos: Vector { x, y },
            spd: Vector { x: 30 + drift as i32, y: -10 },
            rem: Vector { x: 0, y: 0 },
            spr: SMOKE_SPR,
            hitbox: Rectangle { x: 0, y: 0, w: 8, h: 8 },
            flip: FlipState { x: false, y: false },
            collidable: false,
            solids: false,
            obj_type: ObjectType::Smoke(Smoke { age: 0 }),
            removed: false,
        }
    }
}

/// The puff `o` one tick older: its frame follows its age, and it is
/// marked for removal once its last frame is done.
pub open spec fn smoke_after(o: Object) -> Object {
    let age = if o.obj_type->Smoke_0.age < SMOKE_TICKS {
        o.obj_type->Smoke_0.age + 1
    } else {
        SMOKE_TICKS as int
    };
    Object {
        spr: (SMOKE_SPR + age / 5) as u8,
        obj_type: ObjectType::Smoke(Smoke { age: age as u32 }),
        removed: o.removed || age >= SMOKE_TICKS,
        ..o
    }
}

/// The puff in slot `i` of `pre` has taken its update, giving `post`.
pub open spec fn smoke_updated(pre: &Celeste, post: &Celeste, i: int) -> bool {
    post.objects@ == pre.objects@.update(i, smoke_after(pre.objects@[i]))
}

impl Smoke {
    /// One tick of the puff in slot `i`.
    pub fn update(celeste: &mut Celeste, i: usize)
        requires
            old(celeste).wf(),
            i < old(celeste).objects@.len(),
            old(celeste).objects@[i as int].kind() == Kind::Smoke,
        ensures
            final(celeste).wf(),
            final(celeste).same_setting(old(celeste)),
            smoke_updated(old(celeste), final(celeste), i as int),
    {
        let ghost c0 = *celeste;
        let mut obj = celeste.objects[i];
        assert(obj.wf());
        let mut this = match obj.obj_type {
            ObjectType::Smoke(s) => s,
            _ => {
                return ;
            },
        };
        if this.age < SMOKE_TICKS {
            this.age = this.age + 1;
        }
        obj.spr = SMOKE_SPR + (this.age / 5) as u8;
        obj.obj_type = ObjectType::Smoke(this);
        if this.age >= SMOKE_TICKS {
            obj.removed = true;
        }
        celeste.objects.set(i, obj);
        assert forall|l: int| 0 <= l < celeste.objects@.len() implies #[trigger] celeste.objects@[l].wf() by {
            assert(c0.objects@[l].wf());
        }
    }
}

impl Object {
    /// A fresh puff of smoke at `(x, y)`.
    pub open spec fn is_puff_at(&self, x: int, y: int) -> bool {
        &&& self.wf()
        &&& self.kind() == Kind::Smoke
        &&& self.pos.x == x
        &&& self.pos.y == y
        &&& self.spr == SMOKE_SPR
        &&& !self.removed
        &&& self.obj_type->Smoke_0.age == 0
    }
}

} // verus!
