//! A chest that rattles once the key is held, then releases a fruit.

use vstd::prelude::*;

use crate::celeste::{spawnable, Celeste};
use crate::object::{clamp_to_world, world_clamp, Kind, Object, ObjectType, POS_LIMIT};
use crate::objects::fruit::Fruit;
use crate::structures::{FlipState, Rectangle, Sprite, Vector};

verus! {

/// Chest state.
#[derive(Clone, Copy, Debug, PartialEq, Eq, Structural)]
pub struct Chest {
    /// x position the chest rattles around.
    pub start: i32,
    /// Ticks of rattling left before the fruit comes out.
    pub timer: i32,
}

/// Ticks of rattling before the chest opens.
pub const OPEN_TICKS: i32 = 20;

/// Sprite of a chest.
pub const CHEST_SPR: u8 = 20;

/// The object's chest state (meaningful for a chest only).
pub open spec fn chest_of(o: Object) -> Chest {
    o.obj_type->Chest_0
}

/// The count after one tick with the key: down by one, stopping at zero.
pub open spec fn chest_step(t: int) -> int {
    if t > 0 {
        t - 1
    } else {
        t
    }
}

/// The count after `n` ticks with the key.
pub open spec fn chest_countdown(t: int, n: nat) -> int
    decreases n,
{
    if n == 0 {
        t
    } else {
        chest_step(chest_countdown(t, (n - 1) as nat))
    }
}

/// Fruits released over `n` ticks with the key, from count `t`: one on
/// each tick that takes the count from 1 to 0.
pub open spec fn fruits_released(t: int, n: nat) -> nat
    decreases n,
{
    if n == 0 {
        0
    } else {
        fruits_released(t, (n - 1) as nat) + if chest_countdown(t, (n - 1) as nat) == 1 {
            1nat
        } else {
            0nat
        }
    }
}

/// The chest in slot `i` of `pre` has taken its update, giving `post`.
pub open spec fn chest_updated(pre: &Celeste, post: &Celeste, i: int) -> bool {
    let o = pre.objects@[i];
    let ch = chest_of(o);
    let r = post.objects@[i];
    let opens = pre.has_key && ch.timer == 1;
    let rest = pre.objects@.update(i, r);
    &&& !pre.has_key ==> *post == *pre
    &&& pre.has_key ==> r == Object {
        pos: Vector { x: r.pos.x, y: o.pos.y },
        obj_type: ObjectType::Chest(
            Chest { timer: chest_step(ch.timer as int) as i32, ..ch },
        ),
        ..o
    } && ch.start - 1 <= r.pos.x <= ch.start + 1
    &&& opens ==> post.objects@ == rest.push(
        Fruit::fruit_at(ch.start as int, world_clamp(o.pos.y - 4)),
    )
    &&& !opens ==> post.objects@ == rest
}

impl Chest {
    pub open spec fn wf(&self) -> bool {
        &&& 0 <= self.timer <= OPEN_TICKS
        &&& -POS_LIMIT + 1 <= self.start <= POS_LIMIT - 1
    }

    /// A closed chest whose left edge is 4 pixels left of `x`.
    pub fn init(_celeste: &mut Celeste, x: i32, y: i32) -> (o: Object)
        requires
            spawnable(x as int),
            spawnable(y as int),
        ensures
            o.wf(),
            o.kind() == Kind::Chest,
            o.pos == (Vector { x: (x - 4) as i32, y }),
            o.spr == CHEST_SPR,
            o.hitbox == (Rectangle { x: 0, y: 0, w: 8, h: 8 }),
            o.collidable,
            !o.solids,
            !o.removed,
            o.spd == (Vector { x: 0, y: 0 }),
            o.rem == (Vector { x: 0, y: 0 }),
            chest_of(o) == (Chest { start: (x - 4) as i32, timer: OPEN_TICKS }),
            *final(_celeste) == *old(_celeste),
    {
        Object {
            pos: Vector { x: x - 4, y },
            spd: Vector { x: 0, y: 0 },
            rem: Vector { x: 0, y: 0 },
            spr: CHEST_SPR,
            hitbox: Rectangle { x: 0, y: 0, w: 8, h: 8 },
            flip: FlipState { x: false, y: false },
            collidable: true,
            solids: false,
            obj_type: ObjectType::Chest(Chest { start: x - 4, timer: OPEN_TICKS }),
            removed: false,
        }
    }

    /// One tick of the chest in slot `i`. Without the key it does nothing.
    /// With it, the chest rattles to a random x within a pixel of its
    /// start and counts down; on the tick the count reaches zero a fruit
    /// appears 4 pixels above the start. After that it only rattles.
    pub fn update(celeste: &mut Celeste, i: usize)
        requires
            old(celeste).wf(),
            i < old(celeste).objects@.len(),
            old(celeste).objects@[i as int].kind() == Kind::Chest,
        ensures
            final(celeste).wf(),
            final(celeste).same_setting(old(celeste)),
            chest_updated(old(celeste), final(celeste), i as int),
    {
        if !celeste.has_key {
            assert(*celeste == *old(celeste));
            assert(celeste.objects@ =~= old(celeste).objects@.update(
                i as int,
                celeste.objects@[i as int],
            ));
            return ;
        }
        let ghost c0 = *celeste;
        let mut obj = celeste.objects[i];
        assert(obj.wf());
        let mut this = match obj.obj_type {
            ObjectType::Chest(ch) => ch,
            _ => {
                return ;
            },
        };
        let jitter = celeste.random_below(3);
        obj.pos.x = this.start - 1 + jitter as i32;
        let mut opens = false;
        if this.timer > 0 {
            this.timer = this.timer - 1;
            opens = this.timer == 0;
        }
        obj.obj_type = ObjectType::Chest(this);
        celeste.objects.set(i, obj);
        assert forall|l: int| 0 <= l < celeste.objects@.len() implies #[trigger] celeste.objects@[l].wf() by {
            assert(c0.objects@[l].wf());
        }
        if opens {
            celeste.init_fruit(this.start, clamp_to_world(obj.pos.y as i64 - 4));
        }
    }

    pub fn draw(obj: &Object) -> (r: Vec<Sprite>)
        ensures
            r@ == seq![obj.own_sprite()],
    {
        let mut r: Vec<Sprite> = Vec::new();
        r.push(obj.draw_sprite());
        r
    }
}

/// With the key held from a fresh chest, the count after `n` ticks is
/// `OPEN_TICKS - n` until it reaches zero, and exactly one fruit has been
/// released by tick `OPEN_TICKS` and ever after; none before. The rattle
/// takes no part in this.
pub proof fn lemma_chest_releases_once(n: nat)
    ensures
        chest_countdown(OPEN_TICKS as int, n) == if n <= OPEN_TICKS {
            OPEN_TICKS - n
        } else {
            0
        },
        fruits_released(OPEN_TICKS as int, n) == if n >= OPEN_TICKS {
            1nat
        } else {
            0nat
        },
    decreases n,
{
    if n > 0 {
        lemma_chest_releases_once((n - 1) as nat);
    }
}

} // verus!
