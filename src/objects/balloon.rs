//! A balloon that refills the player's dash charge and respawns.

use vstd::prelude::*;

use crate::celeste::{spawnable, Celeste};
use crate::object::{Kind, Object, ObjectType, POS_LIMIT};
use crate::objects::player::Player;
use crate::structures::{FlipState, Rectangle, Sprite, Vector};

verus! {

/// Balloon state.
#[derive(Clone, Copy, Debug, PartialEq, Eq, Structural)]
pub struct Balloon {
    /// Phase of the bob, in hundredths of a turn, kept below `PHASE_PERIOD`.
    pub offset: u32,
    /// Ticks until the balloon comes back once popped.
    pub timer: u32,
    /// Height the balloon bobs around.
    pub start: i32,
}

/// Period of the phase, in hundredths of a turn, after which both the bob
/// and the string's frame repeat.
pub const PHASE_PERIOD: u32 = 300;

/// Ticks a popped balloon stays away.
pub const RESPAWN_TICKS: u32 = 60;

/// Sprite of a floating balloon; a popped one shows sprite 0.
pub const BALLOON_SPR: u8 = 22;

/// The object's balloon state (meaningful for a balloon only).
pub open spec fn balloon_of(o: Object) -> Balloon {
    o.obj_type->Balloon_0
}

/// The player's dash charges (meaningful for a player only).
pub open spec fn djump_of(o: Object) -> u32 {
    o.obj_type->Player_0.djump
}

/// The player `p` with its dash charges set to `n`.
pub open spec fn refilled(p: Object, n: u32) -> Object {
    Object { obj_type: ObjectType::Player(Player { djump: n }), ..p }
}

/// A floating balloon after moving one hundredth of a turn along its bob.
pub open spec fn floated(o: Object, wave: Seq<i32>) -> Object {
    let b = balloon_of(o);
    let phase = ((b.offset + 1) % PHASE_PERIOD as int) as u32;
    Object {
        pos: Vector { x: o.pos.x, y: (b.start + wave[(phase % 100) as int]) as i32 },
        obj_type: ObjectType::Balloon(Balloon { offset: phase, ..b }),
        ..o
    }
}

/// The balloon in slot `i`, floating, has just reached a player whose dash
/// charges are below the maximum.
pub open spec fn pops(c: &Celeste, i: int) -> bool {
    let f = floated(c.objects@[i], c.wave@);
    &&& c.objects@[i].spr == BALLOON_SPR
    &&& exists|j: int|
        f.first_hit(c.objects@, i, Kind::Player, 0, 0, j) && djump_of(#[trigger] c.objects@[j])
            < c.max_djump
}

/// The balloon `o` after its own update; `pop` says whether it popped.
pub open spec fn balloon_after(o: Object, pop: bool, wave: Seq<i32>) -> Object {
    let b = balloon_of(o);
    if o.spr == BALLOON_SPR {
        let f = floated(o, wave);
        if pop {
            Object {
                spr: 0,
                obj_type: ObjectType::Balloon(Balloon { timer: RESPAWN_TICKS, ..balloon_of(f) }),
                ..f
            }
        } else {
            f
        }
    } else if b.timer <= 1 {
        Object {
            spr: BALLOON_SPR,
            obj_type: ObjectType::Balloon(Balloon { timer: 0, ..b }),
            ..o
        }
    } else {
        Object { obj_type: ObjectType::Balloon(Balloon { timer: (b.timer - 1) as u32, ..b }), ..o }
    }
}

/// The update puts out a puff: on popping, and on coming back.
pub open spec fn balloon_puffs(o: Object, pop: bool) -> bool {
    if o.spr == BALLOON_SPR {
        pop
    } else {
        balloon_of(o).timer <= 1
    }
}

/// What a balloon shows: while floating, its string (whose frame follows
/// the phase) under it, then the balloon; nothing while popped.
pub open spec fn balloon_sprites(o: Object) -> Seq<Sprite> {
    if o.spr == BALLOON_SPR {
        seq![
            Sprite {
                id: (13 + (balloon_of(o).offset * 8 / 100) % 3) as u8,
                x: o.pos.x,
                y: (o.pos.y + 6) as i32,
                flip: FlipState { x: false, y: false },
            },
            o.own_sprite(),
        ]
    } else {
        seq![]
    }
}

/// `n` updates of the balloon `o` with no player in reach.
pub open spec fn balloon_idle(o: Object, n: nat, wave: Seq<i32>) -> Object
    decreases n,
{
    if n == 0 {
        o
    } else {
        balloon_idle(balloon_after(o, false, wave), (n - 1) as nat, wave)
    }
}

/// The balloon in slot `i` of `pre` has taken its update, giving `post`.
pub open spec fn balloon_updated(pre: &Celeste, post: &Celeste, i: int) -> bool {
    let o = pre.objects@[i];
    let pop = pops(pre, i);
    let after = balloon_after(o, pop, pre.wave@);
    let n = pre.objects@.len();
    &&& post.objects@[i] == after
    &&& post.objects@.len() == if balloon_puffs(o, pop) {
        n + 1
    } else {
        n
    }
    &&& balloon_puffs(o, pop) ==> post.objects@.last().is_puff_at(
        after.pos.x as int,
        after.pos.y as int,
    )
    &&& forall|j: int|
        0 <= j < n && j != i ==> #[trigger] post.objects@[j] == if pop
            && floated(o, pre.wave@).first_hit(
            pre.objects@,
            i,
            Kind::Player,
            0,
            0,
            j,
        ) {
            refilled(pre.objects@[j], pre.max_djump)
        } else {
            pre.objects@[j]
        }
}

impl Balloon {
    pub open spec fn wf(&self) -> bool {
        &&& self.offset < PHASE_PERIOD
        &&& self.timer <= RESPAWN_TICKS
        &&& -POS_LIMIT + 2 <= self.start <= POS_LIMIT - 2
    }

    /// A floating balloon at `(x, y)` with a random phase.
    pub fn init(celeste: &mut Celeste, x: i32, y: i32) -> (o: Object)
        requires
            spawnable(x as int),
            spawnable(y as int),
        ensures
            o.wf(),
            o.kind() == Kind::Balloon,
            o.pos == (Vector { x, y }),
            o.spr == BALLOON_SPR,
            o.spd == (Vector { x: 0, y: 0 }),
            o.rem == (Vector { x: 0, y: 0 }),
            o.hitbox == (Rectangle { x: -1i32, y: -1i32, w: 10, h: 10 }),
            o.collidable,
            !o.solids,
            !o.removed,
            balloon_of(o).offset < 100,
            balloon_of(o).timer == 0,
            balloon_of(o).start == y,
            final(celeste).objects == old(celeste).objects,
            final(celeste).same_setting(old(celeste)),
    {
        let offset = celeste.random_below(100);
        Object {
            pos: Vector { x, y },
            spd: Vector { x: 0, y: 0 },
            rem: Vector { x: 0, y: 0 },
            spr: BALLOON_SPR,
            hitbox: Rectangle { x: -1, y: -1, w: 10, h: 10 },
            flip: FlipState { x: false, y: false },
            collidable: true,
            solids: false,
            obj_type: ObjectType::Balloon(Balloon { offset, timer: 0, start: y }),
            removed: false,
        }
    }

    /// One tick of the balloon in slot `i`. Floating, it bobs and looks
    /// for the player: a player short of dash charges gets them all back,
    /// and the balloon pops for `RESPAWN_TICKS` ticks. Popped, it counts
    /// down and floats again on the tick the count reaches zero.
    pub fn update(celeste: &mut Celeste, i: usize)
        requires
            old(celeste).wf(),
            i < old(celeste).objects@.len(),
            old(celeste).objects@[i as int].kind() == Kind::Balloon,
        ensures
            final(celeste).wf(),
            final(celeste).same_setting(old(celeste)),
            balloon_updated(old(celeste), final(celeste), i as int),
    {
        let ghost c0 = *celeste;
        let mut obj = celeste.objects[i];
        assert(obj.wf());
        let mut this = match obj.obj_type {
            ObjectType::Balloon(b) => b,
            _ => {
                return ;
            },
        };
        if obj.spr == BALLOON_SPR {
            this.offset = (this.offset + 1) % PHASE_PERIOD;
            obj.pos.y = this.start + celeste.bob(this.offset);
            obj.obj_type = ObjectType::Balloon(this);
            assert(obj == floated(c0.objects@[i as int], c0.wave@));
            let hit = obj.check(celeste, i, Kind::Player, 0, 0);
            if let Some(j) = hit {
                let mut pobj = celeste.objects[j];
                if let ObjectType::Player(mut p) = pobj.obj_type {
                    if p.djump < celeste.max_djump {
                        p.djump = celeste.max_djump;
                        pobj.obj_type = ObjectType::Player(p);
                        celeste.objects.set(j, pobj);
                        obj.spr = 0;
                        this.timer = RESPAWN_TICKS;
                        obj.obj_type = ObjectType::Balloon(this);
                        celeste.objects.set(i, obj);
                        let ghost c1 = *celeste;
                        assert forall|l: int| 0 <= l < c1.objects@.len() implies #[trigger] c1.objects@[l].wf() by {
                            assert(c0.objects@[l].wf());
                        }
                        assert(pops(&c0, i as int));
                        celeste.init_smoke(obj.pos.x, obj.pos.y);
                        assert forall|l: int|
                            0 <= l < c0.objects@.len() && l != i && l != j implies !floated(
                            c0.objects@[i as int],
                            c0.wave@,
                        ).first_hit(c0.objects@, i as int, Kind::Player, 0, 0, l) by {}
                        assert forall|l: int| 0 <= l < c1.objects@.len() implies #[trigger] celeste.objects@[l] == c1.objects@[l] by {
                            assert(celeste.objects@.drop_last()[l] == c1.objects@[l]);
                        }
                        return ;
                    }
                    assert(!pops(&c0, i as int));
                }
            } else {
                assert(!pops(&c0, i as int));
            }
            celeste.objects.set(i, obj);
        } else {
            if this.timer > 0 {
                this.timer = this.timer - 1;
            }
            obj.obj_type = ObjectType::Balloon(this);
            if this.timer == 0 {
                obj.spr = BALLOON_SPR;
                celeste.objects.set(i, obj);
                let ghost c1 = *celeste;
                celeste.init_smoke(obj.pos.x, obj.pos.y);
                assert forall|l: int| 0 <= l < c1.objects@.len() implies #[trigger] celeste.objects@[l] == c1.objects@[l] by {
                    assert(celeste.objects@.drop_last()[l] == c1.objects@[l]);
                }
            } else {
                celeste.objects.set(i, obj);
            }
        }
    }

    /// The string (while floating) and the balloon itself.
    pub fn draw(obj: &Object) -> (r: Vec<Sprite>)
        requires
            obj.kind() == Kind::Balloon,
            obj.wf(),
        ensures
            r@ == balloon_sprites(*obj),
    {
        let mut r: Vec<Sprite> = Vec::new();
        if let ObjectType::Balloon(this) = obj.obj_type {
            if obj.spr == BALLOON_SPR {
                r.push(
                    Sprite {
                        id: 13 + ((this.offset * 8 / 100) % 3) as u8,
                        x: obj.pos.x,
                        y: obj.pos.y + 6,
                        flip: FlipState { x: false, y: false },
                    },
                );
                r.push(obj.draw_sprite());
            }
        }
        r
    }
}

/// A popped balloon left alone keeps counting down for as many ticks as its
/// count, and floats again on the tick the count reaches zero.
proof fn lemma_idle_countdown(p: Object, k: nat, wave: Seq<i32>)
    requires
        p.kind() == Kind::Balloon,
        p.spr != BALLOON_SPR,
        1 <= balloon_of(p).timer,
        k <= balloon_of(p).timer,
    ensures
        k < balloon_of(p).timer ==> balloon_idle(p, k, wave).spr == p.spr && balloon_of(
            balloon_idle(p, k, wave),
        ).timer == balloon_of(p).timer - k,
        k == balloon_of(p).timer ==> balloon_idle(p, k, wave).spr == BALLOON_SPR,
    decreases k,
{
    if k > 0 {
        let q = balloon_after(p, false, wave);
        if balloon_of(p).timer > 1 {
            lemma_idle_countdown(q, (k - 1) as nat, wave);
        } else {
            assert(balloon_idle(q, 0, wave) == q);
        }
    }
}

/// A floating balloon that reaches a player short of dash charges pops: it
/// shows sprite 0 with a count of `RESPAWN_TICKS`. Left alone after that,
/// it stays popped for the next `RESPAWN_TICKS - 1` ticks and floats again
/// on the `RESPAWN_TICKS`-th.
pub proof fn lemma_balloon_respawn(o: Object, wave: Seq<i32>, n: nat)
    requires
        o.kind() == Kind::Balloon,
        o.spr == BALLOON_SPR,
        n <= RESPAWN_TICKS,
    ensures
        balloon_after(o, true, wave).spr == 0,
        balloon_of(balloon_after(o, true, wave)).timer == RESPAWN_TICKS,
        n < RESPAWN_TICKS ==> balloon_idle(balloon_after(o, true, wave), n, wave).spr == 0,
        n == RESPAWN_TICKS ==> balloon_idle(balloon_after(o, true, wave), n, wave).spr
            == BALLOON_SPR,
{
    lemma_idle_countdown(balloon_after(o, true, wave), n, wave);
}

} // verus!
