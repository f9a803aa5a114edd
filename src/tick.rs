//! The tick driver: every live object's update in registry order, each
//! followed by its move, then the compacting pass; and the frame's blits.

use vstd::prelude::*;

use crate::celeste::Celeste;
use crate::object::{lemma_slide_keeps_type, Kind, Object, ObjectType};
use crate::celeste::advanced;
use crate::objects::balloon::{balloon_sprites, balloon_updated, Balloon};
use crate::objects::chest::{chest_updated, Chest};
use crate::objects::platform::{platform_sprites, platform_updated, Platform};
use crate::objects::smoke::{smoke_updated, Smoke};
use crate::structures::Sprite;

verus! {

/// What an object shows, in draw order.
pub open spec fn sprites_of(o: Object) -> Seq<Sprite> {
    match o.kind() {
        Kind::Balloon => balloon_sprites(o),
        Kind::Platform => platform_sprites(o),
        _ => seq![o.own_sprite()],
    }
}

/// What a registry shows: each object's sprites, in registry order.
pub open spec fn frame_of(objs: Seq<Object>) -> Seq<Sprite>
    decreases objs.len(),
{
    if objs.len() == 0 {
        seq![]
    } else {
        frame_of(objs.drop_last()) + sprites_of(objs.last())
    }
}

pub open spec fn is_kept(o: Object) -> bool {
    !o.removed
}

/// Kinds that may create objects when they update.
pub open spec fn spawner(k: Kind) -> bool {
    k == Kind::Balloon || k == Kind::Chest
}

/// Kinds that updates create.
pub open spec fn spawned(k: Kind) -> bool {
    k == Kind::Smoke || k == Kind::Fruit
}

/// Slot `i` of `pre` has taken the update its kind calls for, giving
/// `post`; players and fruits change nothing.
pub open spec fn slot_updated(pre: &Celeste, post: &Celeste, i: int) -> bool {
    &&& post.update_shape(pre, i)
    &&& match pre.objects@[i].kind() {
        Kind::Balloon => balloon_updated(pre, post, i),
        Kind::Platform => platform_updated(pre, post, i),
        Kind::Chest => chest_updated(pre, post, i),
        Kind::Smoke => smoke_updated(pre, post, i),
        _ => *post == *pre,
    }
}

/// Slot `k`'s turn in a tick: from `pre`, its update gives `mid`, and its
/// move by its speed then gives `post`.
pub open spec fn turn_taken(pre: Celeste, mid: Celeste, post: Celeste, k: int) -> bool {
    &&& 0 <= k < pre.objects@.len()
    &&& slot_updated(&pre, &mid, k)
    &&& post.same_setting(&mid)
    &&& post.objects@ == mid.objects@.update(k, advanced(mid.objects@[k], &mid.grid))
}

/// A tick's turns from `start`: `ends[k]` is the context before slot `k`'s
/// turn and `mids[k]` the one after its update. Every slot has had its turn
/// at the end, those appended during the tick included.
pub open spec fn tick_trace(start: Celeste, ends: Seq<Celeste>, mids: Seq<Celeste>) -> bool {
    &&& ends.len() == mids.len() + 1
    &&& ends[0] == start
    &&& ends.last().objects@.len() == mids.len()
    &&& forall|k: int| 0 <= k < mids.len() ==> turn_taken(ends[k], #[trigger] mids[k], ends[k + 1], k)
}

impl Celeste {
    /// What every update promises the registry: the setting is untouched,
    /// no object changes kind, and at most one object is appended, by a
    /// balloon or a chest, as smoke or a fruit.
    pub open spec fn update_shape(&self, old: &Celeste, i: int) -> bool {
        &&& self.wf()
        &&& self.same_setting(old)
        &&& forall|k: int|
            0 <= k < old.objects@.len() ==> #[trigger] self.objects@[k].kind()
                == old.objects@[k].kind()
        &&& (self.objects@.len() == old.objects@.len() || (self.objects@.len()
            == old.objects@.len() + 1 && spawner(old.objects@[i].kind()) && spawned(
            self.objects@.last().kind(),
        )))
    }

    /// Runs the update of the object in slot `i`, by its kind.
    pub fn update_object(&mut self, i: usize)
        requires
            old(self).wf(),
            i < old(self).objects@.len(),
        ensures
            final(self).update_shape(old(self), i as int),
            slot_updated(old(self), final(self), i as int),
    {
        let ghost c0 = *self;
        let k = self.objects[i].kind_tag();
        match k {
            Kind::Balloon => {
                Balloon::update(self, i);
            },
            Kind::Platform => {
                Platform::update(self, i);
                assert forall|l: int| 0 <= l < c0.objects@.len() implies #[trigger] self.objects@[l].kind() == c0.objects@[l].kind() by {
                    let d = self.objects@[i as int].pos.x - c0.objects@[i as int].obj_type->Platform_0.last;
                    let p = c0.objects@[l];
                    lemma_slide_keeps_type(p, &c0.grid, vstd::math::abs(d) as nat, crate::utils::sign_of(d));
                }
            },
            Kind::Chest => {
                Chest::update(self, i);
            },
            Kind::Smoke => {
                Smoke::update(self, i);
            },
            _ => {
                assert(*self == *old(self));
            },
        }
    }

    /// One tick: each object, in registry order, updates and then moves
    /// by its speed; objects appended during the tick take their turn in
    /// the same tick. Objects marked for removal are then dropped.
    pub fn next_tick(&mut self)
        requires
            old(self).wf(),
        ensures
            final(self).wf(),
            final(self).same_setting(old(self)),
            forall|k: int| 0 <= k < final(self).objects@.len() ==> !#[trigger] final(self).objects@[k].removed,
            exists|ends: Seq<Celeste>, mids: Seq<Celeste>|
                tick_trace(*old(self), ends, mids) && final(self).objects@ == ends.last().objects@.filter(
                    |o: Object| is_kept(o),
                ),
    {
        let ghost c0 = *self;
        let ghost mut ends: Seq<Celeste> = seq![*self];
        let ghost mut mids: Seq<Celeste> = seq![];
        let n0 = self.objects.len();
        let mut i: usize = 0;
        while i < self.objects.len()
            invariant
                self.wf(),
                self.same_setting(&c0),
                n0 <= self.objects@.len() <= n0 + i,
                self.objects@.len() <= 2 * n0,
                forall|k: int| n0 <= k < self.objects@.len() ==> spawned(#[trigger] self.objects@[k].kind()),
                i <= self.objects@.len(),
                ends.len() == i + 1,
                mids.len() == i,
                ends[0] == c0,
                ends.last() == *self,
                forall|k: int| 0 <= k < mids.len() ==> turn_taken(ends[k], #[trigger] mids[k], ends[k + 1], k),
            decreases 2 * n0 - i,
        {
            let ghost before = *self;
            self.update_object(i);
            proof {
                if self.objects@.len() > before.objects@.len() {
                    assert(i < n0);
                }
                assert forall|k: int| n0 <= k < self.objects@.len() implies spawned(#[trigger] self.objects@[k].kind()) by {
                    if k < before.objects@.len() {
                        assert(before.objects@[k].kind() == self.objects@[k].kind());
                    }
                }
            }
            let ghost mid = *self;
            self.advance(i);
            assert forall|k: int| n0 <= k < self.objects@.len() implies spawned(#[trigger] self.objects@[k].kind()) by {
                assert(mid.objects@[k].kind() == self.objects@[k].kind()) by {
                    if k == i {
                        let o = mid.objects@[i as int];
                        let m = o.moved(&mid.grid, o.spd.x as int, o.spd.y as int);
                        let ax = crate::utils::round_hundredths(o.rem.x + o.spd.x);
                        let s1 = Object {
                            rem: crate::structures::Vector { x: (o.rem.x + o.spd.x - 100 * ax) as i32, y: o.rem.y },
                            ..o
                        };
                        lemma_slide_keeps_type(s1, &mid.grid, vstd::math::abs(ax) as nat, crate::utils::sign_of(ax));
                        let s2 = s1.moved_x(&mid.grid, ax);
                        let ay = crate::utils::round_hundredths(s2.rem.y + o.spd.y);
                        let s3 = Object {
                            rem: crate::structures::Vector { x: s2.rem.x, y: (s2.rem.y + o.spd.y - 100 * ay) as i32 },
                            ..s2
                        };
                        lemma_slide_keeps_type(s3, &mid.grid, vstd::math::abs(ay) as nat, crate::utils::sign_of(ay));
                    }
                }
            }
            proof {
                let ends0 = ends;
                let mids0 = mids;
                ends = ends.push(*self);
                mids = mids.push(mid);
                assert forall|k: int| 0 <= k < mids.len() implies turn_taken(ends[k], #[trigger] mids[k], ends[k + 1], k) by {
                    if k < mids0.len() {
                        assert(mids[k] == mids0[k]);
                        assert(ends[k] == ends0[k]);
                        assert(ends[k + 1] == ends0[k + 1]);
                    } else {
                        assert(ends[k] == before);
                    }
                }
            }
            i = i + 1;
        }
        self.compact();
        assert(tick_trace(c0, ends, mids));
    }

    /// Drops the objects marked for removal, keeping the others' order.
    pub fn compact(&mut self)
        requires
            old(self).wf(),
        ensures
            final(self).wf(),
            final(self).same_setting(old(self)),
            final(self).objects@ == old(self).objects@.filter(|o: Object| is_kept(o)),
            forall|k: int| 0 <= k < final(self).objects@.len() ==> !#[trigger] final(self).objects@[k].removed,
    {
        let ghost all = self.objects@;
        let mut kept: Vec<Object> = Vec::new();
        let mut k: usize = 0;
        while k < self.objects.len()
            invariant
                k <= self.objects@.len(),
                self.objects@ == all,
                self.wf(),
                kept@ == all.take(k as int).filter(|o: Object| is_kept(o)),
                forall|m: int| 0 <= m < kept@.len() ==> (#[trigger] kept@[m]).wf() && !kept@[m].removed,
            decreases self.objects@.len() - k,
        {
            let o = self.objects[k];
            assert(all.take(k + 1).drop_last() =~= all.take(k as int));
            assert(all.take(k + 1).last() == o);
            reveal_with_fuel(Seq::filter, 1);
            assert(all.take(k + 1).filter(|o: Object| is_kept(o)) == if is_kept(o) {
                all.take(k as int).filter(|o: Object| is_kept(o)).push(o)
            } else {
                all.take(k as int).filter(|o: Object| is_kept(o))
            });
            if !o.removed {
                kept.push(o);
            }
            k = k + 1;
        }
        assert(all.take(all.len() as int) =~= all);
        self.objects = kept;
    }

    /// The frame's sprite blits, in draw order.
    pub fn draw(&self) -> (r: Vec<Sprite>)
        requires
            self.wf(),
        ensures
            r@ == frame_of(self.objects@),
    {
        let mut r: Vec<Sprite> = Vec::new();
        let mut k: usize = 0;
        while k < self.objects.len()
            invariant
                k <= self.objects@.len(),
                self.wf(),
                r@ == frame_of(self.objects@.take(k as int)),
            decreases self.objects@.len() - k,
        {
            let o = &self.objects[k];
            assert(o.wf());
            let part = match o.obj_type {
                ObjectType::Balloon(_) => Balloon::draw(o),
                ObjectType::Platform(_) => Platform::draw(o),
                _ => Chest::draw(o),
            };
            let mut part = part;
            assert(self.objects@.take(k + 1).drop_last() =~= self.objects@.take(k as int));
            r.append(&mut part);
            k = k + 1;
        }
        assert(self.objects@.take(self.objects@.len() as int) =~= self.objects@);
        r
    }
}

} // verus!
