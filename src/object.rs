//! The object record, its kind tag, and the movement and overlap services that
//! every behaviour builds on.

use vstd::prelude::*;

use crate::celeste::Celeste;
use crate::objects::balloon::Balloon;
use crate::objects::chest::Chest;
use crate::objects::platform::Platform;
use crate::objects::player::Player;
use crate::objects::smoke::Smoke;
use crate::structures::{FlipState, Rectangle, Sprite, TileGrid, TileKind, Vector, QUERY_LIMIT};
use crate::utils::{max_of, min_of, round_hundredths, sign, sign_of, split_hundredths};

verus! {

/// Objects live within this many pixels of the origin.
pub const POS_LIMIT: i32 = 1_048_576;

/// Largest speed, in hundredths of a pixel per tick.
pub const SPD_LIMIT: i32 = 65_536;

/// Largest hitbox offset or size, in pixels.
pub const BOX_LIMIT: i32 = 64;

/// The kinds of object, without their state.
#[derive(Clone, Copy, Debug, PartialEq, Eq, Structural)]
pub enum Kind {
    Player,
    Balloon,
    Platform,
    Chest,
    Fruit,
    Smoke,
}

/// A kind together with the state that only its behaviour reads.
#[derive(Clone, Copy, Debug)]
pub enum ObjectType {
    Player(Player),
    Balloon(Balloon),
    Platform(Platform),
    Chest(Chest),
    Fruit,
    Smoke(Smoke),
}

/// A live game object.
#[derive(Clone, Copy, Debug)]
pub struct Object {
    /// Position, in whole pixels.
    pub pos: Vector,
    /// Velocity, in hundredths of a pixel per tick.
    pub spd: Vector,
    /// Sub-pixel remainder carried between ticks, in hundredths of a pixel.
    pub rem: Vector,
    pub spr: u8,
    pub hitbox: Rectangle,
    pub flip: FlipState,
    /// Takes part in object-versus-object checks.
    pub collidable: bool,
    /// Stops against solid tiles when it moves.
    pub solids: bool,
    pub obj_type: ObjectType,
    /// Marked for the compacting pass at the end of the tick.
    pub removed: bool,
}

/// `v` held within the world's bounds.
pub open spec fn world_clamp(v: int) -> int {
    if v < -POS_LIMIT {
        -POS_LIMIT as int
    } else if v > POS_LIMIT {
        POS_LIMIT as int
    } else {
        v
    }
}

pub fn clamp_to_world(v: i64) -> (r: i32)
    ensures
        r == world_clamp(v as int),
{
    if v < -POS_LIMIT as i64 {
        -POS_LIMIT
    } else if v > POS_LIMIT as i64 {
        POS_LIMIT
    } else {
        v as i32
    }
}

impl Object {
    pub open spec fn kind(&self) -> Kind {
        match self.obj_type {
            ObjectType::Player(_) => Kind::Player,
            ObjectType::Balloon(_) => Kind::Balloon,
            ObjectType::Platform(_) => Kind::Platform,
            ObjectType::Chest(_) => Kind::Chest,
            ObjectType::Fruit => Kind::Fruit,
            ObjectType::Smoke(_) => Kind::Smoke,
        }
    }

    pub open spec fn hitbox_wf(&self) -> bool {
        &&& -BOX_LIMIT <= self.hitbox.x <= BOX_LIMIT
        &&& -BOX_LIMIT <= self.hitbox.y <= BOX_LIMIT
        &&& 1 <= self.hitbox.w <= BOX_LIMIT
        &&& 1 <= self.hitbox.h <= BOX_LIMIT
    }

    /// Position, speed and remainder within the ranges the engine handles.
    pub open spec fn motion_wf(&self) -> bool {
        &&& -POS_LIMIT <= self.pos.x <= POS_LIMIT
        &&& -POS_LIMIT <= self.pos.y <= POS_LIMIT
        &&& -SPD_LIMIT <= self.spd.x <= SPD_LIMIT
        &&& -SPD_LIMIT <= self.spd.y <= SPD_LIMIT
        &&& -50 <= self.rem.x <= 50
        &&& -50 <= self.rem.y <= 50
    }

    pub open spec fn payload_wf(&self) -> bool {
        match self.obj_type {
            ObjectType::Balloon(b) => b.wf(),
            ObjectType::Platform(p) => p.wf(),
            ObjectType::Chest(c) => c.wf(),
            ObjectType::Smoke(s) => s.wf(),
            _ => true,
        }
    }

    pub open spec fn wf(&self) -> bool {
        &&& self.hitbox_wf()
        &&& self.motion_wf()
        &&& self.payload_wf()
    }

    pub fn kind_tag(&self) -> (k: Kind)
        ensures
            k == self.kind(),
    {
        match self.obj_type {
            ObjectType::Player(_) => Kind::Player,
            ObjectType::Balloon(_) => Kind::Balloon,
            ObjectType::Platform(_) => Kind::Platform,
            ObjectType::Chest(_) => Kind::Chest,
            ObjectType::Fruit => Kind::Fruit,
            ObjectType::Smoke(_) => Kind::Smoke,
        }
    }

    /// This object's hitbox, moved by `(dx, dy)`, and `other`'s hitbox share
    /// an area.
    pub open spec fn overlaps(&self, other: Object, dx: int, dy: int) -> bool {
        &&& other.pos.x + other.hitbox.x + other.hitbox.w > self.pos.x + self.hitbox.x + dx
        &&& other.pos.y + other.hitbox.y + other.hitbox.h > self.pos.y + self.hitbox.y + dy
        &&& other.pos.x + other.hitbox.x < self.pos.x + self.hitbox.x + self.hitbox.w + dx
        &&& other.pos.y + other.hitbox.y < self.pos.y + self.hitbox.y + self.hitbox.h + dy
    }

    /// Slot `j` holds a collidable object of kind `k`, other than slot `me`,
    /// that this object's hitbox moved by `(dx, dy)` overlaps.
    pub open spec fn hits(
        &self,
        objs: Seq<Object>,
        me: int,
        k: Kind,
        dx: int,
        dy: int,
        j: int,
    ) -> bool {
        &&& 0 <= j < objs.len()
        &&& j != me
        &&& objs[j].collidable
        &&& objs[j].kind() == k
        &&& self.overlaps(objs[j], dx, dy)
    }

    /// Slot `j` is the first, in registry order, that `hits` holds of.
    pub open spec fn first_hit(
        &self,
        objs: Seq<Object>,
        me: int,
        k: Kind,
        dx: int,
        dy: int,
        j: int,
    ) -> bool {
        &&& self.hits(objs, me, k, dx, dy, j)
        &&& forall|l: int| 0 <= l < j ==> !#[trigger] self.hits(objs, me, k, dx, dy, l)
    }

    pub fn overlapping(&self, other: &Object, dx: i32, dy: i32) -> (r: bool)
        requires
            self.wf(),
            other.wf(),
            -POS_LIMIT <= dx <= POS_LIMIT,
            -POS_LIMIT <= dy <= POS_LIMIT,
        ensures
            r == self.overlaps(*other, dx as int, dy as int),
    {
        let ax = self.pos.x as i64 + self.hitbox.x as i64 + dx as i64;
        let ay = self.pos.y as i64 + self.hitbox.y as i64 + dy as i64;
        let bx = other.pos.x as i64 + other.hitbox.x as i64;
        let by = other.pos.y as i64 + other.hitbox.y as i64;
        bx + other.hitbox.w as i64 > ax && by + other.hitbox.h as i64 > ay && bx < ax
            + self.hitbox.w as i64 && by < ay + self.hitbox.h as i64
    }

    /// The first slot, in registry order, that this object (standing in slot
    /// `me`) overlaps with its hitbox moved by `(dx, dy)`, among the
    /// collidable objects of kind `kind`.
    pub fn check(&self, celeste: &Celeste, me: usize, kind: Kind, dx: i32, dy: i32) -> (r: Option<
        usize,
    >)
        requires
            self.wf(),
            celeste.objects_wf(),
            -POS_LIMIT <= dx <= POS_LIMIT,
            -POS_LIMIT <= dy <= POS_LIMIT,
        ensures
            match r {
                Some(j) => self.first_hit(celeste.objects@, me as int, kind, dx as int, dy as int, j as int),
                None => forall|l: int|
                    !#[trigger] self.hits(celeste.objects@, me as int, kind, dx as int, dy as int, l),
            },
    {
        let objs = &celeste.objects;
        let mut j: usize = 0;
        while j < objs.len()
            invariant
                j <= objs.len(),
                self.wf(),
                -POS_LIMIT <= dx <= POS_LIMIT,
                -POS_LIMIT <= dy <= POS_LIMIT,
                objs == &celeste.objects,
                celeste.objects_wf(),
                forall|l: int|
                    0 <= l < j ==> !#[trigger] self.hits(
                        objs@,
                        me as int,
                        kind,
                        dx as int,
                        dy as int,
                        l,
                    ),
            decreases objs.len() - j,
        {
            let other = &objs[j];
            if j != me && other.collidable && other.kind_tag() == kind && self.overlapping(
                other,
                dx,
                dy,
            ) {
                return Some(j);
            }
            j = j + 1;
        }
        None
    }

    /// A cell of kind `k` lies under this object's hitbox moved by `(dx, dy)`.
    pub open spec fn box_has(&self, g: &TileGrid, dx: int, dy: int, k: TileKind) -> bool {
        g.region_has(
            self.pos.x + self.hitbox.x + dx,
            self.pos.y + self.hitbox.y + dy,
            self.hitbox.w as int,
            self.hitbox.h as int,
            k,
        )
    }

    /// Moving by `(dx, dy)` would put the hitbox in a solid cell, or, moving
    /// down, onto a one-way platform that it is not already inside.
    pub open spec fn blocked(&self, g: &TileGrid, dx: int, dy: int) -> bool {
        ||| self.box_has(g, dx, dy, TileKind::Solid)
        ||| (dy > 0 && !self.box_has(g, dx, 0, TileKind::OneWayUp) && self.box_has(
            g,
            dx,
            dy,
            TileKind::OneWayUp,
        ))
    }

    /// Position within the range that one movement may start from.
    pub open spec fn in_move_range(&self) -> bool {
        &&& -4 * POS_LIMIT <= self.pos.x <= 4 * POS_LIMIT
        &&& -4 * POS_LIMIT <= self.pos.y <= 4 * POS_LIMIT
    }

    pub fn is_solid(&self, g: &TileGrid, dx: i32, dy: i32) -> (r: bool)
        requires
            self.hitbox_wf(),
            -8 * POS_LIMIT <= self.pos.x <= 8 * POS_LIMIT,
            -8 * POS_LIMIT <= self.pos.y <= 8 * POS_LIMIT,
            -1 <= dx <= 1,
            -1 <= dy <= 1,
        ensures
            r == self.blocked(g, dx as int, dy as int),
    {
        let x = self.pos.x as i64 + self.hitbox.x as i64;
        let y = self.pos.y as i64 + self.hitbox.y as i64;
        let w = self.hitbox.w as i64;
        let h = self.hitbox.h as i64;
        if g.region_contains(x + dx as i64, y + dy as i64, w, h, TileKind::Solid) {
            return true;
        }
        dy > 0 && !g.region_contains(x + dx as i64, y, w, h, TileKind::OneWayUp)
            && g.region_contains(x + dx as i64, y + dy as i64, w, h, TileKind::OneWayUp)
    }

    pub open spec fn with_pos(&self, x: int, y: int) -> Object {
        Object { pos: Vector { x: x as i32, y: y as i32 }, ..*self }
    }

    /// `n` unit steps of `step` pixels along x, halting (and zeroing the
    /// x speed and remainder) at the first step that is blocked.
    pub open spec fn slide_x(&self, g: &TileGrid, n: nat, step: int) -> Object
        decreases n,
    {
        if n == 0 {
            *self
        } else if self.blocked(g, step, 0) {
            Object {
                spd: Vector { x: 0, y: self.spd.y },
                rem: Vector { x: 0, y: self.rem.y },
                ..*self
            }
        } else {
            self.with_pos(self.pos.x + step, self.pos.y as int).slide_x(g, (n - 1) as nat, step)
        }
    }

    /// `n` unit steps of `step` pixels along y; see `slide_x`.
    pub open spec fn slide_y(&self, g: &TileGrid, n: nat, step: int) -> Object
        decreases n,
    {
        if n == 0 {
            *self
        } else if self.blocked(g, 0, step) {
            Object {
                spd: Vector { x: self.spd.x, y: 0 },
                rem: Vector { x: self.rem.x, y: 0 },
                ..*self
            }
        } else {
            self.with_pos(self.pos.x as int, self.pos.y + step).slide_y(g, (n - 1) as nat, step)
        }
    }

    /// A whole-pixel move along x: stepped against the tiles for an object
    /// with `solids`, taken in full otherwise.
    pub open spec fn moved_x(&self, g: &TileGrid, amount: int) -> Object {
        if self.solids {
            self.slide_x(g, vstd::math::abs(amount) as nat, sign_of(amount))
        } else {
            self.with_pos(self.pos.x + amount, self.pos.y as int)
        }
    }

    pub open spec fn moved_y(&self, g: &TileGrid, amount: int) -> Object {
        if self.solids {
            self.slide_y(g, vstd::math::abs(amount) as nat, sign_of(amount))
        } else {
            self.with_pos(self.pos.x as int, self.pos.y + amount)
        }
    }

    /// One sub-pixel move by `(ox, oy)` hundredths: each axis adds the
    /// speed to its remainder, moves by the nearest whole pixel of it, and
    /// keeps the rest; x first, then y.
    pub open spec fn moved(&self, g: &TileGrid, ox: int, oy: int) -> Object {
        let ax = round_hundredths(self.rem.x + ox);
        let s1 = Object {
            rem: Vector { x: (self.rem.x + ox - 100 * ax) as i32, y: self.rem.y },
            ..*self
        };
        let s2 = s1.moved_x(g, ax);
        let ay = round_hundredths(s2.rem.y + oy);
        let s3 = Object {
            rem: Vector { x: s2.rem.x, y: (s2.rem.y + oy - 100 * ay) as i32 },
            ..s2
        };
        s3.moved_y(g, ay)
    }

    /// Moves `amount` whole pixels along x.
    pub fn move_x(&mut self, g: &TileGrid, amount: i32)
        requires
            old(self).hitbox_wf(),
            old(self).in_move_range(),
            -4 * POS_LIMIT <= amount <= 4 * POS_LIMIT,
        ensures
            *final(self) == old(self).moved_x(g, amount as int),
            final(self).pos.y == old(self).pos.y,
            final(self).rem.y == old(self).rem.y,
            final(self).spd.y == old(self).spd.y,
            final(self).rem.x == old(self).rem.x || final(self).rem.x == 0,
            final(self).spd.x == old(self).spd.x || final(self).spd.x == 0,
            final(self).spr == old(self).spr,
            final(self).removed == old(self).removed,
            final(self).hitbox == old(self).hitbox,
            final(self).obj_type == old(self).obj_type,
            old(self).pos.x <= amount + old(self).pos.x ==> old(self).pos.x <= final(self).pos.x
                <= old(self).pos.x + amount,
            old(self).pos.x + amount <= old(self).pos.x ==> old(self).pos.x + amount
                <= final(self).pos.x <= old(self).pos.x,
    {
        if self.solids {
            let step = sign(amount);
            let n: i32 = if amount < 0 {
                -amount
            } else {
                amount
            };
            let ghost start = *self;
            let ghost target = start.slide_x(g, n as nat, step as int);
            let mut k: i32 = 0;
            while k < n
                invariant
                    0 <= k <= n,
                    start == *old(self),
                    start.solids,
                    n == vstd::math::abs(amount as int),
                    step == sign_of(amount as int),
                    step == 1 ==> self.pos.x == start.pos.x + k,
                    step == -1 ==> self.pos.x == start.pos.x - k,
                    step == 0 ==> n == 0,
                    self.pos.y == start.pos.y,
                    self.rem == start.rem,
                    self.spd == start.spd,
                    self.spr == start.spr,
                    self.removed == start.removed,
                    self.hitbox == start.hitbox,
                    self.obj_type == start.obj_type,
                    self.hitbox_wf(),
                    start.in_move_range(),
                    -4 * POS_LIMIT <= amount <= 4 * POS_LIMIT,
                    self.slide_x(g, (n - k) as nat, step as int) == target,
                    target == start.slide_x(g, n as nat, step as int),
                decreases n - k,
            {
                if self.is_solid(g, step, 0) {
                    let ghost before = *self;
                    self.spd.x = 0;
                    self.rem.x = 0;
                    assert(*self == before.slide_x(g, (n - k) as nat, step as int));
                    return;
                }
                self.pos.x = self.pos.x + step;
                k = k + 1;
            }
        } else {
            self.pos.x = self.pos.x + amount;
        }
    }

    /// Moves `amount` whole pixels along y.
    pub fn move_y(&mut self, g: &TileGrid, amount: i32)
        requires
            old(self).hitbox_wf(),
            old(self).in_move_range(),
            -4 * POS_LIMIT <= amount <= 4 * POS_LIMIT,
        ensures
            *final(self) == old(self).moved_y(g, amount as int),
            final(self).pos.x == old(self).pos.x,
            final(self).rem.x == old(self).rem.x,
            final(self).spd.x == old(self).spd.x,
            final(self).rem.y == old(self).rem.y || final(self).rem.y == 0,
            final(self).spd.y == old(self).spd.y || final(self).spd.y == 0,
            final(self).spr == old(self).spr,
            final(self).removed == old(self).removed,
            final(self).hitbox == old(self).hitbox,
            final(self).obj_type == old(self).obj_type,
            old(self).pos.y <= amount + old(self).pos.y ==> old(self).pos.y <= final(self).pos.y
                <= old(self).pos.y + amount,
            old(self).pos.y + amount <= old(self).pos.y ==> old(self).pos.y + amount
                <= final(self).pos.y <= old(self).pos.y,
    {
        if self.solids {
            let step = sign(amount);
            let n: i32 = if amount < 0 {
                -amount
            } else {
                amount
            };
            let ghost start = *self;
            let ghost target = start.slide_y(g, n as nat, step as int);
            let mut k: i32 = 0;
            while k < n
                invariant
                    0 <= k <= n,
                    start == *old(self),
                    start.solids,
                    n == vstd::math::abs(amount as int),
                    step == sign_of(amount as int),
                    step == 1 ==> self.pos.y == start.pos.y + k,
                    step == -1 ==> self.pos.y == start.pos.y - k,
                    step == 0 ==> n == 0,
                    self.pos.x == start.pos.x,
                    self.rem == start.rem,
                    self.spd == start.spd,
                    self.spr == start.spr,
                    self.removed == start.removed,
                    self.hitbox == start.hitbox,
                    self.obj_type == start.obj_type,
                    self.hitbox_wf(),
                    start.in_move_range(),
                    -4 * POS_LIMIT <= amount <= 4 * POS_LIMIT,
                    self.slide_y(g, (n - k) as nat, step as int) == target,
                    target == start.slide_y(g, n as nat, step as int),
                decreases n - k,
            {
                if self.is_solid(g, 0, step) {
                    let ghost before = *self;
                    self.spd.y = 0;
                    self.rem.y = 0;
                    assert(*self == before.slide_y(g, (n - k) as nat, step as int));
                    return;
                }
                self.pos.y = self.pos.y + step;
                k = k + 1;
            }
        } else {
            self.pos.y = self.pos.y + amount;
        }
    }

    /// Adds `(ox, oy)` hundredths to the remainder and moves by the whole
    /// pixels of it, x first.
    pub fn do_move(&mut self, g: &TileGrid, ox: i32, oy: i32)
        requires
            old(self).wf(),
            -SPD_LIMIT <= ox <= SPD_LIMIT,
            -SPD_LIMIT <= oy <= SPD_LIMIT,
        ensures
            *final(self) == old(self).moved(g, ox as int, oy as int),
            final(self).hitbox == old(self).hitbox,
            final(self).obj_type == old(self).obj_type,
            final(self).spr == old(self).spr,
            final(self).removed == old(self).removed,
            final(self).spd.x == old(self).spd.x || final(self).spd.x == 0,
            final(self).spd.y == old(self).spd.y || final(self).spd.y == 0,
            -50 <= final(self).rem.x <= 50,
            -50 <= final(self).rem.y <= 50,
            old(self).pos.x - 700 <= final(self).pos.x <= old(self).pos.x + 700,
            old(self).pos.y - 700 <= final(self).pos.y <= old(self).pos.y + 700,
    {
        let (ax, rx) = split_hundredths(self.rem.x + ox);
        self.rem.x = rx;
        self.move_x(g, ax);
        let (ay, ry) = split_hundredths(self.rem.y + oy);
        self.rem.y = ry;
        self.move_y(g, ay);
    }

    /// The object's own sprite at its position.
    pub fn draw_sprite(&self) -> (s: Sprite)
        ensures
            s == self.own_sprite(),
    {
        Sprite { id: self.spr, x: self.pos.x, y: self.pos.y, flip: self.flip }
    }

    pub open spec fn own_sprite(&self) -> Sprite {
        Sprite { id: self.spr, x: self.pos.x, y: self.pos.y, flip: self.flip }
    }
}

/// A step along x or y changes where an object is and how it moves, never
/// what it is.
pub proof fn lemma_slide_keeps_type(o: Object, g: &TileGrid, n: nat, step: int)
    ensures
        o.slide_x(g, n, step).obj_type == o.obj_type,
        o.slide_y(g, n, step).obj_type == o.obj_type,
    decreases n,
{
    if n > 0 {
        lemma_slide_keeps_type(o.with_pos(o.pos.x + step, o.pos.y as int), g, (n - 1) as nat, step);
        lemma_slide_keeps_type(o.with_pos(o.pos.x as int, o.pos.y + step), g, (n - 1) as nat, step);
    }
}

/// The usual rectangle test: the two hitboxes' intersection has a positive
/// width and a positive height.
pub open spec fn boxes_intersect(a: Object, b: Object) -> bool {
    let (al, ar) = (a.pos.x + a.hitbox.x, a.pos.x + a.hitbox.x + a.hitbox.w);
    let (at, ab) = (a.pos.y + a.hitbox.y, a.pos.y + a.hitbox.y + a.hitbox.h);
    let (bl, br) = (b.pos.x + b.hitbox.x, b.pos.x + b.hitbox.x + b.hitbox.w);
    let (bt, bb) = (b.pos.y + b.hitbox.y, b.pos.y + b.hitbox.y + b.hitbox.h);
    min_of(ar, br) - max_of(al, bl) > 0 && min_of(ab, bb) - max_of(at, bt) > 0
}

/// The overlap that `check` tests is the rectangle intersection test, and
/// so does not depend on which of the two objects asks.
pub proof fn lemma_overlap_symmetric(a: Object, b: Object)
    requires
        a.hitbox_wf(),
        b.hitbox_wf(),
    ensures
        a.overlaps(b, 0, 0) == boxes_intersect(a, b),
        a.overlaps(b, 0, 0) == b.overlaps(a, 0, 0),
{
}

/// Without blocking cells, `n` unit steps along an axis go the full way.
pub proof fn lemma_slide_free(o: Object, g: &TileGrid, n: nat, step: int)
    requires
        g.is_empty_grid(),
        -1 <= step <= 1,
        -4 * POS_LIMIT <= o.pos.x - n <= o.pos.x + n <= 4 * POS_LIMIT,
        -4 * POS_LIMIT <= o.pos.y - n <= o.pos.y + n <= 4 * POS_LIMIT,
    ensures
        o.slide_x(g, n, step) == o.with_pos(o.pos.x + n * step, o.pos.y as int),
        o.slide_y(g, n, step) == o.with_pos(o.pos.x as int, o.pos.y + n * step),
    decreases n,
{
    lemma_empty_grid_free(o, g, step, 0);
    lemma_empty_grid_free(o, g, 0, step);
    if n > 0 {
        let ox = o.with_pos(o.pos.x + step, o.pos.y as int);
        let oy = o.with_pos(o.pos.x as int, o.pos.y + step);
        lemma_slide_free(ox, g, (n - 1) as nat, step);
        lemma_slide_free(oy, g, (n - 1) as nat, step);
        assert((n - 1) * step + step == n * step) by (nonlinear_arith);
        assert(o.slide_x(g, n, step) == ox.slide_x(g, (n - 1) as nat, step));
        assert(ox.pos.x == o.pos.x + step);
        assert(ox.with_pos(ox.pos.x + (n - 1) * step, ox.pos.y as int) == o.with_pos(
            o.pos.x + n * step,
            o.pos.y as int,
        ));
        assert(o.slide_y(g, n, step) == oy.slide_y(g, (n - 1) as nat, step));
        assert(oy.with_pos(oy.pos.x as int, oy.pos.y + (n - 1) * step) == o.with_pos(
            o.pos.x as int,
            o.pos.y + n * step,
        ));
    } else {
        assert(n * step == 0) by (nonlinear_arith)
            requires
                n == 0,
        ;
        assert(o.with_pos(o.pos.x as int, o.pos.y as int) == o);
    }
}

proof fn lemma_empty_grid_free(o: Object, g: &TileGrid, dx: int, dy: int)
    requires
        g.is_empty_grid(),
    ensures
        !o.blocked(g, dx, dy),
{
    if o.box_has(g, dx, dy, TileKind::Solid) {
        let (tx, ty) = choose|tx: int, ty: int|
            #![trigger g.tile(tx, ty)]
            (o.pos.x + o.hitbox.x + dx) / 8 <= tx <= (o.pos.x + o.hitbox.x + dx + o.hitbox.w - 1)
                / 8 && (o.pos.y + o.hitbox.y + dy) / 8 <= ty <= (o.pos.y + o.hitbox.y + dy
                + o.hitbox.h - 1) / 8 && g.tile(tx, ty) == TileKind::Solid;
        assert(g.tile(tx, ty) == TileKind::Empty);
    }
    if o.box_has(g, dx, dy, TileKind::OneWayUp) {
        let (tx, ty) = choose|tx: int, ty: int|
            #![trigger g.tile(tx, ty)]
            (o.pos.x + o.hitbox.x + dx) / 8 <= tx <= (o.pos.x + o.hitbox.x + dx + o.hitbox.w - 1)
                / 8 && (o.pos.y + o.hitbox.y + dy) / 8 <= ty <= (o.pos.y + o.hitbox.y + dy
                + o.hitbox.h - 1) / 8 && g.tile(tx, ty) == TileKind::OneWayUp;
        assert(g.tile(tx, ty) == TileKind::Empty);
    }
}

/// On a grid with no blocking cells a move is never stopped: each axis
/// moves by exactly the nearest whole pixel of remainder plus speed, and
/// keeps the rest as its new remainder.
pub proof fn lemma_move_on_empty_grid(o: Object, g: &TileGrid, ox: int, oy: int)
    requires
        g.is_empty_grid(),
        o.wf(),
        -SPD_LIMIT <= ox <= SPD_LIMIT,
        -SPD_LIMIT <= oy <= SPD_LIMIT,
    ensures
        o.moved(g, ox, oy).pos.x == o.pos.x + round_hundredths(o.rem.x + ox),
        o.moved(g, ox, oy).pos.y == o.pos.y + round_hundredths(o.rem.y + oy),
        o.moved(g, ox, oy).rem.x == o.rem.x + ox - 100 * round_hundredths(o.rem.x + ox),
        o.moved(g, ox, oy).rem.y == o.rem.y + oy - 100 * round_hundredths(o.rem.y + oy),
        o.moved(g, ox, oy).spd == o.spd,
        o.moved(g, ox, oy).hitbox == o.hitbox,
        o.moved(g, ox, oy).obj_type == o.obj_type,
{
    let ax = round_hundredths(o.rem.x + ox);
    lemma_round_bounds(o.rem.x + ox);
    let s1 = Object {
        rem: Vector { x: (o.rem.x + ox - 100 * ax) as i32, y: o.rem.y },
        ..o
    };
    let n = vstd::math::abs(ax) as nat;
    let step = sign_of(ax);
    lemma_slide_free(s1, g, n, step);
    assert(n * step == ax) by (nonlinear_arith)
        requires
            n == vstd::math::abs(ax),
            step == sign_of(ax),
    ;
    let s2 = s1.moved_x(g, ax);
    let ay = round_hundredths(s2.rem.y + oy);
    lemma_round_bounds(s2.rem.y + oy);
    let s3 = Object {
        rem: Vector { x: s2.rem.x, y: (s2.rem.y + oy - 100 * ay) as i32 },
        ..s2
    };
    let m = vstd::math::abs(ay) as nat;
    let stepy = sign_of(ay);
    lemma_slide_free(s3, g, m, stepy);
    assert(m * stepy == ay) by (nonlinear_arith)
        requires
            m == vstd::math::abs(ay),
            stepy == sign_of(ay),
    ;
}

/// Rounding to the nearest pixel leaves between -50 and 49 hundredths.
pub proof fn lemma_round_bounds(r: int)
    ensures
        -50 <= r - 100 * round_hundredths(r) < 50,
        r - 50 <= 100 * round_hundredths(r) <= r + 50,
{
    vstd::arithmetic::div_mod::lemma_fundamental_div_mod(r + 50, 100);
    vstd::arithmetic::div_mod::lemma_mod_bound(r + 50, 100);
}

/// Position and remainder on one axis after `n` moves at constant speed
/// `v` hundredths per tick with nothing in the way, from position `p` and
/// remainder `r`.
pub open spec fn glide(p: int, r: int, v: int, n: nat) -> (int, int)
    decreases n,
{
    if n == 0 {
        (p, r)
    } else {
        let prev = glide(p, r, v, (n - 1) as nat);
        let a = round_hundredths(prev.1 + v);
        (prev.0 + a, prev.1 + v - 100 * a)
    }
}

/// `n` moves of `o` by its own speed, as the tick driver makes them.
pub open spec fn repeated_moves(o: Object, g: &TileGrid, n: nat) -> Object
    decreases n,
{
    if n == 0 {
        o
    } else {
        let p = repeated_moves(o, g, (n - 1) as nat);
        p.moved(g, p.spd.x as int, p.spd.y as int)
    }
}

/// On an empty grid, `n` moves at the object's own speed follow `glide` on
/// each axis: nothing stops them, the speed stays, and the remainder
/// carries from one move to the next.
pub proof fn lemma_moves_follow_glide(o: Object, g: &TileGrid, n: nat)
    requires
        g.is_empty_grid(),
        o.wf(),
        -POS_LIMIT + 700 * n <= o.pos.x <= POS_LIMIT - 700 * n,
        -POS_LIMIT + 700 * n <= o.pos.y <= POS_LIMIT - 700 * n,
    ensures
        ({
            let p = repeated_moves(o, g, n);
            &&& (p.pos.x as int, p.rem.x as int) == glide(o.pos.x as int, o.rem.x as int, o.spd.x as int, n)
            &&& (p.pos.y as int, p.rem.y as int) == glide(o.pos.y as int, o.rem.y as int, o.spd.y as int, n)
            &&& p.spd == o.spd
            &&& p.wf()
            &&& o.pos.x - 700 * n <= p.pos.x <= o.pos.x + 700 * n
            &&& o.pos.y - 700 * n <= p.pos.y <= o.pos.y + 700 * n
        }),
    decreases n,
{
    if n > 0 {
        lemma_moves_follow_glide(o, g, (n - 1) as nat);
        let p = repeated_moves(o, g, (n - 1) as nat);
        lemma_move_on_empty_grid(p, g, p.spd.x as int, p.spd.y as int);
        lemma_round_bounds(p.rem.x + p.spd.x);
        lemma_round_bounds(p.rem.y + p.spd.y);
    }
}

/// Nothing is lost to rounding: after `n` unobstructed moves at speed `v`,
/// whole pixels plus remainder equal the start plus `n * v` exactly, the
/// remainder stays within half a pixel, and from a zero remainder the
/// pixels moved are exactly `n * v` hundredths rounded to the nearest pixel.
pub proof fn lemma_remainder_carries(p: int, r: int, v: int, n: nat)
    ensures
        100 * glide(p, r, v, n).0 + glide(p, r, v, n).1 == 100 * p + r + n * v,
        n > 0 ==> -50 <= glide(p, r, v, n).1 < 50,
        r == 0 ==> glide(p, r, v, n).0 == p + round_hundredths(n * v),
    decreases n,
{
    if n > 0 {
        lemma_remainder_carries(p, r, v, (n - 1) as nat);
        let prev = glide(p, r, v, (n - 1) as nat);
        lemma_round_bounds(prev.1 + v);
        assert((n - 1) * v + v == n * v) by (nonlinear_arith);
        let a = round_hundredths(prev.1 + v);
        assert(glide(p, r, v, n) == (prev.0 + a, prev.1 + v - 100 * a));
        assert(100 * prev.0 + prev.1 == 100 * p + r + (n - 1) * v);
    } else {
        assert(n * v == 0) by (nonlinear_arith)
            requires
                n == 0,
        ;
    }
    if r == 0 {
        let e = glide(p, r, v, n);
        lemma_round_bounds(n * v);
        if n > 0 {
            let q = round_hundredths(n * v);
            assert(100 * (e.0 - p) == n * v - e.1);
            assert(-100 < 100 * (e.0 - p - q) < 100);
        }
    }
}

} // verus!
