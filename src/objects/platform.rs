//! A platform that drifts sideways forever and carries the player on it.

use vstd::prelude::*;

use crate::celeste::{advanced, clamped, spawnable, Celeste};
use crate::object::{
    clamp_to_world, lemma_round_bounds, lemma_slide_free, world_clamp, Kind, Object, ObjectType,
    POS_LIMIT,
};
use crate::structures::{FlipState, Rectangle, Sprite, TileGrid, Vector};
use crate::utils::round_hundredths;

verus! {

/// Platform state.
#[derive(Clone, Copy, Debug, PartialEq, Eq, Structural)]
pub struct Platform {
    /// x position at the end of the previous update.
    pub last: i32,
    /// -1 to drift left, 1 to drift right.
    pub dir: i32,
}

/// Drift speed, in hundredths of a pixel per tick.
pub const PLATFORM_SPEED: i32 = 65;

/// Sprite of a platform that drifts left.
pub const LEFT_SPR: u8 = 11;

/// The object's platform state (meaningful for a platform only).
pub open spec fn platform_of(o: Object) -> Platform {
    o.obj_type->Platform_0
}

/// x after wrapping around the screen's edges.
pub open spec fn wrap_x(x: int) -> int {
    if x < -16 {
        128
    } else if x > 128 {
        -16
    } else {
        x
    }
}

/// The platform `o` after its own update: speed set from its direction,
/// wrapped around the screen, and its x remembered.
pub open spec fn platform_after(o: Object) -> Object {
    let p = platform_of(o);
    let x = wrap_x(o.pos.x as int);
    Object {
        pos: Vector { x: x as i32, y: o.pos.y },
        spd: Vector { x: (p.dir * PLATFORM_SPEED) as i32, y: o.spd.y },
        obj_type: ObjectType::Platform(Platform { last: x as i32, ..p }),
        ..o
    }
}

/// The platform in slot `i` has the player standing on top of it, not
/// inside it.
pub open spec fn carries(c: &Celeste, i: int) -> bool {
    let w = platform_after(c.objects@[i]);
    &&& forall|j: int| !#[trigger] w.hits(c.objects@, i, Kind::Player, 0, 0, j)
    &&& exists|j: int| #[trigger] w.hits(c.objects@, i, Kind::Player, 0, -1, j)
}

/// The player `p` pushed `d` pixels sideways against the tiles.
pub open spec fn pushed(p: Object, g: &TileGrid, d: int) -> Object {
    clamped(p.moved_x(g, d))
}

/// What a platform shows: its left and right halves, one pixel above its
/// position.
pub open spec fn platform_sprites(o: Object) -> Seq<Sprite> {
    seq![
        Sprite { id: 11, x: o.pos.x, y: (o.pos.y - 1) as i32, flip: FlipState { x: false, y: false } },
        Sprite {
            id: 12,
            x: (o.pos.x + 8) as i32,
            y: (o.pos.y - 1) as i32,
            flip: FlipState { x: false, y: false },
        },
    ]
}

/// `n` ticks of a platform with nothing on it: its update, then its move.
pub open spec fn platform_ticks(o: Object, g: &TileGrid, n: nat) -> Object
    decreases n,
{
    if n == 0 {
        o
    } else {
        platform_ticks(advanced(platform_after(o), g), g, (n - 1) as nat)
    }
}

/// The platform in slot `i` of `pre` has taken its update, giving `post`.
pub open spec fn platform_updated(pre: &Celeste, post: &Celeste, i: int) -> bool {
    let o = pre.objects@[i];
    let w = platform_after(o);
    let d = w.pos.x - platform_of(o).last;
    let n = pre.objects@.len();
    &&& post.objects@.len() == n
    &&& post.objects@[i] == w
    &&& forall|j: int|
        0 <= j < n && j != i ==> #[trigger] post.objects@[j] == if carries(
            pre,
            i,
        ) && w.first_hit(pre.objects@, i, Kind::Player, 0, -1, j) {
            pushed(pre.objects@[j], &pre.grid, d)
        } else {
            pre.objects@[j]
        }
}

impl Platform {
    pub open spec fn wf(&self) -> bool {
        &&& self.dir == 1 || self.dir == -1
        &&& -POS_LIMIT <= self.last <= POS_LIMIT
    }

    /// A platform whose left edge is 4 pixels left of `x`; sprite
    /// `LEFT_SPR` drifts left, any other right.
    pub fn init(_celeste: &mut Celeste, x: i32, y: i32, spr: u8) -> (o: Object)
        requires
            spawnable(x as int),
            spawnable(y as int),
        ensures
            o.wf(),
            o.kind() == Kind::Platform,
            o.pos == (Vector { x: (x - 4) as i32, y }),
            o.spr == spr,
            o.hitbox == (Rectangle { x: 0, y: 0, w: 16, h: 8 }),
            o.collidable,
            !o.solids,
            !o.removed,
            o.spd == (Vector { x: 0, y: 0 }),
            o.rem == (Vector { x: 0, y: 0 }),
            platform_of(o).last == -4,
            platform_of(o).dir == if spr == LEFT_SPR {
                -1i32
            } else {
                1i32
            },
            *final(_celeste) == *old(_celeste),
    {
        Object {
            pos: Vector { x: x - 4, y },
            spd: Vector { x: 0, y: 0 },
            rem: Vector { x: 0, y: 0 },
            spr,
            hitbox: Rectangle { x: 0, y: 0, w: 16, h: 8 },
            flip: FlipState { x: false, y: false },
            collidable: true,
            solids: false,
            obj_type: ObjectType::Platform(
                Platform {
                    last: -4,
                    dir: if spr == LEFT_SPR {
                        -1
                    } else {
                        1
                    },
                },
            ),
            removed: false,
        }
    }

    /// One tick of the platform in slot `i`: set its drift speed, wrap it
    /// around the screen, and move a player standing on it (but not inside
    /// it) by as far as the platform went since its last update.
    pub fn update(celeste: &mut Celeste, i: usize)
        requires
            old(celeste).wf(),
            i < old(celeste).objects@.len(),
            old(celeste).objects@[i as int].kind() == Kind::Platform,
        ensures
            final(celeste).wf(),
            final(celeste).same_setting(old(celeste)),
            platform_updated(old(celeste), final(celeste), i as int),
    {
        let ghost c0 = *celeste;
        let mut obj = celeste.objects[i];
        assert(obj.wf());
        let mut this = match obj.obj_type {
            ObjectType::Platform(p) => p,
            _ => {
                return ;
            },
        };
        obj.spd.x = this.dir * PLATFORM_SPEED;
        if obj.pos.x < -16 {
            obj.pos.x = 128;
        } else if obj.pos.x > 128 {
            obj.pos.x = -16;
        }
        let d = obj.pos.x - this.last;
        let last = this.last;
        this.last = obj.pos.x;
        obj.obj_type = ObjectType::Platform(this);
        assert(obj == platform_after(c0.objects@[i as int]));
        if obj.check(celeste, i, Kind::Player, 0, 0).is_none() {
            if let Some(j) = obj.check(celeste, i, Kind::Player, 0, -1) {
                let mut p = celeste.objects[j];
                assert(p.wf());
                p.move_x(&celeste.grid, d);
                p.pos.x = clamp_to_world(p.pos.x as i64);
                celeste.objects.set(j, p);
                assert(carries(&c0, i as int));
                assert forall|l: int|
                    0 <= l < c0.objects@.len() && l != j implies !#[trigger] obj.first_hit(
                    c0.objects@,
                    i as int,
                    Kind::Player,
                    0,
                    -1,
                    l,
                ) by {}
            } else {
                assert(!carries(&c0, i as int));
            }
        } else {
            assert(!carries(&c0, i as int));
        }
        celeste.objects.set(i, obj);
        assert forall|l: int| 0 <= l < celeste.objects@.len() implies #[trigger] celeste.objects@[l].wf() by {
            assert(c0.objects@[l].wf());
        }
    }

    /// The platform's two halves, one pixel above its position.
    pub fn draw(obj: &Object) -> (r: Vec<Sprite>)
        requires
            obj.wf(),
        ensures
            r@ == platform_sprites(*obj),
    {
        let mut r: Vec<Sprite> = Vec::new();
        let mut k: u8 = 0;
        while k < 2
            invariant
                k <= 2,
                obj.wf(),
                r@.len() == k,
                forall|m: int|
                    0 <= m < k ==> #[trigger] r@[m] == (Sprite {
                        id: (11 + m) as u8,
                        x: (obj.pos.x + 8 * m) as i32,
                        y: (obj.pos.y - 1) as i32,
                        flip: FlipState { x: false, y: false },
                    }),
            decreases 2 - k,
        {
            r.push(
                Sprite {
                    id: 11 + k,
                    x: obj.pos.x + 8 * k as i32,
                    y: obj.pos.y - 1,
                    flip: FlipState { x: false, y: false },
                },
            );
            k = k + 1;
        }
        assert(r@ =~= platform_sprites(*obj));
        r
    }
}

/// Exact x of an object: whole pixels and remainder, in hundredths.
pub open spec fn exact_x(o: Object) -> int {
    100 * o.pos.x + o.rem.x
}

/// The wrap rule: a platform past the right edge goes to -16, one past the
/// left edge to 128. And with nothing on it, a platform that drifts right
/// and moves through the tiles (as every platform made by `init` does)
/// moves exactly 0.65 pixels per tick while it stays on screen: its
/// exact x after `n` ticks is the start plus `65 * n` hundredths, and its
/// whole-pixel x stays within half a pixel of that.
pub proof fn lemma_platform_drift(o: Object, g: &TileGrid, n: nat)
    requires
        o.wf(),
        o.kind() == Kind::Platform,
        platform_of(o).dir == 1,
        !o.solids,
        o.spd.y == 0,
        o.rem.y == 0,
        -16 <= o.pos.x,
        exact_x(o) + PLATFORM_SPEED * n <= 100 * 128 - 50,
    ensures
        o.pos.x > 128 ==> platform_after(o).pos.x == -16,
        o.pos.x < -16 ==> platform_after(o).pos.x == 128,
        exact_x(platform_ticks(o, g, n)) == exact_x(o) + PLATFORM_SPEED * n,
        platform_ticks(o, g, n).pos.y == o.pos.y,
        -50 <= platform_ticks(o, g, n).rem.x <= 50,
    decreases n,
{
    if n > 0 {
        let w = platform_after(o);
        let m = w.moved(g, w.spd.x as int, w.spd.y as int);
        lemma_round_bounds(o.rem.x + 65);
        assert(round_hundredths(0) == 0);
        let ax = round_hundredths(o.rem.x + 65);
        assert(w.pos.x == o.pos.x);
        assert(w.spd.x == 65);
        assert(m.pos.x == o.pos.x + ax);
        assert(m.rem.x == o.rem.x + 65 - 100 * ax);
        assert(m.pos.y == o.pos.y);
        let q = advanced(w, g);
        assert(q == m);
        assert(exact_x(q) == exact_x(o) + 65);
        assert(PLATFORM_SPEED * n == PLATFORM_SPEED * (n - 1) + 65) by (nonlinear_arith)
            requires
                n > 0,
        ;
        lemma_platform_drift(q, g, (n - 1) as nat);
    } else {
        assert(PLATFORM_SPEED * n == 0) by (nonlinear_arith)
            requires
                n == 0,
        ;
    }
}

/// On an empty grid a carried player goes the platform's whole distance:
/// its x moves by exactly `d` pixels (held within the world's bounds), and
/// its speed, remainder and height are left as they were.
pub proof fn lemma_carry_on_empty_grid(p: Object, g: &TileGrid, d: int)
    requires
        g.is_empty_grid(),
        p.wf(),
        -2 * POS_LIMIT <= d <= 2 * POS_LIMIT,
    ensures
        pushed(p, g, d).pos.x == world_clamp(p.pos.x + d),
        pushed(p, g, d).pos.y == p.pos.y,
        pushed(p, g, d).rem == p.rem,
        pushed(p, g, d).spd == p.spd,
{
    let n = vstd::math::abs(d) as nat;
    let step = crate::utils::sign_of(d);
    lemma_slide_free(p, g, n, step);
    assert(n * step == d) by (nonlinear_arith)
        requires
            n == vstd::math::abs(d),
            step == crate::utils::sign_of(d),
    ;
}

} // verus!
