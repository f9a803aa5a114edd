//! The simulation context: the object registry, the level's tiles, the
//! shared game flags and the random source.

use vstd::prelude::*;

use rand::rngs::SmallRng;
use rand::Rng;

use crate::object::{clamp_to_world, world_clamp, Kind, Object, POS_LIMIT};
use crate::objects::fruit::Fruit;
use crate::objects::smoke::Smoke;
use crate::structures::TileGrid;

verus! {

/// rand's `SmallRng`, carried as the random source; nothing inside it is
/// read here.
#[verifier::external_type_specification]
#[verifier::external_body]
pub struct ExSmallRng(SmallRng);

/// Relies on rand's `Rng::gen_range` over `0..n`: a value in `[0, n)`; it
/// panics only on an empty range.
#[verifier::external_body]
fn gen_below(rng: &mut SmallRng, n: u32) -> (r: u32)
    requires
        0 < n,
    ensures
        r < n,
{
    rng.gen_range(0..n)
}

/// Everything one tick reads and writes.
pub struct Celeste {
    /// Live objects, in insertion order, which is update order.
    pub objects: Vec<Object>,
    pub grid: TileGrid,
    /// Dash charges the player gets back from a balloon.
    pub max_djump: u32,
    /// The level's key has been collected.
    pub has_key: bool,
    pub rng: SmallRng,
    /// Bob height of a balloon, in pixels, for each hundredth of a turn.
    pub wave: Vec<i32>,
}

/// A bob table: one height in `[-2, 2]` for each hundredth of a turn.
pub open spec fn wave_wf(wave: Seq<i32>) -> bool {
    &&& wave.len() == 100
    &&& forall|k: int| 0 <= k < 100 ==> -2 <= #[trigger] wave[k] <= 2
}

/// A coordinate at which an object may be created.
pub open spec fn spawnable(v: int) -> bool {
    -POS_LIMIT + 64 <= v <= POS_LIMIT - 64
}

impl Celeste {
    pub open spec fn objects_wf(&self) -> bool {
        forall|i: int| 0 <= i < self.objects@.len() ==> #[trigger] self.objects@[i].wf()
    }

    pub open spec fn wf(&self) -> bool {
        &&& self.objects_wf()
        &&& wave_wf(self.wave@)
    }

    /// Level, flags and bob table are those of `other`.
    pub open spec fn same_setting(&self, other: &Celeste) -> bool {
        &&& self.grid == other.grid
        &&& self.wave == other.wave
        &&& self.max_djump == other.max_djump
        &&& self.has_key == other.has_key
    }

    /// An empty registry over the given level.
    pub fn new(grid: TileGrid, max_djump: u32, has_key: bool, rng: SmallRng, wave: Vec<i32>) -> (c:
        Celeste)
        requires
            wave_wf(wave@),
        ensures
            c.wf(),
            c.objects@.len() == 0,
            c.grid == grid,
            c.wave == wave,
            c.max_djump == max_djump,
            c.has_key == has_key,
    {
        Celeste { objects: Vec::new(), grid, max_djump, has_key, rng, wave }
    }

    /// A random value in `[0, n)`.
    pub fn random_below(&mut self, n: u32) -> (r: u32)
        requires
            0 < n,
        ensures
            r < n,
            final(self).objects == old(self).objects,
            final(self).same_setting(old(self)),
    {
        gen_below(&mut self.rng, n)
    }

    /// Bob height for a phase in hundredths of a turn.
    pub fn bob(&self, phase: u32) -> (h: i32)
        requires
            wave_wf(self.wave@),
        ensures
            h == self.wave@[(phase % 100) as int],
            -2 <= h <= 2,
    {
        self.wave[(phase % 100) as usize]
    }

    /// Appends `o` to the registry.
    pub fn add_object(&mut self, o: Object)
        requires
            old(self).wf(),
            o.wf(),
        ensures
            final(self).wf(),
            final(self).objects@ == old(self).objects@.push(o),
            final(self).same_setting(old(self)),
    {
        self.objects.push(o);
    }

    /// Appends a puff of smoke at `(x, y)`.
    pub fn init_smoke(&mut self, x: i32, y: i32)
        requires
            old(self).wf(),
            -POS_LIMIT <= x <= POS_LIMIT,
            -POS_LIMIT <= y <= POS_LIMIT,
        ensures
            final(self).wf(),
            final(self).objects@.len() == old(self).objects@.len() + 1,
            final(self).objects@.drop_last() == old(self).objects@,
            final(self).objects@.last().is_puff_at(x as int, y as int),
            final(self).same_setting(old(self)),
    {
        let o = Smoke::init(self, x, y);
        self.add_object(o);
        assert(self.objects@.drop_last() =~= old(self).objects@);
    }

    /// Appends a fruit at `(x, y)`.
    pub fn init_fruit(&mut self, x: i32, y: i32)
        requires
            old(self).wf(),
            -POS_LIMIT <= x <= POS_LIMIT,
            -POS_LIMIT <= y <= POS_LIMIT,
        ensures
            final(self).wf(),
            final(self).objects@ == old(self).objects@.push(Fruit::fruit_at(x as int, y as int)),
            final(self).same_setting(old(self)),
    {
        let o = Fruit::init(self, x, y);
        self.add_object(o);
    }

    /// Moves the object in slot `i` by its speed, then holds it within the
    /// world's bounds.
    pub fn advance(&mut self, i: usize)
        requires
            old(self).wf(),
            i < old(self).objects@.len(),
        ensures
            final(self).wf(),
            final(self).same_setting(old(self)),
            final(self).objects@ == old(self).objects@.update(
                i as int,
                advanced(old(self).objects@[i as int], &old(self).grid),
            ),
    {
        let mut o = self.objects[i];
        assert(o.wf());
        o.do_move(&self.grid, o.spd.x, o.spd.y);
        o.pos.x = clamp_to_world(o.pos.x as i64);
        o.pos.y = clamp_to_world(o.pos.y as i64);
        self.objects.set(i, o);
        assert forall|l: int| 0 <= l < self.objects@.len() implies #[trigger] self.objects@[l].wf() by {
            assert(old(self).objects@[l].wf());
        }
    }
}

/// `o` held within the world's bounds.
pub open spec fn clamped(o: Object) -> Object {
    o.with_pos(world_clamp(o.pos.x as int), world_clamp(o.pos.y as int))
}

/// `o` after the move by its own speed that ends each object's tick.
pub open spec fn advanced(o: Object, g: &TileGrid) -> Object {
    clamped(o.moved(g, o.spd.x as int, o.spd.y as int))
}

} // verus!
