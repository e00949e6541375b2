use vstd::prelude::*;

verus! {

/// One of the images the compositing schedule blends into or reads from.
#[derive(Clone, Copy, PartialEq, Eq, Structural, Debug)]
pub enum Slot {
    Tmp1,
    Tmp2,
    /// The presentation target.
    Present,
}

/// The accumulator layer `i` reads as its background: the one that the
/// previous layer's blend wrote.
pub open spec fn spec_background_slot(i: int) -> Slot {
    if i % 2 == 0 {
        Slot::Tmp2
    } else {
        Slot::Tmp1
    }
}

/// Where the blend of layer `i` of `n` writes: the presentation target for
/// the last layer, else the accumulator the layer does not read.
pub open spec fn spec_blend_slot(i: int, n: int) -> Slot {
    if i == n - 1 {
        Slot::Present
    } else if i % 2 == 0 {
        Slot::Tmp1
    } else {
        Slot::Tmp2
    }
}

pub fn background_slot(i: usize) -> (r: Slot)
    ensures
        r == spec_background_slot(i as int),
{
    if i % 2 == 0 {
        Slot::Tmp2
    } else {
        Slot::Tmp1
    }
}

pub fn blend_slot(i: usize, n: usize) -> (r: Slot)
    requires
        i < n,
    ensures
        r == spec_blend_slot(i as int, n as int),
{
    if i == n - 1 {
        Slot::Present
    } else if i % 2 == 0 {
        Slot::Tmp1
    } else {
        Slot::Tmp2
    }
}

/// Within a frame of `n` layers, no blend writes the accumulator it reads;
/// each blend but the last writes the accumulator the next layer reads; and
/// only the last writes the presentation target. So two accumulators and one
/// image for the layer being drawn serve any number of layers.
pub proof fn lemma_schedule(n: int, i: int)
    requires
        0 <= i < n,
    ensures
        spec_blend_slot(i, n) != spec_background_slot(i),
        spec_background_slot(i) != Slot::Present,
        i + 1 < n ==> spec_blend_slot(i, n) == spec_background_slot(i + 1),
        (spec_blend_slot(i, n) == Slot::Present) <==> i == n - 1,
{
}

/// An 8-bit-per-channel color, as the canvas formats store it.
#[derive(Clone, Copy, PartialEq, Eq, Structural, Debug)]
pub struct Rgba8 {
    pub r: u8,
    pub g: u8,
    pub b: u8,
    pub a: u8,
}

pub open spec fn add_channel(x: u8, y: u8) -> u8 {
    if x + y > 255 {
        255u8
    } else {
        (x + y) as u8
    }
}

/// The `Add` operator on one pixel: the channel-wise sum of the layer
/// (`src`) and the composite below it (`dst`), clamped to the largest value
/// the format stores.
pub open spec fn spec_blend_add(src: Rgba8, dst: Rgba8) -> Rgba8 {
    Rgba8 {
        r: add_channel(src.r, dst.r),
        g: add_channel(src.g, dst.g),
        b: add_channel(src.b, dst.b),
        a: add_channel(src.a, dst.a),
    }
}

fn add_u8(x: u8, y: u8) -> (r: u8)
    ensures
        r == add_channel(x, y),
{
    if x as u16 + y as u16 > 255 {
        255
    } else {
        x + y
    }
}

#[verifier::when_used_as_spec(spec_blend_add)]
pub fn blend_add(src: Rgba8, dst: Rgba8) -> (r: Rgba8)
    ensures
        r == spec_blend_add(src, dst),
{
    Rgba8 {
        r: add_u8(src.r, dst.r),
        g: add_u8(src.g, dst.g),
        b: add_u8(src.b, dst.b),
        a: add_u8(src.a, dst.a),
    }
}

/// Layers added one over another, the first over `base`.
pub open spec fn fold_add(colors: Seq<Rgba8>, base: Rgba8) -> Rgba8
    decreases colors.len(),
{
    if colors.len() == 0 {
        base
    } else {
        spec_blend_add(colors.last(), fold_add(colors.drop_last(), base))
    }
}

/// The three images the schedule writes, as solid colors.
#[derive(Clone, Copy, PartialEq, Eq, Structural, Debug)]
pub struct SolidTargets {
    pub tmp1: Rgba8,
    pub tmp2: Rgba8,
    pub present: Rgba8,
}

impl SolidTargets {
    pub open spec fn spec_get(&self, s: Slot) -> Rgba8 {
        match s {
            Slot::Tmp1 => self.tmp1,
            Slot::Tmp2 => self.tmp2,
            Slot::Present => self.present,
        }
    }

    #[verifier::when_used_as_spec(spec_get)]
    pub fn get(&self, s: Slot) -> (r: Rgba8)
        ensures
            r == self.spec_get(s),
    {
        match s {
            Slot::Tmp1 => self.tmp1,
            Slot::Tmp2 => self.tmp2,
            Slot::Present => self.present,
        }
    }

    pub fn set(&mut self, s: Slot, c: Rgba8)
        ensures
            final(self).spec_get(s) == c,
            forall|o: Slot| o != s ==> final(self).spec_get(o) == old(self).spec_get(o),
    {
        match s {
            Slot::Tmp1 => self.tmp1 = c,
            Slot::Tmp2 => self.tmp2 = c,
            Slot::Present => self.present = c,
        }
    }
}

/// Runs the compositing schedule on layers that each cover the canvas with
/// one color and blend with `Add`, starting from `targets`, and returns the
/// images afterwards. The presentation target then holds every layer added
/// in order over the starting `tmp2`, whatever `tmp1` held; with no layer it
/// is left as it was.
pub fn composite_solid(colors: &Vec<Rgba8>, targets: SolidTargets) -> (r: SolidTargets)
    ensures
        colors@.len() == 0 ==> r == targets,
        colors@.len() > 0 ==> r.present == fold_add(colors@, targets.tmp2),
{
    let n = colors.len();
    let mut t = targets;
    let mut i: usize = 0;
    while i < n
        invariant
            n == colors@.len(),
            0 <= i <= n,
            i == 0 ==> t == targets,
            0 < i < n ==> t.spec_get(spec_background_slot(i as int)) == fold_add(
                colors@.subrange(0, i as int),
                targets.tmp2,
            ),
            0 < i && i == n ==> t.present == fold_add(colors@, targets.tmp2),
        decreases n - i,
    {
        let background = background_slot(i);
        let target = blend_slot(i, n);
        let layer = colors[i];
        let below = t.get(background);
        t.set(target, blend_add(layer, below));
        proof {
            let done = colors@.subrange(0, i + 1);
            assert(done.drop_last() =~= colors@.subrange(0, i as int));
            assert(done.last() == layer);
            if i == 0 {
                assert(colors@.subrange(0, 0) =~= Seq::<Rgba8>::empty());
            }
            assert(below == fold_add(colors@.subrange(0, i as int), targets.tmp2));
            assert(fold_add(done, targets.tmp2) == spec_blend_add(layer, below));
            if i + 1 == n {
                assert(done =~= colors@);
            } else {
                lemma_schedule(n as int, i as int);
            }
        }
        i = i + 1;
    }
    t
}

} // verus!
