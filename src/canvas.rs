use vstd::prelude::*;
use std::sync::Arc;
use crate::blendop::BlendOpManager;
use crate::brush::Stroke;
use crate::command::{CommandList, CommandView, ImageId, Target};
use crate::composite::{background_slot, blend_slot, spec_background_slot, spec_blend_slot, Slot};
use crate::layer::{strokes_cmds, Layer};

verus! {

/// A scratch image of the canvas and its size.
#[derive(Clone, Copy, PartialEq, Eq, Structural, Debug)]
pub struct ScratchImage {
    pub id: ImageId,
    pub width: u32,
    pub height: u32,
}

/// What a frame leaves of a layer: its queue drained and its transform
/// record written; nothing else changes.
pub open spec fn layer_drawn<P>(before: Layer<P>, after: Layer<P>, transforms: Seq<u8>) -> bool {
    &&& after.strokes() == Seq::<Stroke>::empty()
    &&& after.drawable().mesh == before.drawable().mesh
    &&& after.drawable().uniform_buffer.buffer() == before.drawable().uniform_buffer.buffer()
    &&& after.drawable().uniform_buffer.content() == transforms
    &&& after.tex_src() == before.tex_src()
    &&& after.tex_target() == before.tex_target()
    &&& after.pipeline() == before.pipeline()
    &&& after.spec_placement() == before.spec_placement()
    &&& after.spec_blendop() == before.spec_blendop()
}

/// An ordered list of layers and the three scratch images, sized to the
/// output, through which they are composited: `tmp0` takes each layer as
/// drawn, and `tmp1` and `tmp2` take turns holding the composite so far.
pub struct Canvas<P> {
    layers: Vec<Layer<P>>,
    blendops: Arc<BlendOpManager>,
    size: [u32; 2],
    tex_tmp0: ScratchImage,
    tex_tmp1: ScratchImage,
    tex_tmp2: ScratchImage,
}

impl<P> Canvas<P> {
    /// The layers, the first composited first.
    pub closed spec fn layers(&self) -> Seq<Layer<P>> {
        self.layers@
    }

    pub closed spec fn spec_size(&self) -> (u32, u32) {
        (self.size[0], self.size[1])
    }

    pub closed spec fn spec_blendops(&self) -> BlendOpManager {
        *self.blendops
    }

    /// The scratch images `tmp0`, `tmp1`, `tmp2`.
    pub closed spec fn scratch(&self) -> Seq<ScratchImage> {
        seq![self.tex_tmp0, self.tex_tmp1, self.tex_tmp2]
    }

    /// Whether `id` is one of the canvas's scratch images.
    pub open spec fn is_scratch(&self, id: ImageId) -> bool {
        id == self.scratch()[0].id || id == self.scratch()[1].id || id == self.scratch()[2].id
    }

    /// Whether `id` is an image of one of the layers.
    pub open spec fn layer_uses(&self, id: ImageId) -> bool {
        exists|i: int|
            #![trigger self.layers()[i]]
            0 <= i < self.layers().len() && (self.layers()[i].tex_src() == id
                || self.layers()[i].tex_target() == id)
    }

    /// Exactly three scratch images, all distinct and all of the canvas size,
    /// none of them an image of a layer.
    pub open spec fn wf(&self) -> bool {
        &&& forall|i: int|
            #![trigger self.layers()[i]]
            0 <= i < self.layers().len() ==> !self.is_scratch(self.layers()[i].tex_src())
                && !self.is_scratch(self.layers()[i].tex_target())
        &&& self.scratch().len() == 3
        &&& self.scratch()[0].id != self.scratch()[1].id
        &&& self.scratch()[0].id != self.scratch()[2].id
        &&& self.scratch()[1].id != self.scratch()[2].id
        &&& forall|k: int|
            0 <= k < 3 ==> #[trigger] self.scratch()[k].width == self.spec_size().0
                && self.scratch()[k].height == self.spec_size().1
    }

    /// The image a slot of the schedule names.
    pub open spec fn slot_target(&self, s: Slot) -> Target {
        match s {
            Slot::Tmp1 => Target::Image(self.scratch()[1].id),
            Slot::Tmp2 => Target::Image(self.scratch()[2].id),
            Slot::Present => Target::Present,
        }
    }

    /// The accumulator a layer reads as its background.
    pub open spec fn background_image(&self, i: int) -> ImageId {
        if spec_background_slot(i) == Slot::Tmp1 {
            self.scratch()[1].id
        } else {
            self.scratch()[2].id
        }
    }

    /// What a frame records for layer `i`: its strokes, painted over the
    /// composite so far; the layer drawn into `tmp0`; and `tmp0` blended over
    /// the composite into the next accumulator, or into the presentation
    /// target for the last layer.
    pub open spec fn layer_frame_cmds(&self, transforms: Seq<Seq<u8>>, i: int) -> Seq<CommandView> {
        let layer = self.layers()[i];
        let background = self.background_image(i);
        strokes_cmds(layer.strokes(), transforms[i], background, layer.tex_src(), layer.tex_target())
            + layer.draw_cmds(Target::Image(self.scratch()[0].id), transforms[i])
            + layer.spec_blendop().draw_cmds(
            self.slot_target(spec_blend_slot(i, self.layers().len() as int)),
            self.scratch()[0].id,
            background,
        )
    }

    /// What a frame records for its first `k` layers.
    pub open spec fn frame_cmds(&self, transforms: Seq<Seq<u8>>, k: int) -> Seq<CommandView>
        decreases k,
    {
        if k <= 0 {
            Seq::empty()
        } else {
            self.frame_cmds(transforms, k - 1) + self.layer_frame_cmds(transforms, k - 1)
        }
    }

    /// A canvas with no layer, of size `size`, with the scratch images
    /// `scratch[0]`, `scratch[1]`, `scratch[2]` as `tmp0`, `tmp1`, `tmp2`.
    pub fn new(blendops: Arc<BlendOpManager>, size: [u32; 2], scratch: [ImageId; 3]) -> (r: Canvas<P>)
        requires
            scratch[0] != scratch[1],
            scratch[0] != scratch[2],
            scratch[1] != scratch[2],
        ensures
            r.wf(),
            r.layers() == Seq::<Layer<P>>::empty(),
            r.spec_size() == (size[0], size[1]),
            r.spec_blendops() == *blendops,
            r.scratch()[0].id == scratch[0],
            r.scratch()[1].id == scratch[1],
            r.scratch()[2].id == scratch[2],
    {
        Canvas {
            layers: Vec::new(),
            blendops,
            size,
            tex_tmp0: ScratchImage { id: scratch[0], width: size[0], height: size[1] },
            tex_tmp1: ScratchImage { id: scratch[1], width: size[0], height: size[1] },
            tex_tmp2: ScratchImage { id: scratch[2], width: size[0], height: size[1] },
        }
    }

    /// Replaces the three scratch images by `scratch`, of size `size`; the
    /// layers are left as they are.
    pub fn resize(&mut self, size: [u32; 2], scratch: [ImageId; 3])
        requires
            scratch[0] != scratch[1],
            scratch[0] != scratch[2],
            scratch[1] != scratch[2],
            !old(self).layer_uses(scratch[0]),
            !old(self).layer_uses(scratch[1]),
            !old(self).layer_uses(scratch[2]),
        ensures
            final(self).wf(),
            final(self).spec_size() == (size[0], size[1]),
            final(self).scratch() == seq![
                ScratchImage { id: scratch[0], width: size[0], height: size[1] },
                ScratchImage { id: scratch[1], width: size[0], height: size[1] },
                ScratchImage { id: scratch[2], width: size[0], height: size[1] },
            ],
            final(self).layers() == old(self).layers(),
            final(self).spec_blendops() == old(self).spec_blendops(),
    {
        proof {
            assert forall|i: int|
                #![trigger old(self).layers()[i]]
                0 <= i < old(self).layers().len() implies {
                let l = old(self).layers()[i];
                l.tex_src() != scratch[0] && l.tex_src() != scratch[1] && l.tex_src() != scratch[2]
                    && l.tex_target() != scratch[0] && l.tex_target() != scratch[1]
                    && l.tex_target() != scratch[2]
            } by {
                let l = old(self).layers()[i];
                if l.tex_src() == scratch[0] || l.tex_target() == scratch[0] {
                    assert(old(self).layer_uses(scratch[0]));
                }
                if l.tex_src() == scratch[1] || l.tex_target() == scratch[1] {
                    assert(old(self).layer_uses(scratch[1]));
                }
                if l.tex_src() == scratch[2] || l.tex_target() == scratch[2] {
                    assert(old(self).layer_uses(scratch[2]));
                }
            }
        }
        self.size = size;
        self.tex_tmp0 = ScratchImage { id: scratch[0], width: size[0], height: size[1] };
        self.tex_tmp1 = ScratchImage { id: scratch[1], width: size[0], height: size[1] };
        self.tex_tmp2 = ScratchImage { id: scratch[2], width: size[0], height: size[1] };
    }

    pub fn size(&self) -> (r: [u32; 2])
        ensures
            (r[0], r[1]) == self.spec_size(),
    {
        self.size
    }

    /// The scratch images `tmp0`, `tmp1`, `tmp2`.
    pub fn scratch_images(&self) -> (r: [ScratchImage; 3])
        ensures
            r@ == self.scratch(),
    {
        let r = [self.tex_tmp0, self.tex_tmp1, self.tex_tmp2];
        assert(r@ =~= self.scratch());
        r
    }

    pub fn blendops(&self) -> (r: Arc<BlendOpManager>)
        ensures
            *r == self.spec_blendops(),
    {
        self.blendops.clone()
    }

    /// Whether `id` is an image of one of the layers.
    pub fn uses_image(&self, id: ImageId) -> (r: bool)
        ensures
            r == self.layer_uses(id),
    {
        let mut i: usize = 0;
        while i < self.layers.len()
            invariant
                0 <= i <= self.layers@.len(),
                forall|k: int|
                    #![trigger self.layers()[k]]
                    0 <= k < i ==> self.layers()[k].tex_src() != id && self.layers()[k].tex_target()
                        != id,
            decreases self.layers@.len() - i,
        {
            let layer = &self.layers[i];
            assert(*layer == self.layers()[i as int]);
            let a = layer.tex_src_id();
            let b = layer.tex_target_id();
            if a == id || b == id {
                return true;
            }
            assert(self.layers()[i as int].tex_src() != id);
            assert(self.layers()[i as int].tex_target() != id);
            i = i + 1;
        }
        false
    }

    /// Whether `id` is one of the scratch images.
    pub fn is_scratch_image(&self, id: ImageId) -> (r: bool)
        ensures
            r == self.is_scratch(id),
    {
        id == self.tex_tmp0.id || id == self.tex_tmp1.id || id == self.tex_tmp2.id
    }

    /// Whether the canvas is well formed; every canvas built and changed
    /// through this type's methods is.
    pub fn well_formed(&self) -> (r: bool)
        ensures
            r == self.wf(),
    {
        let t0 = self.tex_tmp0;
        let t1 = self.tex_tmp1;
        let t2 = self.tex_tmp2;
        if t0.id == t1.id || t0.id == t2.id || t1.id == t2.id {
            return false;
        }
        if t0.width != self.size[0] || t1.width != self.size[0] || t2.width != self.size[0]
            || t0.height != self.size[1] || t1.height != self.size[1] || t2.height != self.size[1] {
            proof {
                if t0.width != self.size[0] || t0.height != self.size[1] {
                    assert(self.scratch()[0] == t0);
                } else if t1.width != self.size[0] || t1.height != self.size[1] {
                    assert(self.scratch()[1] == t1);
                } else {
                    assert(self.scratch()[2] == t2);
                }
            }
            return false;
        }
        let mut i: usize = 0;
        while i < self.layers.len()
            invariant
                0 <= i <= self.layers@.len(),
                forall|k: int|
                    #![trigger self.layers()[k]]
                    0 <= k < i ==> !self.is_scratch(self.layers()[k].tex_src()) && !self.is_scratch(
                        self.layers()[k].tex_target(),
                    ),
            decreases self.layers@.len() - i,
        {
            let layer = &self.layers[i];
            assert(*layer == self.layers()[i as int]);
            if self.is_scratch_image(layer.tex_src_id()) || self.is_scratch_image(layer.tex_target_id()) {
                return false;
            }
            i = i + 1;
        }
        assert forall|k: int| 0 <= k < 3 implies #[trigger] self.scratch()[k].width == self.spec_size().0
            && self.scratch()[k].height == self.spec_size().1 by {
            if k == 0 {
                assert(self.scratch()[0] == t0);
            } else if k == 1 {
                assert(self.scratch()[1] == t1);
            } else {
                assert(self.scratch()[2] == t2);
            }
        }
        true
    }

    pub fn layer_count(&self) -> (r: usize)
        ensures
            r == self.layers().len(),
    {
        self.layers.len()
    }

    pub fn layer(&self, index: usize) -> (r: &Layer<P>)
        requires
            index < self.layers().len(),
        ensures
            *r == self.layers()[index as int],
    {
        &self.layers[index]
    }

    /// Adds a layer on top of the others.
    pub fn push_layer(&mut self, layer: Layer<P>)
        requires
            !old(self).is_scratch(layer.tex_src()),
            !old(self).is_scratch(layer.tex_target()),
        ensures
            old(self).wf() ==> final(self).wf(),
            final(self).layers() == old(self).layers().push(layer),
            final(self).scratch() == old(self).scratch(),
            final(self).spec_size() == old(self).spec_size(),
            final(self).spec_blendops() == old(self).spec_blendops(),
    {
        self.layers.push(layer);
        assert(self.layers()[old(self).layers().len() as int] == layer);
        assert forall|k: int| 0 <= k < old(self).layers().len() implies #[trigger] self.layers()[k]
            == old(self).layers()[k] by {}
    }

    /// Takes out the layer at `index`; the ones above it move down by one.
    pub fn remove_layer(&mut self, index: usize)
        requires
            index < old(self).layers().len(),
        ensures
            old(self).wf() ==> final(self).wf(),
            final(self).layers() == old(self).layers().remove(index as int),
            final(self).scratch() == old(self).scratch(),
            final(self).spec_size() == old(self).spec_size(),
            final(self).spec_blendops() == old(self).spec_blendops(),
    {
        self.layers.remove(index);
    }

    /// Queues `stroke` on the layer at `index`.
    pub fn queue_stroke(&mut self, index: usize, stroke: Stroke)
        requires
            index < old(self).layers().len(),
        ensures
            old(self).wf() ==> final(self).wf(),
            final(self).layers().len() == old(self).layers().len(),
            forall|j: int|
                0 <= j < old(self).layers().len() && j != index ==> #[trigger] final(self).layers()[j]
                    == old(self).layers()[j],
            final(self).layers()[index as int].strokes() == old(self).layers()[index as int].strokes().push(
                stroke,
            ),
            final(self).layers()[index as int].drawable() == old(self).layers()[index as int].drawable(),
            final(self).layers()[index as int].tex_src() == old(self).layers()[index as int].tex_src(),
            final(self).layers()[index as int].tex_target() == old(self).layers()[index as int].tex_target(),
            final(self).layers()[index as int].pipeline() == old(self).layers()[index as int].pipeline(),
            final(self).layers()[index as int].spec_placement() == old(
                self,
            ).layers()[index as int].spec_placement(),
            final(self).layers()[index as int].spec_blendop() == old(
                self,
            ).layers()[index as int].spec_blendop(),
            final(self).scratch() == old(self).scratch(),
            final(self).spec_size() == old(self).spec_size(),
            final(self).spec_blendops() == old(self).spec_blendops(),
    {
        let mut layer = self.layers.remove(index);
        layer.queue_stroke(stroke);
        self.layers.insert(index, layer);
    }

    /// Moves the layer at `index` on the canvas.
    pub fn set_placement(&mut self, index: usize, placement: P)
        requires
            index < old(self).layers().len(),
        ensures
            old(self).wf() ==> final(self).wf(),
            final(self).layers().len() == old(self).layers().len(),
            forall|j: int|
                0 <= j < old(self).layers().len() && j != index ==> #[trigger] final(self).layers()[j]
                    == old(self).layers()[j],
            final(self).layers()[index as int].spec_placement() == placement,
            final(self).layers()[index as int].strokes() == old(self).layers()[index as int].strokes(),
            final(self).layers()[index as int].drawable() == old(self).layers()[index as int].drawable(),
            final(self).layers()[index as int].tex_src() == old(self).layers()[index as int].tex_src(),
            final(self).layers()[index as int].tex_target() == old(self).layers()[index as int].tex_target(),
            final(self).layers()[index as int].pipeline() == old(self).layers()[index as int].pipeline(),
            final(self).layers()[index as int].spec_blendop() == old(
                self,
            ).layers()[index as int].spec_blendop(),
            final(self).scratch() == old(self).scratch(),
            final(self).spec_size() == old(self).spec_size(),
            final(self).spec_blendops() == old(self).spec_blendops(),
    {
        let mut layer = self.layers.remove(index);
        layer.set_placement(placement);
        self.layers.insert(index, layer);
    }

    fn slot_target_of(&self, s: Slot) -> (r: Target)
        ensures
            r == self.slot_target(s),
    {
        match s {
            Slot::Tmp1 => Target::Image(self.tex_tmp1.id),
            Slot::Tmp2 => Target::Image(self.tex_tmp2.id),
            Slot::Present => Target::Present,
        }
    }

    /// Records one frame: for each layer in order, its pending strokes are
    /// painted over the composite so far, the layer is drawn into `tmp0`
    /// placed by `transforms[i]`, and `tmp0` is blended by the layer's
    /// operator over the composite into the other accumulator, or into the
    /// presentation target for the last layer. With no layer nothing is
    /// recorded.
    pub fn draw(&mut self, encoder: CommandList, transforms: &Vec<Vec<u8>>) -> (r: CommandList)
        requires
            old(self).wf(),
            transforms@.len() == old(self).layers().len(),
        ensures
            final(self).wf(),
            r@ == encoder@ + old(self).frame_cmds(
                transforms@.map_values(|t: Vec<u8>| t@),
                old(self).layers().len() as int,
            ),
            old(self).layers().len() == 0 ==> r@ == encoder@,
            final(self).layers().len() == old(self).layers().len(),
            forall|i: int|
                0 <= i < old(self).layers().len() ==> layer_drawn(
                    old(self).layers()[i],
                    #[trigger] final(self).layers()[i],
                    transforms@[i]@,
                ),
            final(self).scratch() == old(self).scratch(),
            final(self).spec_size() == old(self).spec_size(),
            final(self).spec_blendops() == old(self).spec_blendops(),
    {
        let ghost ts = transforms@.map_values(|t: Vec<u8>| t@);
        let n = self.layers.len();
        let mut pending: Vec<Layer<P>> = Vec::new();
        std::mem::swap(&mut self.layers, &mut pending);
        let mut finished: Vec<Layer<P>> = Vec::new();
        let mut list = encoder;
        let mut i: usize = 0;
        while i < n
            invariant
                n == old(self).layers().len(),
                transforms@.len() == n,
                ts == transforms@.map_values(|t: Vec<u8>| t@),
                0 <= i <= n,
                pending@ == old(self).layers().subrange(i as int, n as int),
                finished@.len() == i,
                forall|k: int|
                    0 <= k < i ==> layer_drawn(
                        old(self).layers()[k],
                        #[trigger] finished@[k],
                        transforms@[k]@,
                    ),
                list@ == encoder@ + old(self).frame_cmds(ts, i as int),
                old(self).wf(),
                self.scratch() == old(self).scratch(),
                self.spec_size() == old(self).spec_size(),
                self.spec_blendops() == old(self).spec_blendops(),
            decreases n - i,
        {
            let ghost before = list@;
            let mut layer = pending.remove(0);
            let ghost original = layer;
            assert(original == old(self).layers()[i as int]);
            proof {
                lemma_frame_never_aliases(*old(self), i as int);
            }
            let background = match background_slot(i) {
                Slot::Tmp1 => self.tex_tmp1.id,
                _ => self.tex_tmp2.id,
            };
            list = layer.apply_strokes(list, background, &transforms[i]);
            list = layer.draw(list, Target::Image(self.tex_tmp0.id), &transforms[i]);
            let blendop = layer.blendop();
            let dst = self.slot_target_of(blend_slot(i, n));
            list = blendop.draw(list, dst, self.tex_tmp0.id, background);
            finished.push(layer);
            proof {
                assert(ts[i as int] == transforms@[i as int]@);
                assert(list@ =~= before + old(self).layer_frame_cmds(ts, i as int));
                assert(pending@ =~= old(self).layers().subrange(i + 1, n as int));
            }
            i = i + 1;
        }
        self.layers = finished;
        list
    }
}

/// In a frame of a well-formed canvas, the blend of each layer writes
/// neither the image it reads the layer from (`tmp0`) nor the composite it
/// reads (its background); what it writes is the background of the next
/// layer; and only the last layer's blend writes the presentation target.
pub proof fn lemma_frame_never_aliases<P>(canvas: Canvas<P>, i: int)
    requires
        canvas.wf(),
        0 <= i < canvas.layers().len(),
    ensures
        ({
            let n = canvas.layers().len() as int;
            let written = canvas.slot_target(spec_blend_slot(i, n));
            &&& written != Target::Image(canvas.scratch()[0].id)
            &&& written != Target::Image(canvas.background_image(i))
            &&& canvas.background_image(i) != canvas.scratch()[0].id
            &&& i + 1 < n ==> written == Target::Image(canvas.background_image(i + 1))
            &&& (written == Target::Present <==> i == n - 1)
        }),
{
    crate::composite::lemma_schedule(canvas.layers().len() as int, i);
    if i + 1 < canvas.layers().len() {
        crate::composite::lemma_schedule(canvas.layers().len() as int, i + 1);
    }
}

} // verus!
