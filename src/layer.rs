use vstd::prelude::*;
use std::sync::Arc;
use crate::blendop::{quad_pass_cmds, BlendOp};
use crate::brush::{Stroke, StrokeBindGroups};
use crate::command::{
    ColorAttachment, Command, CommandList, CommandView, ImageId, PipelineId, Resource, Target,
};
use crate::mesh::Model;
use crate::pipeline::{
    PipelineError, PipelineLayout, PipelineLayoutBuilder, RenderPassBuilder, RenderPipeline, VertexState,
};
use crate::program;

verus! {

/// A pipeline whose binding sets are exactly `transforms`, `src` and whose
/// vertex streams are exactly `model`, in slot order, as a layer's draw
/// binds them.
pub struct LayerPipeline {
    pipeline: RenderPipeline,
}

impl LayerPipeline {
    #[verifier::type_invariant]
    pub open spec fn inv(&self) -> bool {
        &&& self.get().bind_group_names@ == seq!["transforms"@, "src"@]
        &&& self.get().vertex_buffer_names@ == seq!["model"@]
    }

    pub closed spec fn get(&self) -> RenderPipeline {
        self.pipeline
    }

    proof fn lemma_names(&self)
        requires
            self.inv(),
        ensures
            self.get().has_binding("transforms"@),
            self.get().has_binding("src"@),
            self.get().has_stream("model"@),
    {
        assert(self.get().bind_group_names@[0] == "transforms"@);
        assert(self.get().bind_group_names@[1] == "src"@);
        assert(self.get().vertex_buffer_names@[0] == "model"@);
    }
}

/// A layer's two images: its content, and the image strokes are drawn into
/// before they are copied back. They are never the same image.
pub struct LayerImages {
    src: ImageId,
    target: ImageId,
}

impl LayerImages {
    #[verifier::type_invariant]
    pub open spec fn inv(&self) -> bool {
        self.src() != self.target()
    }

    pub closed spec fn src(&self) -> ImageId {
        self.src
    }

    pub closed spec fn target(&self) -> ImageId {
        self.target
    }
}

/// The commands that apply one stroke: write its transform, draw it into
/// `tex_target` reading `background` and `tex_src`, then copy the result
/// back onto `tex_src`.
pub open spec fn stroke_cmds(
    stroke: Stroke,
    transforms: Seq<u8>,
    background: ImageId,
    tex_src: ImageId,
    tex_target: ImageId,
) -> Seq<CommandView> {
    stroke.transforms_uniform.write_cmds(transforms) + seq![
        CommandView::BeginPass {
            attachments: seq![ColorAttachment { target: Target::Image(tex_target), clear: true }],
        },
    ] + stroke.brushop().data_cmds(
        stroke.bind_groups(StrokeBindGroups { background, tex_self: tex_src }),
    ) + seq![CommandView::EndPass, CommandView::CopyImage { src: tex_target, dst: tex_src }]
}

/// The commands that apply `strokes`, one after another, in order.
pub open spec fn strokes_cmds(
    strokes: Seq<Stroke>,
    transforms: Seq<u8>,
    background: ImageId,
    tex_src: ImageId,
    tex_target: ImageId,
) -> Seq<CommandView>
    decreases strokes.len(),
{
    if strokes.len() == 0 {
        Seq::empty()
    } else {
        strokes_cmds(strokes.drop_last(), transforms, background, tex_src, tex_target) + stroke_cmds(
            strokes.last(),
            transforms,
            background,
            tex_src,
            tex_target,
        )
    }
}

/// Applying one queue and then another records what applying the two as
/// one queue, in that order, records.
pub proof fn lemma_strokes_concat(
    first: Seq<Stroke>,
    second: Seq<Stroke>,
    transforms: Seq<u8>,
    background: ImageId,
    tex_src: ImageId,
    tex_target: ImageId,
)
    ensures
        strokes_cmds(first, transforms, background, tex_src, tex_target) + strokes_cmds(
            second,
            transforms,
            background,
            tex_src,
            tex_target,
        ) == strokes_cmds(first + second, transforms, background, tex_src, tex_target),
    decreases second.len(),
{
    if second.len() == 0 {
        assert(first + second =~= first);
        assert(strokes_cmds(second, transforms, background, tex_src, tex_target) =~= Seq::<
            CommandView,
        >::empty());
        assert(strokes_cmds(first, transforms, background, tex_src, tex_target) + Seq::<
            CommandView,
        >::empty() =~= strokes_cmds(first, transforms, background, tex_src, tex_target));
    } else {
        lemma_strokes_concat(first, second.drop_last(), transforms, background, tex_src, tex_target);
        assert((first + second).drop_last() =~= first + second.drop_last());
        assert((first + second).last() == second.last());
        let x = strokes_cmds(first, transforms, background, tex_src, tex_target);
        let y = strokes_cmds(second.drop_last(), transforms, background, tex_src, tex_target);
        let z = stroke_cmds(second.last(), transforms, background, tex_src, tex_target);
        assert(x + (y + z) =~= (x + y) + z);
    }
}

/// Stroke order is part of what is painted: applying `[a, b]` and then `[c]`
/// records `a`, `b`, `c` in that order, as applying `[a, b, c]` does, while
/// applying `[c, a, b]` records `c` first; where `a` and `c` record passes of
/// the same length that differ (another brush, other parameters, another
/// transform buffer), the two recordings differ.
pub proof fn lemma_stroke_order(
    a: Stroke,
    b: Stroke,
    c: Stroke,
    transforms: Seq<u8>,
    background: ImageId,
    tex_src: ImageId,
    tex_target: ImageId,
)
    ensures
        strokes_cmds(seq![a, b], transforms, background, tex_src, tex_target) + strokes_cmds(
            seq![c],
            transforms,
            background,
            tex_src,
            tex_target,
        ) == strokes_cmds(seq![a, b, c], transforms, background, tex_src, tex_target),
        strokes_cmds(seq![a, b, c], transforms, background, tex_src, tex_target) == stroke_cmds(
            a,
            transforms,
            background,
            tex_src,
            tex_target,
        ) + stroke_cmds(b, transforms, background, tex_src, tex_target) + stroke_cmds(
            c,
            transforms,
            background,
            tex_src,
            tex_target,
        ),
        strokes_cmds(seq![c, a, b], transforms, background, tex_src, tex_target) == stroke_cmds(
            c,
            transforms,
            background,
            tex_src,
            tex_target,
        ) + stroke_cmds(a, transforms, background, tex_src, tex_target) + stroke_cmds(
            b,
            transforms,
            background,
            tex_src,
            tex_target,
        ),
        ({
            let sa = stroke_cmds(a, transforms, background, tex_src, tex_target);
            let sc = stroke_cmds(c, transforms, background, tex_src, tex_target);
            sa.len() == sc.len() && sa != sc
        }) ==> strokes_cmds(seq![a, b, c], transforms, background, tex_src, tex_target)
            != strokes_cmds(seq![c, a, b], transforms, background, tex_src, tex_target),
{
    let sa = stroke_cmds(a, transforms, background, tex_src, tex_target);
    let sb = stroke_cmds(b, transforms, background, tex_src, tex_target);
    let sc = stroke_cmds(c, transforms, background, tex_src, tex_target);
    lemma_strokes_concat(seq![a, b], seq![c], transforms, background, tex_src, tex_target);
    assert(seq![a, b] + seq![c] =~= seq![a, b, c]);
    lemma_one_stroke(a, transforms, background, tex_src, tex_target);
    lemma_one_stroke(c, transforms, background, tex_src, tex_target);
    let t = transforms;
    assert(seq![a, b, c].drop_last() =~= seq![a, b]);
    assert(seq![a, b].drop_last() =~= seq![a]);
    assert(seq![c, a, b].drop_last() =~= seq![c, a]);
    assert(seq![c, a].drop_last() =~= seq![c]);
    assert(strokes_cmds(seq![a, b], t, background, tex_src, tex_target) == strokes_cmds(
        seq![a],
        t,
        background,
        tex_src,
        tex_target,
    ) + sb);
    assert(strokes_cmds(seq![a, b, c], t, background, tex_src, tex_target) == strokes_cmds(
        seq![a, b],
        t,
        background,
        tex_src,
        tex_target,
    ) + sc);
    assert(strokes_cmds(seq![c, a], t, background, tex_src, tex_target) == strokes_cmds(
        seq![c],
        t,
        background,
        tex_src,
        tex_target,
    ) + sa);
    assert(strokes_cmds(seq![c, a, b], t, background, tex_src, tex_target) == strokes_cmds(
        seq![c, a],
        t,
        background,
        tex_src,
        tex_target,
    ) + sb);
    if sa.len() == sc.len() && sa != sc {
        let x = sa + sb + sc;
        let y = sc + sa + sb;
        assert(x.subrange(0, sa.len() as int) =~= sa);
        assert(y.subrange(0, sc.len() as int) =~= sc);
        assert(x != y);
    }
}

proof fn lemma_one_stroke(
    s: Stroke,
    transforms: Seq<u8>,
    background: ImageId,
    tex_src: ImageId,
    tex_target: ImageId,
)
    ensures
        strokes_cmds(seq![s], transforms, background, tex_src, tex_target) == stroke_cmds(
            s,
            transforms,
            background,
            tex_src,
            tex_target,
        ),
{
    let e = Seq::<Stroke>::empty();
    assert(seq![s].drop_last() =~= e);
    assert(seq![s].last() == s);
    assert(strokes_cmds(e, transforms, background, tex_src, tex_target) == Seq::<CommandView>::empty());
    assert(strokes_cmds(seq![s], transforms, background, tex_src, tex_target) == strokes_cmds(
        seq![s].drop_last(),
        transforms,
        background,
        tex_src,
        tex_target,
    ) + stroke_cmds(s, transforms, background, tex_src, tex_target));
    assert(Seq::<CommandView>::empty() + stroke_cmds(s, transforms, background, tex_src, tex_target)
        =~= stroke_cmds(s, transforms, background, tex_src, tex_target));
}

/// One paintable image with its own placement, stroke queue and blend
/// operator.
///
/// `tex_src` holds the layer's content; `tex_target` is where a stroke is
/// drawn before it is copied back, since no pass reads and writes one image.
/// `P` is the layer's placement on the canvas (translation, scale,
/// rotation), which the host turns into transform records.
pub struct Layer<P> {
    drawable: Model,
    images: LayerImages,
    render_pipeline: LayerPipeline,
    placement: P,
    blendop: Arc<BlendOp>,
    strokes: Vec<Stroke>,
}

impl<P> Layer<P> {
    pub closed spec fn drawable(&self) -> Model {
        self.drawable
    }

    pub closed spec fn tex_src(&self) -> ImageId {
        self.images.src()
    }

    pub closed spec fn tex_target(&self) -> ImageId {
        self.images.target()
    }

    /// The binding layout of a layer's pipeline: `transforms` and `src`, in
    /// that slot order, with a uniform layout for the transform record and
    /// an image layout for the layer's content.
    pub fn layout<L, C>(uniform_layout: L, image_layout: L) -> (r: PipelineLayoutBuilder<L, C>)
        ensures
            r.spec_layouts().names()@ == seq!["transforms"@, "src"@],
            r.spec_layouts().items() == seq![uniform_layout, image_layout],
            r.spec_push_constant_ranges() == Seq::<C>::empty(),
    {
        proof {
            reveal_strlit("transforms");
            reveal_strlit("src");
            assert("transforms"@ != "src"@) by {
                assert("transforms"@[0] != "src"@[0]);
            }
        }
        let r = PipelineLayoutBuilder::new().push_named("transforms", uniform_layout);
        assert(r.spec_layouts().names()@ =~= seq!["transforms"@]);
        let r = r.push_named("src", image_layout);
        assert(r.spec_layouts().names()@ =~= seq!["transforms"@, "src"@]);
        assert(r.spec_layouts().items() =~= seq![uniform_layout, image_layout]);
        r
    }

    pub closed spec fn pipeline(&self) -> RenderPipeline {
        self.render_pipeline.get()
    }

    pub closed spec fn spec_placement(&self) -> P {
        self.placement
    }

    pub closed spec fn spec_blendop(&self) -> BlendOp {
        *self.blendop
    }

    /// The strokes waiting to be applied, oldest first.
    pub closed spec fn strokes(&self) -> Seq<Stroke> {
        self.strokes@
    }

    /// A layer with no pending stroke, drawing `drawable` with the compiled
    /// pipeline `pipeline`, whose binding sets must be exactly `transforms`,
    /// `src` and whose vertex streams exactly `model`, in slot order.
    pub fn new<L, C, S, V>(
        drawable: Model,
        tex_src: ImageId,
        tex_target: ImageId,
        pipeline: PipelineId,
        pipeline_layout: &PipelineLayout<L, C>,
        vertex_stage: &VertexState<S, V>,
        placement: P,
        blendop: Arc<BlendOp>,
    ) -> (r: Result<Layer<P>, PipelineError>)
        requires
            tex_src != tex_target,
        ensures
            r is Ok <==> {
                &&& pipeline_layout.names@ == seq!["transforms"@, "src"@]
                &&& vertex_stage.vertex_buffer_names@ == seq!["model"@]
            },
            r matches Ok(layer) ==> {
                &&& layer.drawable() == drawable
                &&& layer.tex_src() == tex_src
                &&& layer.tex_target() == tex_target
                &&& layer.pipeline().pipeline == pipeline
                &&& layer.pipeline().bind_group_names == pipeline_layout.names
                &&& layer.pipeline().vertex_buffer_names == vertex_stage.vertex_buffer_names
                &&& layer.pipeline().bind_group_names@ == seq!["transforms"@, "src"@]
                &&& layer.pipeline().vertex_buffer_names@ == seq!["model"@]
                &&& layer.spec_placement() == placement
                &&& layer.spec_blendop() == *blendop
                &&& layer.strokes() == Seq::<Stroke>::empty()
            },
            r matches Err(e) ==> {
                ||| pipeline_layout.names@ != seq!["transforms"@, "src"@] && e is BindingsMismatch
                ||| pipeline_layout.names@ == seq!["transforms"@, "src"@]
                    && vertex_stage.vertex_buffer_names@ != seq!["model"@] && e is StreamsMismatch
            },
    {
        let bindings: [&str; 2] = ["transforms", "src"];
        let streams: [&str; 1] = ["model"];
        proof {
            assert(bindings@.map_values(|s: &str| s@) =~= seq!["transforms"@, "src"@]);
            assert(streams@.map_values(|s: &str| s@) =~= seq!["model"@]);
        }
        let r = program::new_exact(pipeline, pipeline_layout, vertex_stage, &bindings, &streams);
        match r {
            Ok(render_pipeline) => Ok(
                Layer {
                    drawable,
                    images: LayerImages { src: tex_src, target: tex_target },
                    render_pipeline: LayerPipeline { pipeline: render_pipeline },
                    placement,
                    blendop,
                    strokes: Vec::new(),
                },
            ),
            Err(e) => Err(e),
        }
    }

    /// Where the layer stands on the canvas.
    pub fn placement(&self) -> (r: &P)
        ensures
            *r == self.spec_placement(),
    {
        &self.placement
    }

    /// Moves the layer on the canvas.
    pub fn set_placement(&mut self, placement: P)
        ensures
            final(self).spec_placement() == placement,
            final(self).drawable() == old(self).drawable(),
            final(self).tex_src() == old(self).tex_src(),
            final(self).tex_target() == old(self).tex_target(),
            final(self).pipeline() == old(self).pipeline(),
            final(self).spec_blendop() == old(self).spec_blendop(),
            final(self).strokes() == old(self).strokes(),
    {
        self.placement = placement;
    }

    /// The operator that composites this layer.
    pub fn blendop(&self) -> (r: Arc<BlendOp>)
        ensures
            *r == self.spec_blendop(),
    {
        self.blendop.clone()
    }

    pub fn tex_src_id(&self) -> (r: ImageId)
        ensures
            r == self.tex_src(),
    {
        self.images.src
    }

    pub fn tex_target_id(&self) -> (r: ImageId)
        ensures
            r == self.tex_target(),
    {
        self.images.target
    }

    /// The number of strokes waiting to be applied.
    pub fn pending_strokes(&self) -> (r: usize)
        ensures
            r == self.strokes().len(),
    {
        self.strokes.len()
    }

    /// Appends a stroke at the back of the queue.
    pub fn queue_stroke(&mut self, stroke: Stroke)
        ensures
            final(self).strokes() == old(self).strokes().push(stroke),
            final(self).drawable() == old(self).drawable(),
            final(self).tex_src() == old(self).tex_src(),
            final(self).tex_target() == old(self).tex_target(),
            final(self).pipeline() == old(self).pipeline(),
            final(self).spec_placement() == old(self).spec_placement(),
            final(self).spec_blendop() == old(self).spec_blendop(),
    {
        self.strokes.push(stroke);
    }

    /// What `draw` records.
    pub open spec fn draw_cmds(&self, dst: Target, transforms: Seq<u8>) -> Seq<CommandView> {
        self.drawable().uniform_buffer.write_cmds(transforms) + quad_pass_cmds(
            dst,
            self.pipeline(),
            seq![
                self.pipeline().bind_cmd("src"@, Resource::Image(self.tex_src())),
                self.pipeline().bind_cmd(
                    "transforms"@,
                    Resource::Uniform(self.drawable().uniform_buffer.buffer()),
                ),
            ],
            self.drawable().mesh,
        )
    }

    /// Records the layer's transform and one pass that clears `dst` and
    /// draws the layer's content there, placed by `transforms`.
    pub fn draw(&mut self, encoder: CommandList, dst: Target, transforms: &Vec<u8>) -> (r: CommandList)
        requires
            dst != Target::Image(old(self).tex_src()),
        ensures
            r@ == encoder@ + old(self).draw_cmds(dst, transforms@),
            final(self).drawable().mesh == old(self).drawable().mesh,
            final(self).drawable().uniform_buffer.buffer() == old(
                self,
            ).drawable().uniform_buffer.buffer(),
            final(self).drawable().uniform_buffer.content() == transforms@,
            final(self).tex_src() == old(self).tex_src(),
            final(self).tex_target() == old(self).tex_target(),
            final(self).pipeline() == old(self).pipeline(),
            final(self).spec_placement() == old(self).spec_placement(),
            final(self).spec_blendop() == old(self).spec_blendop(),
            final(self).strokes() == old(self).strokes(),
    {
        proof {
            use_type_invariant(&self.render_pipeline);
            self.render_pipeline.lemma_names();
        }
        let mut list = encoder;
        self.drawable.update(&mut list, transforms);
        let pass = RenderPassBuilder::new().push_color_attachment(
            ColorAttachment { target: dst, clear: true },
        ).begin(list);
        let mut bound = pass.set_pipeline(&self.render_pipeline.pipeline);
        let _ = bound.set_bind_group("src", Resource::Image(self.images.src), &[]);
        self.drawable.draw(&mut bound);
        let r = bound.finish().end();
        assert(r@ =~= encoder@ + old(self).draw_cmds(dst, transforms@));
        r
    }

    /// Drains the stroke queue in order: each stroke is drawn into
    /// `tex_target`, reading `prev` (the composite below this layer) and
    /// `tex_src`, then copied back onto `tex_src`, so that the next stroke
    /// sees it. `transforms` is the layer's transform record.
    pub fn apply_strokes(&mut self, encoder: CommandList, prev: ImageId, transforms: &Vec<u8>) -> (r:
        CommandList)
        requires
            prev != old(self).tex_src(),
            prev != old(self).tex_target(),
        ensures
            old(self).tex_src() != old(self).tex_target(),
            r@ == encoder@ + strokes_cmds(
                old(self).strokes(),
                transforms@,
                prev,
                old(self).tex_src(),
                old(self).tex_target(),
            ),
            old(self).strokes().len() == 0 ==> r@ == encoder@,
            final(self).strokes() == Seq::<Stroke>::empty(),
            final(self).drawable() == old(self).drawable(),
            final(self).tex_src() == old(self).tex_src(),
            final(self).tex_target() == old(self).tex_target(),
            final(self).pipeline() == old(self).pipeline(),
            final(self).spec_placement() == old(self).spec_placement(),
            final(self).spec_blendop() == old(self).spec_blendop(),
    {
        proof {
            use_type_invariant(&self.images);
        }
        let mut queue: Vec<Stroke> = Vec::new();
        std::mem::swap(&mut self.strokes, &mut queue);
        let ghost all = queue@;
        let total = queue.len();
        let mut list = encoder;
        let mut done: usize = 0;
        while queue.len() > 0
            invariant
                done + queue@.len() == all.len(),
                all.len() == total,
                queue@ == all.subrange(done as int, all.len() as int),
                all == old(self).strokes(),
                list@ == encoder@ + strokes_cmds(
                    all.subrange(0, done as int),
                    transforms@,
                    prev,
                    old(self).tex_src(),
                    old(self).tex_target(),
                ),
                self.strokes() == Seq::<Stroke>::empty(),
                self.drawable() == old(self).drawable(),
                self.tex_src() == old(self).tex_src(),
                self.tex_target() == old(self).tex_target(),
                self.pipeline() == old(self).pipeline(),
                self.spec_placement() == old(self).spec_placement(),
                self.spec_blendop() == old(self).spec_blendop(),
            decreases queue@.len(),
        {
            let ghost before = list@;
            let mut stroke = queue.remove(0);
            let ghost queued = stroke;
            assert(queued == all[done as int]);
            stroke.update_transforms(&mut list, transforms);
            let pass = RenderPassBuilder::new().push_color_attachment(
                ColorAttachment { target: Target::Image(self.images.target), clear: true },
            ).begin(list);
            let pass = stroke.draw_data(
                pass,
                StrokeBindGroups { background: prev, tex_self: self.images.src },
            );
            list = pass.end();
            list.record(Command::CopyImage { src: self.images.target, dst: self.images.src });
            proof {
                let next = all.subrange(0, done + 1);
                assert(next.drop_last() =~= all.subrange(0, done as int));
                assert(next.last() == queued);
                assert(list@ =~= before + stroke_cmds(
                    queued,
                    transforms@,
                    prev,
                    old(self).tex_src(),
                    old(self).tex_target(),
                ));
                assert(queue@ =~= all.subrange(done + 1, all.len() as int));
            }
            done = done + 1;
        }
        assert(all.subrange(0, done as int) =~= all);
        list
    }
}

} // verus!
