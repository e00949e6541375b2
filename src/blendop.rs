use vstd::prelude::*;
use std::sync::Arc;
use crate::command::{ColorAttachment, CommandList, CommandView, ImageId, PipelineId, Resource, Target};
use crate::mesh::Mesh;
use crate::pipeline::{
    PipelineError, PipelineLayout, PipelineLayoutBuilder, RenderPass, RenderPassBuilder,
    RenderPassPipeline, RenderPipeline, VertexState,
};
use crate::program;
use crate::registry::{OpError, OpRegistry};

verus! {

/// The commands of one full-screen pass of `pipeline` over `dst`, cleared
/// first, with `binds` bound before `quad` is drawn.
pub open spec fn quad_pass_cmds(
    dst: Target,
    pipeline: RenderPipeline,
    binds: Seq<CommandView>,
    quad: Mesh,
) -> Seq<CommandView> {
    seq![
        CommandView::BeginPass { attachments: seq![ColorAttachment { target: dst, clear: true }] },
        CommandView::SetPipeline { pipeline: pipeline.pipeline },
    ] + binds + quad.draw_cmds(pipeline) + seq![CommandView::EndPass]
}

/// Combines two images into a third by a full-screen quad whose shader
/// reads the binding sets `src` and `dst`.
pub struct BlendOp {
    drawable: Mesh,
    render_pipeline: RenderPipeline,
}

impl BlendOp {
    #[verifier::type_invariant]
    pub open spec fn inv(&self) -> bool {
        &&& self.pipeline().bind_group_names@ == seq!["src"@, "dst"@]
        &&& self.pipeline().vertex_buffer_names@ == seq!["model"@]
    }

    proof fn lemma_names(&self)
        requires
            self.inv(),
        ensures
            self.pipeline().has_binding("src"@),
            self.pipeline().has_binding("dst"@),
            self.pipeline().has_stream("model"@),
    {
        assert(self.pipeline().bind_group_names@[0] == "src"@);
        assert(self.pipeline().bind_group_names@[1] == "dst"@);
        assert(self.pipeline().vertex_buffer_names@[0] == "model"@);
    }

    pub closed spec fn pipeline(&self) -> RenderPipeline {
        self.render_pipeline
    }

    pub closed spec fn quad(&self) -> Mesh {
        self.drawable
    }

    /// The binding layout of a blend pipeline: one image layout under each of
    /// the names `src` and `dst`.
    pub fn layout<L: Copy, C>(image_layout: L) -> (r: PipelineLayoutBuilder<L, C>)
        ensures
            r.spec_layouts().names()@ == seq!["src"@, "dst"@],
            r.spec_layouts().items() == seq![image_layout, image_layout],
            r.spec_push_constant_ranges() == Seq::<C>::empty(),
    {
        let r = PipelineLayoutBuilder::new().push_named("src", image_layout);
        proof {
            reveal_strlit("src");
            reveal_strlit("dst");
            assert(!r.spec_layouts().names()@.contains("dst"@)) by {
                assert(r.spec_layouts().names()@ =~= seq!["src"@]);
                assert("src"@ != "dst"@) by {
                    assert("src"@[0] != "dst"@[0]);
                }
            }
        }
        let r = r.push_named("dst", image_layout);
        assert(r.spec_layouts().names()@ =~= seq!["src"@, "dst"@]);
        assert(r.spec_layouts().items() =~= seq![image_layout, image_layout]);
        r
    }

    /// An operator drawing `drawable` with the compiled pipeline `pipeline`,
    /// whose binding sets must be exactly `src`, `dst` and whose vertex
    /// streams exactly `model`, in slot order.
    pub fn new<L, C, S, V>(
        drawable: Mesh,
        pipeline: PipelineId,
        pipeline_layout: &PipelineLayout<L, C>,
        vertex_stage: &VertexState<S, V>,
    ) -> (r: Result<BlendOp, PipelineError>)
        ensures
            r is Ok <==> {
                &&& pipeline_layout.names@ == seq!["src"@, "dst"@]
                &&& vertex_stage.vertex_buffer_names@ == seq!["model"@]
            },
            r matches Ok(op) ==> {
                &&& op.pipeline().pipeline == pipeline
                &&& op.pipeline().bind_group_names == pipeline_layout.names
                &&& op.pipeline().vertex_buffer_names == vertex_stage.vertex_buffer_names
                &&& op.pipeline().bind_group_names@ == seq!["src"@, "dst"@]
                &&& op.pipeline().vertex_buffer_names@ == seq!["model"@]
                &&& op.quad() == drawable
            },
            r matches Err(e) ==> {
                ||| pipeline_layout.names@ != seq!["src"@, "dst"@] && e is BindingsMismatch
                ||| pipeline_layout.names@ == seq!["src"@, "dst"@]
                    && vertex_stage.vertex_buffer_names@ != seq!["model"@] && e is StreamsMismatch
            },
    {
        let bindings: [&str; 2] = ["src", "dst"];
        let streams: [&str; 1] = ["model"];
        proof {
            assert(bindings@.map_values(|s: &str| s@) =~= seq!["src"@, "dst"@]);
            assert(streams@.map_values(|s: &str| s@) =~= seq!["model"@]);
        }
        let r = program::new_exact(pipeline, pipeline_layout, vertex_stage, &bindings, &streams);
        match r {
            Ok(render_pipeline) => Ok(BlendOp { drawable, render_pipeline }),
            Err(e) => Err(e),
        }
    }

    /// What `draw` records.
    pub open spec fn draw_cmds(&self, dst: Target, src0: ImageId, src1: ImageId) -> Seq<CommandView> {
        quad_pass_cmds(
            dst,
            self.pipeline(),
            seq![
                self.pipeline().bind_cmd("src"@, Resource::Image(src0)),
                self.pipeline().bind_cmd("dst"@, Resource::Image(src1)),
            ],
            self.quad(),
        )
    }

    /// Records one pass that clears `dst` and writes the blend of `src0`
    /// (bound as `src`) over `src1` (bound as `dst`) into it.
    pub fn draw(&self, encoder: CommandList, dst: Target, src0: ImageId, src1: ImageId) -> (r: CommandList)
        requires
            dst != Target::Image(src0),
            dst != Target::Image(src1),
        ensures
            r@ == encoder@ + self.draw_cmds(dst, src0, src1),
    {
        proof {
            use_type_invariant(self);
            self.lemma_names();
        }
        let pass = RenderPassBuilder::new().push_color_attachment(
            ColorAttachment { target: dst, clear: true },
        ).begin(encoder);
        let mut bound = self.draw_bind_groups(pass, src0, src1);
        self.drawable.draw(&mut bound);
        let r = bound.finish().end();
        assert(r@ =~= encoder@ + self.draw_cmds(dst, src0, src1));
        r
    }

    /// Binds the pipeline and its two inputs in an open pass.
    pub fn draw_bind_groups<'a>(&'a self, render_pass: RenderPass, src0: ImageId, src1: ImageId) -> (r:
        RenderPassPipeline<'a>)
        ensures
            r.pipeline() == self.pipeline(),
            r@ == render_pass@ + seq![
                CommandView::SetPipeline { pipeline: self.pipeline().pipeline },
                self.pipeline().bind_cmd("src"@, Resource::Image(src0)),
                self.pipeline().bind_cmd("dst"@, Resource::Image(src1)),
            ],
    {
        proof {
            use_type_invariant(self);
            self.lemma_names();
        }
        let mut bound = render_pass.set_pipeline(&self.render_pipeline);
        let _ = bound.set_bind_group("src", Resource::Image(src0), &[]);
        let _ = bound.set_bind_group("dst", Resource::Image(src1), &[]);
        assert(bound@ =~= render_pass@ + seq![
            CommandView::SetPipeline { pipeline: self.pipeline().pipeline },
            self.pipeline().bind_cmd("src"@, Resource::Image(src0)),
            self.pipeline().bind_cmd("dst"@, Resource::Image(src1)),
        ]);
        bound
    }
}

/// The blend operators, by name.
pub struct BlendOpManager {
    ops: OpRegistry<BlendOp>,
}

impl View for BlendOpManager {
    type V = Map<Seq<char>, Arc<BlendOp>>;

    closed spec fn view(&self) -> Map<Seq<char>, Arc<BlendOp>> {
        self.ops@
    }
}

impl BlendOpManager {
    /// A manager holding `add` under the name `Add`.
    pub fn new(add: BlendOp) -> (r: BlendOpManager)
        ensures
            r@ == Map::<Seq<char>, Arc<BlendOp>>::empty().insert("Add"@, Arc::new(add)),
    {
        let mut ops = OpRegistry::new();
        ops.register("Add", Arc::new(add));
        BlendOpManager { ops }
    }

    /// Registers `op` under `name`, in place of any operator of that name.
    pub fn register(&mut self, name: &str, op: Arc<BlendOp>)
        ensures
            final(self)@ == old(self)@.insert(name@, op),
    {
        self.ops.register(name, op);
    }

    /// The operator registered under `key`; unknown names are reported.
    pub fn arc_to(&self, key: &str) -> (r: Result<Arc<BlendOp>, OpError>)
        ensures
            match r {
                Ok(op) => self@.contains_key(key@) && op == self@[key@],
                Err(OpError::NotFound { name }) => !self@.contains_key(key@) && name@ == key@,
            },
    {
        self.ops.arc_to(key)
    }
}

} // verus!
