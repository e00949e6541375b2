use vstd::prelude::*;
use std::sync::Arc;
use crate::buffer::UniformBuffer;
use crate::command::{BufferId, CommandList, CommandView, ImageId, PipelineId, Resource};
use crate::mesh::Mesh;
use crate::pipeline::{
    PipelineError, PipelineLayout, PipelineLayoutBuilder, RenderPass, RenderPassPipeline, RenderPipeline,
    VertexState,
};
use crate::program;
use crate::registry::{OpError, OpRegistry};

verus! {

/// Paints by a full-screen quad whose shader reads the binding sets
/// `transforms`, `background`, `self` and `stroke`.
pub struct BrushOp {
    render_pipeline: RenderPipeline,
    drawable: Mesh,
}

/// The two images a stroke reads: the composite so far and the layer itself.
#[derive(Clone, Copy, PartialEq, Eq, Structural, Debug)]
pub struct StrokeBindGroups {
    pub background: ImageId,
    pub tex_self: ImageId,
}

/// Everything a brush pass binds.
#[derive(Clone, Copy, PartialEq, Eq, Structural, Debug)]
pub struct BrushBindGroups {
    pub stroke_data: StrokeBindGroups,
    pub stroke: BufferId,
    pub transforms: BufferId,
}

impl BrushBindGroups {
    /// What `set_bind_groups` records under `pipeline`.
    pub open spec fn bind_cmds(&self, pipeline: RenderPipeline) -> Seq<CommandView> {
        seq![
            pipeline.bind_cmd("transforms"@, Resource::Uniform(self.transforms)),
            pipeline.bind_cmd("background"@, Resource::Image(self.stroke_data.background)),
            pipeline.bind_cmd("self"@, Resource::Image(self.stroke_data.tex_self)),
            pipeline.bind_cmd("stroke"@, Resource::Uniform(self.stroke)),
        ]
    }

    /// Binds all four inputs of a brush pass by name.
    pub fn set_bind_groups(&self, render_pass_pipeline: &mut RenderPassPipeline)
        requires
            old(render_pass_pipeline).pipeline().has_binding("transforms"@),
            old(render_pass_pipeline).pipeline().has_binding("background"@),
            old(render_pass_pipeline).pipeline().has_binding("self"@),
            old(render_pass_pipeline).pipeline().has_binding("stroke"@),
        ensures
            final(render_pass_pipeline).pipeline() == old(render_pass_pipeline).pipeline(),
            final(render_pass_pipeline)@ == old(render_pass_pipeline)@ + self.bind_cmds(
                old(render_pass_pipeline).pipeline(),
            ),
    {
        let _ = render_pass_pipeline.set_bind_group("transforms", Resource::Uniform(self.transforms), &[]);
        let _ = render_pass_pipeline.set_bind_group("background", Resource::Image(self.stroke_data.background), &[]);
        let _ = render_pass_pipeline.set_bind_group("self", Resource::Image(self.stroke_data.tex_self), &[]);
        let _ = render_pass_pipeline.set_bind_group("stroke", Resource::Uniform(self.stroke), &[]);
        assert(render_pass_pipeline@ =~= old(render_pass_pipeline)@ + self.bind_cmds(
            old(render_pass_pipeline).pipeline(),
        ));
    }
}

impl BrushOp {
    #[verifier::type_invariant]
    pub open spec fn inv(&self) -> bool {
        &&& self.pipeline().bind_group_names@ == seq![
            "transforms"@,
            "self"@,
            "stroke"@,
            "background"@,
        ]
        &&& self.pipeline().vertex_buffer_names@ == seq!["model"@]
    }

    proof fn lemma_names(&self)
        requires
            self.inv(),
        ensures
            self.pipeline().has_binding("transforms"@),
            self.pipeline().has_binding("self"@),
            self.pipeline().has_binding("stroke"@),
            self.pipeline().has_binding("background"@),
            self.pipeline().has_stream("model"@),
    {
        assert(self.pipeline().bind_group_names@[0] == "transforms"@);
        assert(self.pipeline().bind_group_names@[1] == "self"@);
        assert(self.pipeline().bind_group_names@[2] == "stroke"@);
        assert(self.pipeline().bind_group_names@[3] == "background"@);
        assert(self.pipeline().vertex_buffer_names@[0] == "model"@);
    }

    pub closed spec fn pipeline(&self) -> RenderPipeline {
        self.render_pipeline
    }

    pub closed spec fn quad(&self) -> Mesh {
        self.drawable
    }

    /// The binding layout of a brush pipeline: `transforms`, `self`, `stroke`
    /// and `background`, in that slot order, with a uniform layout for the
    /// two records and an image layout for the two images.
    pub fn layout<L: Copy, C>(uniform_layout: L, image_layout: L) -> (r: PipelineLayoutBuilder<L, C>)
        ensures
            r.spec_layouts().names()@ == seq!["transforms"@, "self"@, "stroke"@, "background"@],
            r.spec_layouts().items() == seq![uniform_layout, image_layout, uniform_layout, image_layout],
            r.spec_push_constant_ranges() == Seq::<C>::empty(),
    {
        proof {
            reveal_strlit("transforms");
            reveal_strlit("self");
            reveal_strlit("stroke");
            reveal_strlit("background");
            assert("transforms"@ != "self"@) by { assert("transforms"@[0] != "self"@[0]); }
            assert("transforms"@ != "stroke"@) by { assert("transforms"@[0] != "stroke"@[0]); }
            assert("self"@ != "stroke"@) by { assert("self"@[1] != "stroke"@[1]); }
            assert("transforms"@ != "background"@) by { assert("transforms"@[0] != "background"@[0]); }
            assert("self"@ != "background"@) by { assert("self"@[0] != "background"@[0]); }
            assert("stroke"@ != "background"@) by { assert("stroke"@[0] != "background"@[0]); }
        }
        let r = PipelineLayoutBuilder::new().push_named("transforms", uniform_layout);
        assert(r.spec_layouts().names()@ =~= seq!["transforms"@]);
        let r = r.push_named("self", image_layout);
        assert(r.spec_layouts().names()@ =~= seq!["transforms"@, "self"@]);
        let r = r.push_named("stroke", uniform_layout);
        assert(r.spec_layouts().names()@ =~= seq!["transforms"@, "self"@, "stroke"@]);
        let r = r.push_named("background", image_layout);
        assert(r.spec_layouts().names()@ =~= seq!["transforms"@, "self"@, "stroke"@, "background"@]);
        assert(r.spec_layouts().items() =~= seq![uniform_layout, image_layout, uniform_layout, image_layout]);
        r
    }

    /// An operator drawing `drawable` with the compiled pipeline `pipeline`,
    /// whose binding sets must be exactly `transforms`, `self`, `stroke`,
    /// `background` and whose vertex streams exactly `model`, in slot order.
    pub fn new<L, C, S, V>(
        drawable: Mesh,
        pipeline: PipelineId,
        pipeline_layout: &PipelineLayout<L, C>,
        vertex_stage: &VertexState<S, V>,
    ) -> (r: Result<BrushOp, PipelineError>)
        ensures
            r is Ok <==> {
                &&& pipeline_layout.names@ == seq!["transforms"@, "self"@, "stroke"@, "background"@]
                &&& vertex_stage.vertex_buffer_names@ == seq!["model"@]
            },
            r matches Ok(op) ==> {
                &&& op.pipeline().pipeline == pipeline
                &&& op.pipeline().bind_group_names == pipeline_layout.names
                &&& op.pipeline().vertex_buffer_names == vertex_stage.vertex_buffer_names
                &&& op.pipeline().bind_group_names@ == seq![
                    "transforms"@,
                    "self"@,
                    "stroke"@,
                    "background"@,
                ]
                &&& op.pipeline().vertex_buffer_names@ == seq!["model"@]
                &&& op.quad() == drawable
            },
            r matches Err(e) ==> {
                ||| pipeline_layout.names@ != seq!["transforms"@, "self"@, "stroke"@, "background"@]
                    && e is BindingsMismatch
                ||| pipeline_layout.names@ == seq!["transforms"@, "self"@, "stroke"@, "background"@]
                    && vertex_stage.vertex_buffer_names@ != seq!["model"@] && e is StreamsMismatch
            },
    {
        let bindings: [&str; 4] = ["transforms", "self", "stroke", "background"];
        let streams: [&str; 1] = ["model"];
        proof {
            assert(bindings@.map_values(|s: &str| s@) =~= seq!["transforms"@, "self"@, "stroke"@, "background"@]);
            assert(streams@.map_values(|s: &str| s@) =~= seq!["model"@]);
        }
        let r = program::new_exact(pipeline, pipeline_layout, vertex_stage, &bindings, &streams);
        match r {
            Ok(render_pipeline) => Ok(BrushOp { render_pipeline, drawable }),
            Err(e) => Err(e),
        }
    }

    /// Draws the operator's quad in a pass whose pipeline reads the vertex
    /// stream `model`.
    pub fn draw(&self, render_pass: &mut RenderPassPipeline)
        requires
            old(render_pass).pipeline().has_stream("model"@),
        ensures
            final(render_pass).pipeline() == old(render_pass).pipeline(),
            final(render_pass)@ == old(render_pass)@ + self.quad().draw_cmds(
                old(render_pass).pipeline(),
            ),
    {
        self.drawable.draw(render_pass);
    }

    pub fn get_pipeline(&self) -> (r: &RenderPipeline)
        ensures
            *r == self.pipeline(),
    {
        &self.render_pipeline
    }

    /// What `draw_data` records.
    pub open spec fn data_cmds(&self, data: BrushBindGroups) -> Seq<CommandView> {
        seq![CommandView::SetPipeline { pipeline: self.pipeline().pipeline }] + data.bind_cmds(
            self.pipeline(),
        ) + self.quad().draw_cmds(self.pipeline())
    }

    /// Binds the pipeline and the inputs of one brush invocation in an open
    /// pass, and draws.
    pub fn draw_data(&self, render_pass: RenderPass, data: BrushBindGroups) -> (r: RenderPass)
        ensures
            r@ == render_pass@ + self.data_cmds(data),
    {
        proof {
            use_type_invariant(self);
            self.lemma_names();
        }
        let mut bound = render_pass.set_pipeline(&self.render_pipeline);
        data.set_bind_groups(&mut bound);
        self.draw(&mut bound);
        let r = bound.finish();
        assert(r@ =~= render_pass@ + self.data_cmds(data));
        r
    }
}

/// One queued brush invocation: its own parameter record and model
/// transform, each in a uniform buffer, drawn by a shared operator.
pub struct Stroke {
    pub brushop: Arc<BrushOp>,
    pub data_uniform: UniformBuffer,
    pub transforms_uniform: UniformBuffer,
}

impl Stroke {
    pub open spec fn brushop(&self) -> BrushOp {
        *self.brushop
    }

    /// A stroke drawn by `brushop`, whose parameter record `data` was
    /// written into the buffer `data_buffer` when it was created, and whose
    /// transform goes to the buffer `transforms_buffer`, not written yet.
    pub fn new(brushop: Arc<BrushOp>, data_buffer: BufferId, data: Vec<u8>, transforms_buffer: BufferId) -> (r:
        Stroke)
        ensures
            r.brushop == brushop,
            r.data_uniform.buffer() == data_buffer,
            r.data_uniform.content() == data@,
            r.transforms_uniform.buffer() == transforms_buffer,
            r.transforms_uniform.content() == Seq::<u8>::empty(),
    {
        Stroke {
            brushop,
            data_uniform: UniformBuffer::new_with_data(data_buffer, data),
            transforms_uniform: UniformBuffer::new(transforms_buffer),
        }
    }

    /// Records the model transform for the next draw, unless the buffer holds
    /// it already.
    pub fn update_transforms(&mut self, encoder: &mut CommandList, transforms_uniform: &Vec<u8>)
        ensures
            final(self).brushop() == old(self).brushop(),
            final(self).data_uniform == old(self).data_uniform,
            final(self).transforms_uniform.buffer() == old(self).transforms_uniform.buffer(),
            final(self).transforms_uniform.content() == transforms_uniform@,
            final(encoder)@ == old(encoder)@ + old(self).transforms_uniform.write_cmds(
                transforms_uniform@,
            ),
    {
        self.transforms_uniform.update(encoder, transforms_uniform);
    }

    /// Everything the stroke's pass binds, given the two images it reads.
    pub open spec fn bind_groups(&self, data: StrokeBindGroups) -> BrushBindGroups {
        BrushBindGroups {
            stroke_data: data,
            stroke: self.data_uniform.buffer(),
            transforms: self.transforms_uniform.buffer(),
        }
    }

    /// Draws the stroke in an open pass, reading `data`.
    pub fn draw_data(&self, render_pass: RenderPass, data: StrokeBindGroups) -> (r: RenderPass)
        ensures
            r@ == render_pass@ + self.brushop().data_cmds(self.bind_groups(data)),
    {
        self.brushop.draw_data(
            render_pass,
            BrushBindGroups {
                stroke_data: data,
                stroke: self.data_uniform.binding_buffer(),
                transforms: self.transforms_uniform.binding_buffer(),
            },
        )
    }
}

/// The brush operators, by name.
pub struct BrushOpManager {
    ops: OpRegistry<BrushOp>,
}

impl View for BrushOpManager {
    type V = Map<Seq<char>, Arc<BrushOp>>;

    closed spec fn view(&self) -> Map<Seq<char>, Arc<BrushOp>> {
        self.ops@
    }
}

impl BrushOpManager {
    /// A manager holding `brush` under the name `default`.
    pub fn new(brush: BrushOp) -> (r: BrushOpManager)
        ensures
            r@ == Map::<Seq<char>, Arc<BrushOp>>::empty().insert("default"@, Arc::new(brush)),
    {
        let mut ops = OpRegistry::new();
        ops.register("default", Arc::new(brush));
        BrushOpManager { ops }
    }

    /// Registers `op` under `name`, in place of any operator of that name.
    pub fn register(&mut self, name: &str, op: Arc<BrushOp>)
        ensures
            final(self)@ == old(self)@.insert(name@, op),
    {
        self.ops.register(name, op);
    }

    /// The operator registered under `key`; unknown names are reported.
    pub fn arc_to(&self, key: &str) -> (r: Result<Arc<BrushOp>, OpError>)
        ensures
            match r {
                Ok(op) => self@.contains_key(key@) && op == self@[key@],
                Err(OpError::NotFound { name }) => !self@.contains_key(key@) && name@ == key@,
            },
    {
        self.ops.arc_to(key)
    }
}

} // verus!
