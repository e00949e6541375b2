use vstd::prelude::*;
use crate::buffer::UniformBuffer;
use crate::command::{BufferId, CommandList, CommandView, Resource};
use crate::pipeline::{RenderPassPipeline, RenderPipeline};

verus! {

/// Indexed triangles in a vertex and an index buffer, fed to the vertex
/// stream named `model`.
pub struct Mesh {
    pub vertex_buffer: BufferId,
    pub index_buffer: BufferId,
    pub num_indices: u32,
}

impl Mesh {
    pub fn new(vertex_buffer: BufferId, index_buffer: BufferId, num_indices: u32) -> (r: Mesh)
        ensures
            r == (Mesh { vertex_buffer, index_buffer, num_indices }),
    {
        Mesh { vertex_buffer, index_buffer, num_indices }
    }

    /// What `draw` records under `pipeline`.
    pub open spec fn draw_cmds(&self, pipeline: RenderPipeline) -> Seq<CommandView> {
        seq![
            pipeline.stream_cmd("model"@, self.vertex_buffer),
            CommandView::SetIndexBuffer { buffer: self.index_buffer },
            CommandView::DrawIndexed {
                indices: (0u32, self.num_indices),
                base_vertex: 0i32,
                instances: (0u32, 1u32),
            },
        ]
    }

    /// Draws every index once, as one instance.
    pub fn draw(&self, render_pass: &mut RenderPassPipeline)
        requires
            old(render_pass).pipeline().has_stream("model"@),
        ensures
            final(render_pass).pipeline() == old(render_pass).pipeline(),
            final(render_pass)@ == old(render_pass)@ + self.draw_cmds(old(render_pass).pipeline()),
    {
        let _ = render_pass.set_vertex_buffer("model", self.vertex_buffer);
        render_pass.set_index_buffer(self.index_buffer);
        render_pass.draw_indexed(0..self.num_indices, 0, 0..1);
        assert(render_pass@ =~= old(render_pass)@ + self.draw_cmds(old(render_pass).pipeline()));
    }
}

/// A mesh placed by a model transform, held in a uniform buffer bound as
/// `transforms`.
pub struct Model {
    pub mesh: Mesh,
    pub uniform_buffer: UniformBuffer,
}

impl Model {
    pub fn new(mesh: Mesh, uniform_buffer: UniformBuffer) -> (r: Model)
        ensures
            r.mesh == mesh,
            r.uniform_buffer == uniform_buffer,
    {
        Model { mesh, uniform_buffer }
    }

    /// Records the new transform record, unless the buffer holds it already.
    pub fn update(&mut self, encoder: &mut CommandList, transforms: &Vec<u8>)
        ensures
            final(self).mesh == old(self).mesh,
            final(self).uniform_buffer.buffer() == old(self).uniform_buffer.buffer(),
            final(self).uniform_buffer.content() == transforms@,
            final(encoder)@ == old(encoder)@ + old(self).uniform_buffer.write_cmds(transforms@),
    {
        self.uniform_buffer.update(encoder, transforms);
    }

    /// What `draw` records under `pipeline`.
    pub open spec fn draw_cmds(&self, pipeline: RenderPipeline) -> Seq<CommandView> {
        seq![pipeline.bind_cmd("transforms"@, Resource::Uniform(self.uniform_buffer.buffer()))]
            + self.mesh.draw_cmds(pipeline)
    }

    /// Binds the transform record and draws the mesh.
    pub fn draw(&self, render_pass: &mut RenderPassPipeline)
        requires
            old(render_pass).pipeline().has_binding("transforms"@),
            old(render_pass).pipeline().has_stream("model"@),
        ensures
            final(render_pass).pipeline() == old(render_pass).pipeline(),
            final(render_pass)@ == old(render_pass)@ + self.draw_cmds(old(render_pass).pipeline()),
    {
        let _ = render_pass.set_bind_group("transforms", self.uniform_buffer.binding_resource(), &[]);
        self.mesh.draw(render_pass);
        assert(render_pass@ =~= old(render_pass)@ + self.draw_cmds(old(render_pass).pipeline()));
    }
}

} // verus!
