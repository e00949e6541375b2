use vstd::prelude::*;
use crate::command::PipelineId;
use crate::pipeline::{PipelineError, PipelineLayout, RenderPipeline, VertexState};

verus! {

/// Packages the compiled pipeline `pipeline` with the name tables of the
/// layout and of the vertex stage it was compiled from; both tables are
/// shared, not copied.
pub fn new<L, C, S, V>(
    pipeline: PipelineId,
    pipeline_layout: &PipelineLayout<L, C>,
    vertex_stage: &VertexState<S, V>,
) -> (r: RenderPipeline)
    ensures
        r.pipeline == pipeline,
        r.bind_group_names == pipeline_layout.names,
        r.vertex_buffer_names == vertex_stage.vertex_buffer_names,
{
    RenderPipeline {
        pipeline,
        bind_group_names: pipeline_layout.names.clone(),
        vertex_buffer_names: vertex_stage.vertex_buffer_names.clone(),
    }
}

/// Packages the compiled pipeline `pipeline` as `new` does, provided the
/// layout's binding sets are exactly `bindings` and the vertex stage's
/// streams exactly `streams`, each in slot order; otherwise reports which
/// table differs, the binding sets first.
pub fn new_exact<L, C, S, V>(
    pipeline: PipelineId,
    pipeline_layout: &PipelineLayout<L, C>,
    vertex_stage: &VertexState<S, V>,
    bindings: &[&str],
    streams: &[&str],
) -> (r: Result<RenderPipeline, PipelineError>)
    ensures
        r is Ok <==> {
            &&& pipeline_layout.names@ == bindings@.map_values(|s: &str| s@)
            &&& vertex_stage.vertex_buffer_names@ == streams@.map_values(|s: &str| s@)
        },
        r matches Ok(p) ==> {
            &&& p.pipeline == pipeline
            &&& p.bind_group_names == pipeline_layout.names
            &&& p.vertex_buffer_names == vertex_stage.vertex_buffer_names
        },
        r matches Err(e) ==> {
            ||| pipeline_layout.names@ != bindings@.map_values(|s: &str| s@)
                && e is BindingsMismatch
            ||| pipeline_layout.names@ == bindings@.map_values(|s: &str| s@)
                && vertex_stage.vertex_buffer_names@ != streams@.map_values(|s: &str| s@)
                && e is StreamsMismatch
        },
{
    if !pipeline_layout.names.is_exactly(bindings) {
        return Err(PipelineError::BindingsMismatch);
    }
    if !vertex_stage.vertex_buffer_names.is_exactly(streams) {
        return Err(PipelineError::StreamsMismatch);
    }
    Ok(new(pipeline, pipeline_layout, vertex_stage))
}

} // verus!
