use vstd::prelude::*;
use std::sync::Arc;
use crate::blendop::BlendOp;
use crate::command::ImageId;
use crate::mesh::Mesh;
use crate::pipeline::RenderPipeline;

verus! {

/// A paintable surface: an image with a scratch image to paint through, the
/// pipeline that draws it and the operator that composites it.
pub struct Surface {
    pub drawable: Mesh,
    pub tex_target: ImageId,
    pub tex_src: ImageId,
    pub render_pipeline: RenderPipeline,
    pub blendop: Arc<BlendOp>,
}

} // verus!
