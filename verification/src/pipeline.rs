//! Pipeline construction bookkeeping: the pipeline and its layout live and
//! die together, and the shader modules that fed a pipeline build are
//! released immediately after the build, whether or not the driver accepted
//! it. The driver calls happen in the unverified shell; this module decides
//! what the outcome means and what must be destroyed.

use vstd::prelude::*;

use crate::teardown::DestroyOp;
use crate::GraphicsError;

verus! {

/// A pipeline object and the layout it was created with; both must be
/// destroyed together and before the device.
#[derive(Clone, Copy, Debug, PartialEq, Eq, Structural)]
pub struct VulkanGraphicsPipeline {
    pub pipeline: u64,
    pub layout: u64,
}

impl VulkanGraphicsPipeline {
    /// A usable pipeline holds no null handle.
    pub open spec fn wf(self) -> bool {
        self.pipeline != 0 && self.layout != 0
    }

    /// The destroy calls for this pipeline: the pipeline, then its layout,
    /// as one unit.
    pub fn destroy_plan(&self) -> (r: Vec<DestroyOp>)
        ensures
            r@ =~= seq![
                DestroyOp::Pipeline(self.pipeline),
                DestroyOp::PipelineLayout(self.layout),
            ],
    {
        let mut ops: Vec<DestroyOp> = Vec::new();
        ops.push(DestroyOp::Pipeline(self.pipeline));
        ops.push(DestroyOp::PipelineLayout(self.layout));
        ops
    }
}

/// Judges a finished pipeline build and hands back the release list for the
/// shader modules that fed it. The two modules are listed for destruction in
/// every outcome — the scoped acquisition-and-release discipline — and the
/// build succeeds exactly when the driver returned a pipeline and a layout.
pub fn finish_pipeline_creation(pipeline: u64, layout: u64, vert_module: u64, frag_module: u64) -> (r: (
    Result<VulkanGraphicsPipeline, GraphicsError>,
    Vec<DestroyOp>,
))
    ensures
        r.1@ =~= seq![
            DestroyOp::ShaderModule(vert_module),
            DestroyOp::ShaderModule(frag_module),
        ],
        r.0 is Ok <==> pipeline != 0 && layout != 0,
        r.0 matches Ok(p) ==> p == (VulkanGraphicsPipeline { pipeline, layout }) && p.wf(),
        r.0 matches Err(e) ==> e == GraphicsError::PipelineCreationFailed,
{
    let mut release: Vec<DestroyOp> = Vec::new();
    release.push(DestroyOp::ShaderModule(vert_module));
    release.push(DestroyOp::ShaderModule(frag_module));
    let outcome = if pipeline != 0 && layout != 0 {
        Ok(VulkanGraphicsPipeline { pipeline, layout })
    } else {
        Err(GraphicsError::PipelineCreationFailed)
    };
    (outcome, release)
}

} // verus!
