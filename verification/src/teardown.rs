//! Ordered teardown. Every device-side object must be destroyed before the
//! device that owns it, and the device before the instance, whatever subset
//! of the optional resources was ever created. The plan is computed — and
//! its ordering proved — here; the unverified shell only walks it and issues
//! one driver call per entry.

use vstd::prelude::*;

use crate::context::VulkanContext;
use crate::frame_sync::VulkanSyncObjects;
use crate::swapchain::SwapchainResource;

verus! {

/// One destroy call of the teardown sequence, carrying the handle it
/// destroys.
#[derive(Clone, Copy, Debug, PartialEq, Eq, Structural)]
pub enum DestroyOp {
    Semaphore(u64),
    Fence(u64),
    Framebuffer(u64),
    ImageView(u64),
    Swapchain(u64),
    Pipeline(u64),
    PipelineLayout(u64),
    ShaderModule(u64),
    RenderPass(u64),
    Device(u64),
    Instance(u64),
}

impl DestroyOp {
    /// Whether this call destroys an object the logical device owns.
    pub open spec fn is_device_child(self) -> bool {
        !(self is Device || self is Instance)
    }
}

/// One semaphore destroy per handle, in order.
pub open spec fn spec_semaphore_ops(hs: Seq<u64>) -> Seq<DestroyOp> {
    Seq::new(hs.len(), |i: int| DestroyOp::Semaphore(hs[i]))
}

/// One fence destroy per handle, in order.
pub open spec fn spec_fence_ops(hs: Seq<u64>) -> Seq<DestroyOp> {
    Seq::new(hs.len(), |i: int| DestroyOp::Fence(hs[i]))
}

/// One framebuffer destroy per handle, in order.
pub open spec fn spec_framebuffer_ops(hs: Seq<u64>) -> Seq<DestroyOp> {
    Seq::new(hs.len(), |i: int| DestroyOp::Framebuffer(hs[i]))
}

/// One image-view destroy per handle, in order.
pub open spec fn spec_image_view_ops(hs: Seq<u64>) -> Seq<DestroyOp> {
    Seq::new(hs.len(), |i: int| DestroyOp::ImageView(hs[i]))
}

/// The destroy call for an optional resource: present exactly when the
/// handle was ever created.
pub open spec fn spec_opt_op(handle: u64, op: DestroyOp) -> Seq<DestroyOp> {
    if handle != 0 {
        seq![op]
    } else {
        Seq::empty()
    }
}

/// The part of the teardown sequence before the device and instance
/// entries: per-frame synchronization objects, then framebuffers, then the
/// swapchain, then pipeline, layout and shader modules, then the render
/// pass.
pub open spec fn spec_teardown_head(ctx: VulkanContext, sync: VulkanSyncObjects) -> Seq<
    DestroyOp,
> {
    spec_semaphore_ops(sync.image_available_semaphores@) + spec_semaphore_ops(
        sync.render_finished_semaphores@,
    ) + spec_fence_ops(sync.in_flight_fences@) + spec_framebuffer_ops(ctx.framebuffers@)
        + spec_opt_op(ctx.swapchain, DestroyOp::Swapchain(ctx.swapchain)) + spec_opt_op(
        ctx.pipeline,
        DestroyOp::Pipeline(ctx.pipeline),
    ) + spec_opt_op(ctx.pipeline_layout, DestroyOp::PipelineLayout(ctx.pipeline_layout))
        + spec_opt_op(ctx.vert_shader_mod, DestroyOp::ShaderModule(ctx.vert_shader_mod))
        + spec_opt_op(ctx.frag_shader_mod, DestroyOp::ShaderModule(ctx.frag_shader_mod))
        + spec_opt_op(ctx.render_pass, DestroyOp::RenderPass(ctx.render_pass))
}

/// The full teardown sequence of a context: every device-owned object in
/// the head, then the device, and the instance last.
pub open spec fn spec_context_teardown(ctx: VulkanContext, sync: VulkanSyncObjects) -> Seq<
    DestroyOp,
> {
    spec_teardown_head(ctx, sync) + seq![
        DestroyOp::Device(ctx.device),
        DestroyOp::Instance(ctx.instance),
    ]
}

/// The teardown sequence of one swapchain resource on recreation: every
/// framebuffer, then every view, each exactly once, then the swapchain
/// handle itself.
pub open spec fn spec_swapchain_teardown(s: SwapchainResource) -> Seq<DestroyOp> {
    spec_framebuffer_ops(s.framebuffers@) + spec_image_view_ops(s.views@) + spec_opt_op(
        s.swapchain,
        DestroyOp::Swapchain(s.swapchain),
    )
}

fn semaphore_ops(hs: &Vec<u64>) -> (r: Vec<DestroyOp>)
    ensures
        r@ == spec_semaphore_ops(hs@),
{
    let mut ops: Vec<DestroyOp> = Vec::new();
    let mut i: usize = 0;
    while i < hs.len()
        invariant
            i <= hs@.len(),
            ops@.len() == i,
            forall|j: int| 0 <= j < i ==> ops@[j] == DestroyOp::Semaphore(hs@[j]),
        decreases hs@.len() - i,
    {
        ops.push(DestroyOp::Semaphore(hs[i]));
        i = i + 1;
    }
    proof {
        assert(ops@ =~= spec_semaphore_ops(hs@));
    }
    ops
}

fn fence_ops(hs: &Vec<u64>) -> (r: Vec<DestroyOp>)
    ensures
        r@ == spec_fence_ops(hs@),
{
    let mut ops: Vec<DestroyOp> = Vec::new();
    let mut i: usize = 0;
    while i < hs.len()
        invariant
            i <= hs@.len(),
            ops@.len() == i,
            forall|j: int| 0 <= j < i ==> ops@[j] == DestroyOp::Fence(hs@[j]),
        decreases hs@.len() - i,
    {
        ops.push(DestroyOp::Fence(hs[i]));
        i = i + 1;
    }
    proof {
        assert(ops@ =~= spec_fence_ops(hs@));
    }
    ops
}

fn framebuffer_ops(hs: &Vec<u64>) -> (r: Vec<DestroyOp>)
    ensures
        r@ == spec_framebuffer_ops(hs@),
{
    let mut ops: Vec<DestroyOp> = Vec::new();
    let mut i: usize = 0;
    while i < hs.len()
        invariant
            i <= hs@.len(),
            ops@.len() == i,
            forall|j: int| 0 <= j < i ==> ops@[j] == DestroyOp::Framebuffer(hs@[j]),
        decreases hs@.len() - i,
    {
        ops.push(DestroyOp::Framebuffer(hs[i]));
        i = i + 1;
    }
    proof {
        assert(ops@ =~= spec_framebuffer_ops(hs@));
    }
    ops
}

fn image_view_ops(hs: &Vec<u64>) -> (r: Vec<DestroyOp>)
    ensures
        r@ == spec_image_view_ops(hs@),
{
    let mut ops: Vec<DestroyOp> = Vec::new();
    let mut i: usize = 0;
    while i < hs.len()
        invariant
            i <= hs@.len(),
            ops@.len() == i,
            forall|j: int| 0 <= j < i ==> ops@[j] == DestroyOp::ImageView(hs@[j]),
        decreases hs@.len() - i,
    {
        ops.push(DestroyOp::ImageView(hs[i]));
        i = i + 1;
    }
    proof {
        assert(ops@ =~= spec_image_view_ops(hs@));
    }
    ops
}

/// Computes the full teardown sequence for a context and its synchronization
/// objects, in the proven order.
#[verifier::rlimit(100)]
pub fn context_teardown_plan(ctx: &VulkanContext, sync: &VulkanSyncObjects) -> (r: Vec<DestroyOp>)
    ensures
        r@ == spec_context_teardown(*ctx, *sync),
{
    let mut ops = semaphore_ops(&sync.image_available_semaphores);
    let mut seg = semaphore_ops(&sync.render_finished_semaphores);
    ops.append(&mut seg);
    let mut seg = fence_ops(&sync.in_flight_fences);
    ops.append(&mut seg);
    let mut seg = framebuffer_ops(&ctx.framebuffers);
    ops.append(&mut seg);
    proof {
        assert(ops@ =~= spec_semaphore_ops(sync.image_available_semaphores@)
            + spec_semaphore_ops(sync.render_finished_semaphores@) + spec_fence_ops(
            sync.in_flight_fences@,
        ) + spec_framebuffer_ops(ctx.framebuffers@));
    }
    if ctx.swapchain != 0 {
        ops.push(DestroyOp::Swapchain(ctx.swapchain));
    }
    if ctx.pipeline != 0 {
        ops.push(DestroyOp::Pipeline(ctx.pipeline));
    }
    if ctx.pipeline_layout != 0 {
        ops.push(DestroyOp::PipelineLayout(ctx.pipeline_layout));
    }
    if ctx.vert_shader_mod != 0 {
        ops.push(DestroyOp::ShaderModule(ctx.vert_shader_mod));
    }
    if ctx.frag_shader_mod != 0 {
        ops.push(DestroyOp::ShaderModule(ctx.frag_shader_mod));
    }
    if ctx.render_pass != 0 {
        ops.push(DestroyOp::RenderPass(ctx.render_pass));
    }
    ops.push(DestroyOp::Device(ctx.device));
    ops.push(DestroyOp::Instance(ctx.instance));
    proof {
        assert(ops@ =~= spec_context_teardown(*ctx, *sync));
    }
    ops
}

/// Computes the teardown sequence for one outgoing swapchain resource.
pub fn swapchain_teardown_plan(s: &SwapchainResource) -> (r: Vec<DestroyOp>)
    ensures
        r@ == spec_swapchain_teardown(*s),
{
    let mut ops = framebuffer_ops(&s.framebuffers);
    let mut seg = image_view_ops(&s.views);
    ops.append(&mut seg);
    if s.swapchain != 0 {
        ops.push(DestroyOp::Swapchain(s.swapchain));
    }
    proof {
        assert(ops@ =~= spec_swapchain_teardown(*s));
    }
    ops
}

/// The teardown-order law: in every context teardown sequence, whatever
/// subset of optional resources exists, the device destroy is second to
/// last, the instance destroy is last, and no destroy of a device-owned
/// object follows the device destroy.
pub proof fn lemma_teardown_order(ctx: VulkanContext, sync: VulkanSyncObjects)
    ensures
        ({
            let plan = spec_context_teardown(ctx, sync);
            &&& plan.len() >= 2
            &&& plan[plan.len() - 2] == DestroyOp::Device(ctx.device)
            &&& plan[plan.len() - 1] == DestroyOp::Instance(ctx.instance)
            &&& forall|i: int, j: int|
                0 <= i < j < plan.len() && (#[trigger] plan[i]) is Device ==> !(
                #[trigger] plan[j]).is_device_child()
        }),
{
    let plan = spec_context_teardown(ctx, sync);
    let head = spec_teardown_head(ctx, sync);
    assert forall|i: int| 0 <= i < head.len() implies !((#[trigger] head[i]) is Device) by {
        lemma_head_not_device(ctx, sync, i);
    }
    assert forall|i: int, j: int|
        0 <= i < j < plan.len() && (#[trigger] plan[i]) is Device implies !(
    #[trigger] plan[j]).is_device_child() by {
        if i < head.len() {
            assert(plan[i] == head[i]);
            assert(!(head[i] is Device));
        } else {
            assert(i == head.len());
            assert(j == head.len() + 1);
            assert(plan[j] == DestroyOp::Instance(ctx.instance));
        }
    }
}

/// No entry of the teardown head is a device destroy.
proof fn lemma_head_not_device(ctx: VulkanContext, sync: VulkanSyncObjects, i: int)
    requires
        0 <= i < spec_teardown_head(ctx, sync).len(),
    ensures
        !((#[trigger] spec_teardown_head(ctx, sync)[i]) is Device),
{
}

} // verus!
