//! The assembled graphics context: the handles the shell created, the
//! version and view-mask values the creation calls were given, and the
//! invariant tying the per-image resources together. Creation itself — the
//! loader, instance, device and render-pass calls — is driver work done in
//! the unverified shell against the plan this library computes.

use vstd::prelude::*;

use crate::GraphicsError;

verus! {

/// Number of stereo views rendered in one multiview pass.
pub const VIEW_COUNT: u32 = 2;

/// Pixel format the render pass attachment is declared with: 8-bit RGBA
/// with an sRGB transfer curve.
pub const COLOR_FORMAT: u32 = 43;

/// Startup configuration, resolved once and passed into context creation:
/// whether the instance enables validation layers.
#[derive(Clone, Copy, Debug, PartialEq, Eq, Structural)]
pub struct ContextConfig {
    pub use_validation_layers: bool,
}

/// How many of the prepared layer names instance creation enables: all of
/// them when validation is on, none otherwise.
pub fn enabled_layer_count(config: &ContextConfig, prepared: u32) -> (r: u32)
    ensures
        config.use_validation_layers ==> r == prepared,
        !config.use_validation_layers ==> r == 0,
{
    if config.use_validation_layers {
        prepared
    } else {
        0
    }
}

/// Relies on `ash::vk::make_api_version`: it packs variant, major, minor
/// and patch into one word as `(variant << 29) | (major << 22) |
/// (minor << 12) | patch`, exactly as its source reads.
#[verifier::external_body]
fn make_api_version(variant: u32, major: u32, minor: u32, patch: u32) -> (r: u32)
    ensures
        r == (variant << 29) | (major << 22) | (minor << 12) | patch,
{
    ash::vk::make_api_version(variant, major, minor, patch)
}

/// The packed version word the context targets: core version 1.1.
pub fn target_vulkan_version() -> (r: u32)
    ensures
        r == 0x0040_1000,
{
    let v = make_api_version(0, 1, 1, 0);
    assert((0u32 << 29) | (1u32 << 22) | (1u32 << 12) | 0u32 == 0x0040_1000u32) by (bit_vector);
    v
}

/// The view mask addressing every stereo view: the low `VIEW_COUNT` bits.
pub fn multiview_mask() -> (r: u32)
    ensures
        r == 0b11u32,
{
    let mask: u32 = !(!0u32 << VIEW_COUNT);
    assert(!(!0u32 << 2u32) == 0b11u32) by (bit_vector);
    mask
}

/// Every handle the context owns, plus the creation parameters later calls
/// read back. Optional resources hold zero until created; the framebuffers
/// pair off with the swapchain images.
#[derive(Clone, Debug)]
pub struct VulkanContext {
    pub instance: u64,
    pub physical_device: u64,
    pub device: u64,
    pub queue_family_index: u32,
    pub queue: u64,
    pub view_mask: u32,
    pub render_pass: u64,
    pub pipeline_layout: u64,
    pub pipeline: u64,
    pub vert_shader_mod: u64,
    pub frag_shader_mod: u64,
    pub target_vk_version: u32,
    pub swapchain: u64,
    pub swapchain_images: Vec<u64>,
    pub framebuffers: Vec<u64>,
}

impl VulkanContext {
    /// Instance and device exist, and one framebuffer stands per swapchain
    /// image.
    pub open spec fn wf(self) -> bool {
        &&& self.instance != 0
        &&& self.device != 0
        &&& self.framebuffers@.len() == self.swapchain_images@.len()
    }

    /// Wraps the handles creation produced, rejecting a null instance or
    /// device and a framebuffer list that does not pair off with the image
    /// list.
    pub fn assemble(
        instance: u64,
        physical_device: u64,
        device: u64,
        queue_family_index: u32,
        queue: u64,
        view_mask: u32,
        render_pass: u64,
        target_vk_version: u32,
        swapchain: u64,
        swapchain_images: Vec<u64>,
        framebuffers: Vec<u64>,
    ) -> (r: Result<VulkanContext, GraphicsError>)
        ensures
            r is Ok <==> instance != 0 && device != 0 && swapchain_images@.len()
                == framebuffers@.len(),
            r matches Ok(c) ==> c.wf() && c.instance == instance && c.physical_device
                == physical_device && c.device == device && c.queue_family_index
                == queue_family_index && c.queue == queue && c.view_mask == view_mask
                && c.render_pass == render_pass && c.pipeline_layout == 0 && c.pipeline == 0
                && c.vert_shader_mod == 0 && c.frag_shader_mod == 0 && c.target_vk_version
                == target_vk_version && c.swapchain == swapchain && c.swapchain_images@
                == swapchain_images@ && c.framebuffers@ == framebuffers@,
            r matches Err(e) ==> e == GraphicsError::DeviceCreationFailed,
    {
        if instance == 0 || device == 0 || swapchain_images.len() != framebuffers.len() {
            return Err(GraphicsError::DeviceCreationFailed);
        }
        Ok(
            VulkanContext {
                instance,
                physical_device,
                device,
                queue_family_index,
                queue,
                view_mask,
                render_pass,
                pipeline_layout: 0,
                pipeline: 0,
                vert_shader_mod: 0,
                frag_shader_mod: 0,
                target_vk_version,
                swapchain,
                swapchain_images,
                framebuffers,
            },
        )
    }

    /// One command buffer is recorded per framebuffer.
    pub fn command_buffer_count(&self) -> (r: usize)
        ensures
            r == self.framebuffers@.len(),
    {
        self.framebuffers.len()
    }
}

} // verus!
