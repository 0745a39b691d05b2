//! Initialization logic for a stereo (multiview) graphics context driving a
//! head-mounted display: adapter selection, logical-device planning, swapchain
//! negotiation, shader bytecode validation, per-frame synchronization, and
//! ordered teardown. The driver and runtime calls themselves live outside this
//! crate; this library holds every decision those calls depend on, together
//! with proofs of the pacing and ordering invariants.

use vstd::prelude::*;

mod adapter;
mod context;
mod device_emulation;
mod device_selector;
mod frame_sync;
mod log;
mod logical_device;
mod pipeline;
mod shader;
mod swapchain;
mod teardown;

pub use adapter::{
    DeviceType, Extent2d, GraphicsAdapter, QueueFamilyIndices, QueueFamilyProps,
    SurfaceCapabilities, SurfaceFormat, SwapChainSupportDetails, EXTENT_UNDEFINED,
};
pub use context::{
    enabled_layer_count, multiview_mask, target_vulkan_version, ContextConfig, VulkanContext,
    COLOR_FORMAT, VIEW_COUNT,
};
pub use device_emulation::{DeviceManager, DeviceUpdateError, VirtualDevice};
pub use device_selector::{
    check_device_extension_support, find_queue_families, is_device_suitable,
    score_physical_device, select, select_physical_device, DISCRETE_BONUS,
};
pub use frame_sync::{
    frame_policy, lemma_no_image_hazard, FrameAction, SurfaceEvent, VulkanSyncObjects,
    MAX_FRAMES_IN_FLIGHT,
};
pub use log::{format_hms, get_system_time};
pub use logical_device::{device_from_queues, unique_queue_families, LogicalDeviceHandle};
pub use pipeline::{finish_pipeline_creation, VulkanGraphicsPipeline};
pub use shader::{
    compiled_filename, module_from_handle, shader_stage_for_extension, words_from_bytes,
    ShaderBinary, ShaderModuleHandle, ShaderStage, SPIRV_MAGIC,
};
pub use swapchain::{
    choose_swap_extent, choose_swap_present_mode, choose_swap_surface_format,
    lemma_image_count_clamp, lemma_negotiate_idempotent, negotiate, negotiated_image_count,
    SurfaceConfiguration, SwapchainResource, COLOR_SPACE_SRGB_NONLINEAR, DEFAULT_EXTENT_HEIGHT,
    DEFAULT_EXTENT_WIDTH, FORMAT_B8G8R8A8_SRGB, PRESENT_MODE_FIFO, PRESENT_MODE_MAILBOX,
};
pub use teardown::{
    context_teardown_plan, lemma_teardown_order, swapchain_teardown_plan, DestroyOp,
};

verus! {

/// Everything that can go wrong while building or driving the context.
#[derive(Clone, Copy, Debug, PartialEq, Eq, Structural)]
pub enum GraphicsError {
    /// No enumerated adapter satisfies every suitability requirement.
    NoSuitableAdapter,
    /// The driver or runtime rejected logical-device creation, or a queue
    /// handle came back null.
    DeviceCreationFailed,
    /// A surface capability, format or present-mode query failed.
    SurfaceQueryFailed,
    /// The driver rejected swapchain creation.
    SwapchainCreationFailed,
    /// A shader file could not be opened or read.
    IoError,
    /// A shader byte stream is not valid word-aligned bytecode.
    MalformedBytecode,
    /// The driver rejected a shader module built from parsed bytecode.
    ModuleCreationFailed,
    /// The driver rejected pipeline creation.
    PipelineCreationFailed,
    /// A fence wait ran out of time; the frame is fatal.
    SyncWaitTimeout,
    /// Acquire or present reported the surface stale; recreate the swapchain.
    SurfaceOutOfDate,
    /// The device was lost; nothing can be recovered.
    DeviceLost,
}

} // verus!
