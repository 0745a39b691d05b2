//! Plain-value model of an enumerated physical adapter and of what the
//! presentation surface reports for it. The enumeration itself happens in the
//! unverified shell; it hands these records over, and every selection and
//! negotiation decision is made — and proved — on them.

use vstd::prelude::*;

verus! {

/// The class a driver reports for a physical adapter.
#[derive(Clone, Copy, Debug, PartialEq, Eq, Structural)]
pub enum DeviceType {
    Other,
    IntegratedGpu,
    DiscreteGpu,
    VirtualGpu,
    Cpu,
}

/// What one queue family of an adapter offers for the target surface.
#[derive(Clone, Copy, Debug, PartialEq, Eq, Structural)]
pub struct QueueFamilyProps {
    /// The family accepts graphics submissions.
    pub graphics: bool,
    /// The family can present to the surface under negotiation.
    pub present: bool,
}

/// A pixel format paired with a color space, as the surface reports them.
#[derive(Clone, Copy, Debug, PartialEq, Eq, Structural)]
pub struct SurfaceFormat {
    pub format: u32,
    pub color_space: u32,
}

/// A width/height pair in pixels.
#[derive(Clone, Copy, Debug, PartialEq, Eq, Structural)]
pub struct Extent2d {
    pub width: u32,
    pub height: u32,
}

/// Surface capability bounds, as reported for one adapter.
#[derive(Clone, Copy, Debug, PartialEq, Eq, Structural)]
pub struct SurfaceCapabilities {
    /// Fewest images a swapchain on this surface may hold.
    pub min_image_count: u32,
    /// Most images it may hold; zero means unbounded.
    pub max_image_count: u32,
    /// Current surface size, or `EXTENT_UNDEFINED` width when the surface
    /// leaves the size to the swapchain.
    pub current_extent: Extent2d,
    pub min_image_extent: Extent2d,
    pub max_image_extent: Extent2d,
}

/// Sentinel width marking a surface that does not fix its own extent.
pub const EXTENT_UNDEFINED: u32 = 0xffff_ffff;

impl SurfaceCapabilities {
    /// Bounds the platform guarantees of every capability report: extent
    /// bounds are ordered, and the minimum image count leaves room for the
    /// one extra image the negotiator requests.
    pub open spec fn wf(self) -> bool {
        &&& self.min_image_extent.width <= self.max_image_extent.width
        &&& self.min_image_extent.height <= self.max_image_extent.height
        &&& self.min_image_count < 0xffff_ffff
    }
}

/// Everything the surface reports for one adapter: capabilities, the format
/// list, and the present-mode list.
#[derive(Clone, Debug)]
pub struct SwapChainSupportDetails {
    pub capabilities: SurfaceCapabilities,
    pub formats: Vec<SurfaceFormat>,
    pub present_modes: Vec<u32>,
}

impl SwapChainSupportDetails {
    pub open spec fn wf(self) -> bool {
        self.capabilities.wf()
    }
}

/// One candidate GPU together with the queried properties the selector reads.
#[derive(Clone, Debug)]
pub struct GraphicsAdapter {
    pub device_type: DeviceType,
    /// Largest supported two-dimensional image extent.
    pub max_image_dimension2d: u32,
    /// Whether the adapter's features include geometry shaders.
    pub geometry_shader: bool,
    /// One entry per queue family, in family-index order.
    pub queue_families: Vec<QueueFamilyProps>,
    /// Names of the device extensions the adapter advertises.
    pub extensions: Vec<String>,
    /// What the target surface reports for this adapter.
    pub surface: SwapChainSupportDetails,
}

/// The queue families a selected adapter will drive: the first family found
/// for graphics work and the first found for presentation. They may coincide.
#[derive(Clone, Copy, Debug)]
pub struct QueueFamilyIndices {
    pub graphics_family: Option<u32>,
    pub present_family: Option<u32>,
}

impl QueueFamilyIndices {
    /// An assignment is usable only when both roles are filled.
    pub open spec fn spec_is_complete(self) -> bool {
        self.graphics_family is Some && self.present_family is Some
    }

    pub fn is_complete(&self) -> (r: bool)
        ensures
            r == self.spec_is_complete(),
    {
        self.graphics_family.is_some() && self.present_family.is_some()
    }
}

impl Default for QueueFamilyIndices {
    /// Starts with neither role assigned.
    fn default() -> (r: Self)
        ensures
            r.graphics_family is None,
            r.present_family is None,
    {
        QueueFamilyIndices { graphics_family: None, present_family: None }
    }
}

} // verus!
