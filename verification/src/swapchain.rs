//! Swapchain negotiation: from what the surface reports, pick the format,
//! present mode, extent and image count the swapchain is created with. Every
//! choice is a pure function of the report, so renegotiating an unchanged
//! surface reproduces the configuration exactly.

use vstd::prelude::*;

use crate::adapter::{Extent2d, SurfaceCapabilities, SurfaceFormat, SwapChainSupportDetails,
    EXTENT_UNDEFINED};
use crate::GraphicsError;

verus! {

/// Eight-bit BGRA with an sRGB transfer curve, the preferred pixel format.
pub const FORMAT_B8G8R8A8_SRGB: u32 = 50;

/// The standard non-linear sRGB color space.
pub const COLOR_SPACE_SRGB_NONLINEAR: u32 = 0;

/// Low-latency triple-buffering-style present mode, taken when offered.
pub const PRESENT_MODE_MAILBOX: u32 = 1;

/// Vsync-locked present mode the platform guarantees to offer always.
pub const PRESENT_MODE_FIFO: u32 = 2;

/// Requested size when the surface does not fix its own extent.
pub const DEFAULT_EXTENT_WIDTH: u32 = 800;

/// See `DEFAULT_EXTENT_WIDTH`.
pub const DEFAULT_EXTENT_HEIGHT: u32 = 600;

/// The concrete configuration one negotiation settles on; immutable until
/// the surface is invalidated and negotiation runs again.
#[derive(Clone, Copy, Debug, PartialEq, Eq, Structural)]
pub struct SurfaceConfiguration {
    pub format: SurfaceFormat,
    pub present_mode: u32,
    pub extent: Extent2d,
    pub image_count: u32,
}

/// The format the negotiator prefers outright.
pub open spec fn spec_preferred_format(f: SurfaceFormat) -> bool {
    f.format == FORMAT_B8G8R8A8_SRGB && f.color_space == COLOR_SPACE_SRGB_NONLINEAR
}

/// Index of the first preferred format at or after position `i`, if any.
pub open spec fn first_preferred_from(formats: Seq<SurfaceFormat>, i: int) -> Option<int>
    decreases formats.len() - i,
{
    if i < 0 || i >= formats.len() {
        None
    } else if spec_preferred_format(formats[i]) {
        Some(i)
    } else {
        first_preferred_from(formats, i + 1)
    }
}

/// The format negotiation settles on: the first preferred entry, or failing
/// that the first entry reported.
pub open spec fn spec_chosen_format(formats: Seq<SurfaceFormat>) -> SurfaceFormat
    recommends
        formats.len() > 0,
{
    match first_preferred_from(formats, 0) {
        Some(i) => formats[i],
        None => formats[0],
    }
}

/// The present mode negotiation settles on: mailbox when offered, else the
/// always-available FIFO mode.
pub open spec fn spec_chosen_present_mode(modes: Seq<u32>) -> u32 {
    if exists|i: int| 0 <= i < modes.len() && modes[i] == PRESENT_MODE_MAILBOX {
        PRESENT_MODE_MAILBOX
    } else {
        PRESENT_MODE_FIFO
    }
}

/// `x` forced into `lo ..= hi`.
pub open spec fn spec_clamp(x: u32, lo: u32, hi: u32) -> u32
    recommends
        lo <= hi,
{
    if x < lo {
        lo
    } else if x > hi {
        hi
    } else {
        x
    }
}

/// The extent negotiation settles on: the surface's own extent when defined,
/// otherwise the default size clamped to the advertised bounds.
pub open spec fn spec_chosen_extent(caps: SurfaceCapabilities) -> Extent2d {
    if caps.current_extent.width != EXTENT_UNDEFINED {
        caps.current_extent
    } else {
        Extent2d {
            width: spec_clamp(
                DEFAULT_EXTENT_WIDTH,
                caps.min_image_extent.width,
                caps.max_image_extent.width,
            ),
            height: spec_clamp(
                DEFAULT_EXTENT_HEIGHT,
                caps.min_image_extent.height,
                caps.max_image_extent.height,
            ),
        }
    }
}

/// The image count negotiation settles on: one above the minimum, clamped to
/// the maximum when the surface advertises one (zero means unbounded).
pub open spec fn spec_image_count(caps: SurfaceCapabilities) -> int {
    let desired = caps.min_image_count + 1;
    if caps.max_image_count > 0 && desired > caps.max_image_count {
        caps.max_image_count as int
    } else {
        desired
    }
}

/// The whole configuration as a function of one surface report.
pub open spec fn spec_negotiate(s: SwapChainSupportDetails) -> SurfaceConfiguration
    recommends
        s.wf(),
        s.formats@.len() > 0,
{
    SurfaceConfiguration {
        format: spec_chosen_format(s.formats@),
        present_mode: spec_chosen_present_mode(s.present_modes@),
        extent: spec_chosen_extent(s.capabilities),
        image_count: spec_image_count(s.capabilities) as u32,
    }
}

/// Picks the first preferred format, falling back to the first reported one.
pub fn choose_swap_surface_format(formats: &Vec<SurfaceFormat>) -> (r: SurfaceFormat)
    requires
        formats@.len() > 0,
    ensures
        r == spec_chosen_format(formats@),
{
    let mut i: usize = 0;
    while i < formats.len()
        invariant
            0 <= i <= formats@.len(),
            first_preferred_from(formats@, 0) == first_preferred_from(formats@, i as int),
        decreases formats@.len() - i,
    {
        let f = formats[i];
        if f.format == FORMAT_B8G8R8A8_SRGB && f.color_space == COLOR_SPACE_SRGB_NONLINEAR {
            return f;
        }
        assert(first_preferred_from(formats@, i as int) == first_preferred_from(
            formats@,
            i + 1 as int,
        ));
        i = i + 1;
    }
    formats[0]
}

/// Picks mailbox when the surface offers it, FIFO otherwise.
pub fn choose_swap_present_mode(modes: &Vec<u32>) -> (r: u32)
    ensures
        r == spec_chosen_present_mode(modes@),
{
    let mut i: usize = 0;
    while i < modes.len()
        invariant
            0 <= i <= modes@.len(),
            forall|j: int| 0 <= j < i ==> modes@[j] != PRESENT_MODE_MAILBOX,
        decreases modes@.len() - i,
    {
        if modes[i] == PRESENT_MODE_MAILBOX {
            return PRESENT_MODE_MAILBOX;
        }
        i = i + 1;
    }
    PRESENT_MODE_FIFO
}

fn clamp_u32(x: u32, lo: u32, hi: u32) -> (r: u32)
    requires
        lo <= hi,
    ensures
        r == spec_clamp(x, lo, hi),
{
    if x < lo {
        lo
    } else if x > hi {
        hi
    } else {
        x
    }
}

/// Takes the surface's current extent verbatim when defined, else clamps the
/// default size into the advertised bounds component-wise.
pub fn choose_swap_extent(caps: &SurfaceCapabilities) -> (r: Extent2d)
    requires
        caps.wf(),
    ensures
        r == spec_chosen_extent(*caps),
{
    if caps.current_extent.width != EXTENT_UNDEFINED {
        caps.current_extent
    } else {
        Extent2d {
            width: clamp_u32(
                DEFAULT_EXTENT_WIDTH,
                caps.min_image_extent.width,
                caps.max_image_extent.width,
            ),
            height: clamp_u32(
                DEFAULT_EXTENT_HEIGHT,
                caps.min_image_extent.height,
                caps.max_image_extent.height,
            ),
        }
    }
}

/// Requests one image above the minimum to avoid stalling on the driver,
/// clamped to the advertised maximum when there is one.
pub fn negotiated_image_count(caps: &SurfaceCapabilities) -> (r: u32)
    requires
        caps.wf(),
    ensures
        r == spec_image_count(*caps),
{
    let desired: u32 = caps.min_image_count + 1;
    if caps.max_image_count > 0 && desired > caps.max_image_count {
        caps.max_image_count
    } else {
        desired
    }
}

/// Settles the whole configuration for one surface report.
pub fn negotiate(support: &SwapChainSupportDetails) -> (r: SurfaceConfiguration)
    requires
        support.wf(),
        support.formats@.len() > 0,
    ensures
        r == spec_negotiate(*support),
{
    SurfaceConfiguration {
        format: choose_swap_surface_format(&support.formats),
        present_mode: choose_swap_present_mode(&support.present_modes),
        extent: choose_swap_extent(&support.capabilities),
        image_count: negotiated_image_count(&support.capabilities),
    }
}

/// Negotiation is idempotent: two negotiations against one unchanged surface
/// report settle on identical configurations.
pub proof fn lemma_negotiate_idempotent(
    s: SwapChainSupportDetails,
    c1: SurfaceConfiguration,
    c2: SurfaceConfiguration,
)
    requires
        c1 == spec_negotiate(s),
        c2 == spec_negotiate(s),
    ensures
        c1 == c2,
{
}

/// The negotiated image count is the minimum of `min_image_count + 1` and
/// the advertised maximum when that maximum is nonzero, and exactly
/// `min_image_count + 1` when the surface reports no upper bound.
pub proof fn lemma_image_count_clamp(caps: SurfaceCapabilities)
    requires
        caps.wf(),
    ensures
        caps.max_image_count > 0 ==> spec_image_count(caps) == (if caps.min_image_count + 1
            <= caps.max_image_count {
            caps.min_image_count + 1
        } else {
            caps.max_image_count as int
        }),
        caps.max_image_count == 0 ==> spec_image_count(caps) == caps.min_image_count + 1,
{
}

/// The created swapchain, its presentable images and their views, one view
/// per image, with the framebuffers bound later once a render pass exists.
#[derive(Clone, Debug)]
pub struct SwapchainResource {
    pub swapchain: u64,
    pub config: SurfaceConfiguration,
    pub images: Vec<u64>,
    pub views: Vec<u64>,
    pub framebuffers: Vec<u64>,
}

impl SwapchainResource {
    /// One view per image, and when framebuffers exist, one per image too.
    pub open spec fn wf(self) -> bool {
        &&& self.views@.len() == self.images@.len()
        &&& self.framebuffers@.len() == 0 || self.framebuffers@.len() == self.images@.len()
    }

    /// Wraps the created swapchain contents, rejecting a null swapchain
    /// handle and a view list that does not pair off with the image list.
    pub fn assemble(
        swapchain: u64,
        config: SurfaceConfiguration,
        images: Vec<u64>,
        views: Vec<u64>,
    ) -> (r: Result<SwapchainResource, GraphicsError>)
        ensures
            r matches Ok(s) ==> s.wf() && s.swapchain == swapchain && s.config == config
                && s.images@ == images@ && s.views@ == views@ && s.framebuffers@.len() == 0,
            r is Err <==> images@.len() != views@.len() || swapchain == 0,
            r matches Err(e) ==> e == GraphicsError::SwapchainCreationFailed,
    {
        if swapchain == 0 || images.len() != views.len() {
            return Err(GraphicsError::SwapchainCreationFailed);
        }
        Ok(SwapchainResource { swapchain, config, images, views, framebuffers: Vec::new() })
    }

    /// Binds one framebuffer per image, rejecting any other count.
    pub fn attach_framebuffers(&mut self, framebuffers: Vec<u64>) -> (r: Result<
        (),
        GraphicsError,
    >)
        requires
            old(self).wf(),
        ensures
            final(self).wf(),
            r is Ok <==> framebuffers@.len() == old(self).images@.len(),
            r is Ok ==> *final(self) == (SwapchainResource {
                framebuffers: framebuffers,
                ..*old(self)
            }),
            r is Err ==> *final(self) == *old(self) && (r == Err::<(), GraphicsError>(
                GraphicsError::SwapchainCreationFailed,
            )),
    {
        if framebuffers.len() != self.images.len() {
            return Err(GraphicsError::SwapchainCreationFailed);
        }
        self.framebuffers = framebuffers;
        Ok(())
    }
}

} // verus!
