//! Context building: the queue setup for the logical device and the
//! swapchain parameters derived from the surface capabilities.
//!
//! The swapchain rules: one image more than the surface's minimum
//! (optionally clamped to its maximum, when one is declared), the first
//! enumerated format and present mode, the window size clamped into the
//! supported extent range, concurrent sharing exactly when two distinct
//! queue families serve graphics and presentation, and fixed values for
//! the remaining fields.

use vstd::prelude::*;

use crate::device::SurfaceFormat;

verus! {

/// Clamps `x` into the inclusive range `[lo, hi]`.
pub fn clamp_u32(x: u32, lo: u32, hi: u32) -> (r: u32)
    requires
        lo <= hi,
    ensures
        r == clamped(x, lo, hi),
{
    if x < lo {
        lo
    } else if x > hi {
        hi
    } else {
        x
    }
}

/// Composite alpha used for every swapchain: opaque.
pub const COMPOSITE_ALPHA_OPAQUE: u32 = 0x1;

/// Image usage used for every swapchain: color attachment only.
pub const IMAGE_USAGE_COLOR_ATTACHMENT: u32 = 0x10;

/// A width and height in pixels.
#[derive(Clone, Copy, Debug, PartialEq, Eq, Structural)]
pub struct Extent {
    pub width: u32,
    pub height: u32,
}

/// What the surface reports about itself: image count minimum, image count
/// maximum (0 meaning unlimited), the supported extent range, and the
/// transform currently applied to it.
#[derive(Clone, Copy, Debug, PartialEq, Eq, Structural)]
pub struct SurfaceCaps {
    pub min_image_count: u32,
    pub max_image_count: u32,
    pub min_image_extent: Extent,
    pub max_image_extent: Extent,
    pub current_transform: u32,
}

/// How the swapchain images are shared between queue families.
#[derive(Clone, Copy, Debug, PartialEq, Eq, Structural)]
pub enum SharingMode {
    Exclusive,
    Concurrent,
}

/// A request for queues of one family when the logical device is created.
#[derive(Clone, Copy, Debug, PartialEq, Eq, Structural)]
pub struct QueueRequest {
    pub family_index: u32,
    pub queue_count: u32,
}

/// The negotiated swapchain parameters.
#[derive(Clone, Debug)]
pub struct SwapchainConfig {
    pub min_image_count: u32,
    pub format: u32,
    pub color_space: u32,
    pub extent: Extent,
    pub sharing_mode: SharingMode,
    pub queue_family_indices: Vec<u32>,
    pub queue_family_index_count: u32,
    pub pre_transform: u32,
    pub composite_alpha: u32,
    pub present_mode: u32,
    pub clipped: bool,
    pub image_usage: u32,
    pub image_array_layers: u32,
}

impl SurfaceCaps {
    /// A capability report the derivation can work on: the extent range is
    /// non-empty and one more image than the minimum is representable.
    pub open spec fn wf(self) -> bool {
        &&& self.min_image_extent.width <= self.max_image_extent.width
        &&& self.min_image_extent.height <= self.max_image_extent.height
        &&& self.min_image_count < u32::MAX
    }
}

impl SwapchainConfig {
    /// The sharing fields are mutually consistent: a concurrent
    /// configuration names at least two distinct family indices and
    /// declares their exact number; an exclusive one names none.
    pub open spec fn wf(self) -> bool {
        match self.sharing_mode {
            SharingMode::Concurrent => {
                &&& self.queue_family_indices@.len() == self.queue_family_index_count
                &&& self.queue_family_indices@.len() >= 2
                &&& forall|a: int, b: int|
                    0 <= a < b < self.queue_family_indices@.len()
                        ==> #[trigger] self.queue_family_indices@[a]
                        != #[trigger] self.queue_family_indices@[b]
            },
            SharingMode::Exclusive => {
                &&& self.queue_family_indices@.len() == 0
                &&& self.queue_family_index_count == 0
            },
        }
    }
}

/// `x` clamped into `[lo, hi]`.
pub open spec fn clamped(x: u32, lo: u32, hi: u32) -> u32 {
    if x < lo {
        lo
    } else if x > hi {
        hi
    } else {
        x
    }
}

/// The image count the derivation settles on: one more than the surface's
/// minimum, clamped to the declared maximum only when clamping is asked
/// for and the surface declares a maximum at all.
pub open spec fn derived_image_count(caps: SurfaceCaps, clamp_to_max: bool) -> int {
    let raw = caps.min_image_count + 1;
    if clamp_to_max && caps.max_image_count != 0 && raw > caps.max_image_count {
        caps.max_image_count as int
    } else {
        raw
    }
}

/// One queue request per distinct family index: exactly one queue of each.
pub fn queue_requests(queue_family_indices: &Vec<u32>) -> (r: Vec<QueueRequest>)
    ensures
        r@.len() == queue_family_indices@.len(),
        forall|i: int|
            0 <= i < r@.len() ==> (#[trigger] r@[i]).family_index == queue_family_indices@[i]
                && r@[i].queue_count == 1,
{
    let n = queue_family_indices.len();
    let mut r: Vec<QueueRequest> = Vec::new();
    let mut i: usize = 0;
    while i < n
        invariant
            0 <= i <= n,
            n == queue_family_indices@.len(),
            r@.len() == i,
            forall|k: int|
                0 <= k < i ==> (#[trigger] r@[k]).family_index == queue_family_indices@[k]
                    && r@[k].queue_count == 1,
        decreases n - i,
    {
        r.push(QueueRequest { family_index: queue_family_indices[i], queue_count: 1 });
        i = i + 1;
    }
    r
}

/// Derives the full swapchain configuration from the surface capabilities,
/// the enumerated formats and present modes, the two chosen queue family
/// indices, and the current window size.
pub fn derive_config(
    caps: SurfaceCaps,
    formats: &Vec<SurfaceFormat>,
    present_modes: &Vec<u32>,
    graphics_family: u32,
    present_family: u32,
    window_size: Extent,
    clamp_image_count: bool,
) -> (r: SwapchainConfig)
    requires
        caps.wf(),
        formats@.len() > 0,
        present_modes@.len() > 0,
    ensures
        r.min_image_count == derived_image_count(caps, clamp_image_count),
        r.format == formats@[0].format,
        r.color_space == formats@[0].color_space,
        r.present_mode == present_modes@[0],
        r.extent.width == clamped(
            window_size.width,
            caps.min_image_extent.width,
            caps.max_image_extent.width,
        ),
        r.extent.height == clamped(
            window_size.height,
            caps.min_image_extent.height,
            caps.max_image_extent.height,
        ),
        graphics_family == present_family ==> r.sharing_mode is Exclusive
            && r.queue_family_indices@ == Seq::<u32>::empty() && r.queue_family_index_count == 0,
        graphics_family != present_family ==> r.sharing_mode is Concurrent
            && r.queue_family_indices@ == seq![graphics_family, present_family]
            && r.queue_family_index_count == 2,
        r.pre_transform == caps.current_transform,
        r.composite_alpha == COMPOSITE_ALPHA_OPAQUE,
        r.clipped == true,
        r.image_usage == IMAGE_USAGE_COLOR_ATTACHMENT,
        r.image_array_layers == 1,
        r.wf(),
{
    let raw_count = caps.min_image_count + 1;
    let min_image_count = if clamp_image_count && caps.max_image_count != 0 && raw_count
        > caps.max_image_count {
        caps.max_image_count
    } else {
        raw_count
    };
    let extent = Extent {
        width: clamp_u32(window_size.width, caps.min_image_extent.width, caps.max_image_extent.width),
        height: clamp_u32(
            window_size.height,
            caps.min_image_extent.height,
            caps.max_image_extent.height,
        ),
    };
    let mut queue_family_indices: Vec<u32> = Vec::new();
    let sharing_mode: SharingMode;
    let queue_family_index_count: u32;
    if graphics_family != present_family {
        queue_family_indices.push(graphics_family);
        queue_family_indices.push(present_family);
        sharing_mode = SharingMode::Concurrent;
        queue_family_index_count = 2;
        assert(queue_family_indices@ =~= seq![graphics_family, present_family]);
    } else {
        sharing_mode = SharingMode::Exclusive;
        queue_family_index_count = 0;
        assert(queue_family_indices@ =~= Seq::<u32>::empty());
    }
    let first_format = formats[0];
    SwapchainConfig {
        min_image_count,
        format: first_format.format,
        color_space: first_format.color_space,
        extent,
        sharing_mode,
        queue_family_indices,
        queue_family_index_count,
        pre_transform: caps.current_transform,
        composite_alpha: COMPOSITE_ALPHA_OPAQUE,
        present_mode: present_modes[0],
        clipped: true,
        image_usage: IMAGE_USAGE_COLOR_ATTACHMENT,
        image_array_layers: 1,
    }
}

} // verus!
