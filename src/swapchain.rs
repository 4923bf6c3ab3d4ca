//! Swapchain parameters derived from what a surface reports about itself.

use vstd::prelude::*;

verus! {

/// The image count that the swapchain asks for when the surface allows it.
pub const DESIRED_IMAGE_COUNT: u32 = 2;

/// Width and height used when the surface leaves the extent to the swapchain.
pub const FALLBACK_WIDTH: u32 = 640;

pub const FALLBACK_HEIGHT: u32 = 480;

/// A two-dimensional size in pixels.
#[derive(Clone, Copy, Debug, PartialEq, Eq, Structural)]
pub struct Extent {
    pub width: u32,
    pub height: u32,
}

/// The part of a surface's capability report that the swapchain depends on.
#[derive(Clone, Copy, Debug, PartialEq, Eq, Structural)]
pub struct SurfaceCapabilities {
    pub min_image_count: u32,
    /// `None` when the surface puts no upper bound on the image count.
    pub max_image_count: Option<u32>,
    /// `None` when the surface lets the swapchain choose its extent.
    pub current_extent: Option<Extent>,
}

/// The derived presentation parameters. Image usage (color attachment) and
/// the pre-transform (copied from the report) are fixed and not held here.
#[derive(Clone, Copy, Debug, PartialEq, Eq, Structural)]
pub struct SwapchainConfig {
    pub min_image_count: u32,
    pub image_extent: Extent,
}

pub open spec fn max_u32(a: u32, b: u32) -> u32 {
    if a >= b { a } else { b }
}

pub open spec fn min_u32(a: u32, b: u32) -> u32 {
    if a <= b { a } else { b }
}

/// The desired count raised to the surface's minimum, then capped by its
/// maximum when there is one.
pub open spec fn image_count_of(caps: SurfaceCapabilities) -> u32 {
    let lower = max_u32(DESIRED_IMAGE_COUNT, caps.min_image_count);
    match caps.max_image_count {
        None => lower,
        Some(limit) => min_u32(lower, limit),
    }
}

pub open spec fn extent_of(caps: SurfaceCapabilities) -> Extent {
    match caps.current_extent {
        Some(e) => e,
        None => Extent { width: FALLBACK_WIDTH, height: FALLBACK_HEIGHT },
    }
}

pub open spec fn config_of(caps: SurfaceCapabilities) -> SwapchainConfig {
    SwapchainConfig { min_image_count: image_count_of(caps), image_extent: extent_of(caps) }
}

/// Number of images to request from a surface with these capabilities.
pub fn min_image_count(caps: &SurfaceCapabilities) -> (r: u32)
    ensures
        r == image_count_of(*caps),
{
    let lower = DESIRED_IMAGE_COUNT.max(caps.min_image_count);
    match caps.max_image_count {
        None => lower,
        Some(limit) => lower.min(limit),
    }
}

/// The surface's current extent, or the fixed fallback when it has none.
pub fn image_extent(caps: &SurfaceCapabilities) -> (r: Extent)
    ensures
        r == extent_of(*caps),
{
    match caps.current_extent {
        Some(e) => e,
        None => Extent { width: FALLBACK_WIDTH, height: FALLBACK_HEIGHT },
    }
}

impl SwapchainConfig {
    /// The presentation parameters for a surface with these capabilities.
    /// The image count is the desired count raised to the surface's minimum:
    /// exactly that with no maximum, and within [that, maximum] when the
    /// maximum admits it. The extent is the reported one, else 640 x 480.
    pub fn new(caps: &SurfaceCapabilities) -> (r: SwapchainConfig)
        ensures
            r == config_of(*caps),
            caps.max_image_count is None ==> r.min_image_count == max_u32(DESIRED_IMAGE_COUNT, caps.min_image_count),
            caps.max_image_count is Some && max_u32(DESIRED_IMAGE_COUNT, caps.min_image_count)
                <= caps.max_image_count.unwrap() ==> max_u32(DESIRED_IMAGE_COUNT, caps.min_image_count)
                <= r.min_image_count && r.min_image_count <= caps.max_image_count.unwrap(),
            caps.current_extent is Some ==> r.image_extent == caps.current_extent.unwrap(),
            caps.current_extent is None ==> r.image_extent == (Extent { width: 640, height: 480 }),
    {
        SwapchainConfig { min_image_count: min_image_count(caps), image_extent: image_extent(caps) }
    }
}

/// With a finite maximum that is at least the raised minimum, the count lies
/// between the raised minimum and the maximum; with no maximum it is exactly
/// the raised minimum.
pub proof fn lemma_image_count_bounds(caps: SurfaceCapabilities)
    requires
        caps.max_image_count matches Some(limit) ==> max_u32(DESIRED_IMAGE_COUNT, caps.min_image_count) <= limit,
    ensures
        match caps.max_image_count {
            None => image_count_of(caps) == max_u32(DESIRED_IMAGE_COUNT, caps.min_image_count),
            Some(limit) => max_u32(DESIRED_IMAGE_COUNT, caps.min_image_count) <= image_count_of(caps)
                && image_count_of(caps) <= limit,
        },
{
}

/// The extent is the surface's current one when it reports one, and the
/// fixed fallback otherwise; nothing else enters into it.
pub proof fn lemma_extent_source(caps: SurfaceCapabilities)
    ensures
        caps.current_extent.is_some() ==> config_of(caps).image_extent == caps.current_extent.unwrap(),
        caps.current_extent.is_none() ==> config_of(caps).image_extent == (Extent { width: 640, height: 480 }),
{
}

} // verus!
