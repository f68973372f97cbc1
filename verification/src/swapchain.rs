//! Swapchain planning and the swapchain-backed render-target model.
//!
//! Construction of a presentable image chain resolves four choices
//! from what the surface reports: the extent (the surface's current
//! extent, or the window's pixel size clamped to the surface bounds
//! when the surface reports the "auto" sentinel), the image count
//! (one more than the minimum, capped at the maximum if the surface
//! enforces one), the pixel format (a nonlinear-encoded
//! 8-bit-per-channel format if offered, else the first available)
//! and the display mode (low-latency triple buffering if offered,
//! else the universally supported queued mode).  The chain itself is
//! created by the driver layer; this module owns every one of those
//! decisions and the per-frame attachment description.

use vstd::prelude::*;

use crate::error::RenderError;
use crate::geometry::Extent2d;
use crate::image_state::{
    FrameRenderAttachmentImageStateExternal, ImageLayout, ACCESS_NONE,
};
use crate::render_target::FrameRenderAttachment;
use crate::render_target::FrameRenderInfo;

verus! {

/// The raw format code of 8-bit-per-channel BGRA with nonlinear sRGB
/// encoding.
pub const FORMAT_B8G8R8A8_SRGB: u32 = 50;

/// The raw color-space code of nonlinear sRGB.
pub const COLOR_SPACE_SRGB_NONLINEAR: u32 = 0;

/// The raw code of the low-latency triple-buffered display mode.
pub const PRESENT_MODE_MAILBOX: u32 = 1;

/// The raw code of the universally supported queued display mode.
pub const PRESENT_MODE_FIFO: u32 = 2;

/// The sentinel a surface reports as its current extent's dimensions
/// when the extent is determined by the window instead.
pub const SURFACE_EXTENT_AUTO: u32 = u32::MAX;

/// What the surface reports about extents and image counts.
#[derive(Clone, Copy, PartialEq, Eq, Structural, Debug)]
pub struct SurfaceCapabilities {
    pub current_extent: Extent2d,
    pub min_image_extent: Extent2d,
    pub max_image_extent: Extent2d,
    pub min_image_count: u32,
    /// Zero means the surface enforces no maximum.
    pub max_image_count: u32,
}

/// One pixel format the surface offers: a raw format code and a raw
/// color-space code.
#[derive(Clone, Copy, PartialEq, Eq, Structural, Debug)]
pub struct SurfaceFormat {
    pub format: u32,
    pub color_space: u32,
}

/// The preferred surface format: 8-bit-per-channel BGRA in nonlinear
/// sRGB.
pub open spec fn is_preferred_format(f: SurfaceFormat) -> bool {
    f.format == FORMAT_B8G8R8A8_SRGB && f.color_space == COLOR_SPACE_SRGB_NONLINEAR
}

/// `v` clamped into `[lo, hi]`.
pub open spec fn spec_clamp(v: u32, lo: u32, hi: u32) -> u32 {
    if v < lo {
        lo
    } else if v > hi {
        hi
    } else {
        v
    }
}

/// The extent the chain is created with: the surface's current
/// extent, or — when the surface reports the auto sentinel — the
/// window's pixel size clamped to the surface's bounds.
pub open spec fn spec_choose_extent(caps: SurfaceCapabilities, window_extent: Extent2d) -> Extent2d {
    if caps.current_extent.height == SURFACE_EXTENT_AUTO {
        Extent2d {
            width: spec_clamp(
                window_extent.width,
                caps.min_image_extent.width,
                caps.max_image_extent.width,
            ),
            height: spec_clamp(
                window_extent.height,
                caps.min_image_extent.height,
                caps.max_image_extent.height,
            ),
        }
    } else {
        caps.current_extent
    }
}

/// The image count the chain is created with: one more than the
/// minimum, capped at the maximum if the surface enforces one.
pub open spec fn spec_choose_image_count(caps: SurfaceCapabilities) -> u32 {
    if caps.max_image_count > 0 {
        if caps.max_image_count < caps.min_image_count + 1 {
            caps.max_image_count
        } else {
            (caps.min_image_count + 1) as u32
        }
    } else {
        (caps.min_image_count + 1) as u32
    }
}

/// The format choice: the first preferred format if the surface
/// offers one, else the first format offered at all.
pub open spec fn format_choice_ok(f: SurfaceFormat, formats: Seq<SurfaceFormat>) -> bool {
    if exists|i: int| 0 <= i < formats.len() && is_preferred_format(#[trigger] formats[i]) {
        exists|i: int|
            0 <= i < formats.len() && f == formats[i] && is_preferred_format(#[trigger] formats[i])
                && (forall|j: int| 0 <= j < i ==> !is_preferred_format(#[trigger] formats[j]))
    } else {
        formats.len() > 0 && f == formats[0]
    }
}

/// The display mode the chain is created with: low-latency triple
/// buffering if offered, else the queued fallback.
pub open spec fn spec_choose_present_mode(modes: Seq<u32>) -> u32 {
    if modes.contains(PRESENT_MODE_MAILBOX) {
        PRESENT_MODE_MAILBOX
    } else {
        PRESENT_MODE_FIFO
    }
}

/// Everything the driver layer needs to create the chain.
#[derive(Clone, Copy, PartialEq, Eq, Structural, Debug)]
pub struct SwapchainConfig {
    pub extent: Extent2d,
    pub image_count: u32,
    pub format: SurfaceFormat,
    pub present_mode: u32,
}

/// Clamp `v` into `[lo, hi]`.
fn clamp_u32(v: u32, lo: u32, hi: u32) -> (r: u32)
    requires
        lo <= hi,
    ensures
        r == spec_clamp(v, lo, hi),
{
    if v < lo {
        lo
    } else if v > hi {
        hi
    } else {
        v
    }
}

/// Resolve the extent the chain is created with.
pub fn choose_extent(caps: &SurfaceCapabilities, window_extent: Extent2d) -> (r: Extent2d)
    requires
        caps.min_image_extent.width <= caps.max_image_extent.width,
        caps.min_image_extent.height <= caps.max_image_extent.height,
    ensures
        r == spec_choose_extent(*caps, window_extent),
{
    if caps.current_extent.height == SURFACE_EXTENT_AUTO {
        Extent2d {
            width: clamp_u32(
                window_extent.width,
                caps.min_image_extent.width,
                caps.max_image_extent.width,
            ),
            height: clamp_u32(
                window_extent.height,
                caps.min_image_extent.height,
                caps.max_image_extent.height,
            ),
        }
    } else {
        caps.current_extent
    }
}

/// Resolve the image count the chain is created with.
pub fn choose_image_count(caps: &SurfaceCapabilities) -> (r: u32)
    requires
        caps.min_image_count < u32::MAX,
    ensures
        r == spec_choose_image_count(*caps),
{
    if caps.max_image_count > 0 {
        if caps.max_image_count < caps.min_image_count + 1 {
            caps.max_image_count
        } else {
            caps.min_image_count + 1
        }
    } else {
        caps.min_image_count + 1
    }
}

/// Resolve the pixel format the chain is created with: the first
/// preferred format, else the first offered.  Fails exactly when the
/// surface offers no format at all.
pub fn choose_surface_format(formats: &Vec<SurfaceFormat>) -> (r: Result<
    SurfaceFormat,
    RenderError,
>)
    ensures
        r is Ok <==> formats@.len() > 0,
        match r {
            Ok(f) => format_choice_ok(f, formats@),
            Err(e) => e == RenderError::NoSurfaceFormat,
        },
{
    let n = formats.len();
    let mut i: usize = 0;
    while i < n && !(formats[i].format == FORMAT_B8G8R8A8_SRGB && formats[i].color_space
        == COLOR_SPACE_SRGB_NONLINEAR)
        invariant
            n == formats@.len(),
            i <= n,
            forall|j: int| 0 <= j < i ==> !is_preferred_format(#[trigger] formats@[j]),
        decreases n - i,
    {
        i = i + 1;
    }
    if i < n {
        Ok(formats[i])
    } else if n > 0 {
        Ok(formats[0])
    } else {
        Err(RenderError::NoSurfaceFormat)
    }
}

/// Resolve the display mode the chain is created with.
pub fn choose_present_mode(present_modes: &Vec<u32>) -> (r: u32)
    ensures
        r == spec_choose_present_mode(present_modes@),
{
    let n = present_modes.len();
    let mut i: usize = 0;
    while i < n && present_modes[i] != PRESENT_MODE_MAILBOX
        invariant
            n == present_modes@.len(),
            i <= n,
            forall|j: int| 0 <= j < i ==> present_modes@[j] != PRESENT_MODE_MAILBOX,
        decreases n - i,
    {
        i = i + 1;
    }
    if i < n {
        proof {
            assert(present_modes@.contains(PRESENT_MODE_MAILBOX));
        }
        PRESENT_MODE_MAILBOX
    } else {
        proof {
            assert(!present_modes@.contains(PRESENT_MODE_MAILBOX)) by {
                if present_modes@.contains(PRESENT_MODE_MAILBOX) {
                    let k = choose|k: int|
                        0 <= k < present_modes@.len() && present_modes@[k] == PRESENT_MODE_MAILBOX;
                }
            }
        }
        PRESENT_MODE_FIFO
    }
}

/// Resolve every creation choice of a chain from what the surface
/// reports.  Fails exactly when the surface offers no pixel format.
pub fn plan_swapchain(
    caps: &SurfaceCapabilities,
    window_extent: Extent2d,
    formats: &Vec<SurfaceFormat>,
    present_modes: &Vec<u32>,
) -> (r: Result<SwapchainConfig, RenderError>)
    requires
        caps.min_image_extent.width <= caps.max_image_extent.width,
        caps.min_image_extent.height <= caps.max_image_extent.height,
        caps.min_image_count < u32::MAX,
    ensures
        r is Ok <==> formats@.len() > 0,
        match r {
            Ok(c) => {
                &&& c.extent == spec_choose_extent(*caps, window_extent)
                &&& c.image_count == spec_choose_image_count(*caps)
                &&& format_choice_ok(c.format, formats@)
                &&& c.present_mode == spec_choose_present_mode(present_modes@)
            },
            Err(e) => e == RenderError::NoSurfaceFormat,
        },
{
    let format = match choose_surface_format(formats) {
        Ok(f) => f,
        Err(e) => {
            return Err(e);
        },
    };
    Ok(
        SwapchainConfig {
            extent: choose_extent(caps, window_extent),
            image_count: choose_image_count(caps),
            format,
            present_mode: choose_present_mode(present_modes),
        },
    )
}

/// The state a swapchain image is in when acquired: the presentation
/// mechanism guarantees no layout after acquisition, so the renderer
/// must treat the contents as undefined.
pub open spec fn swapchain_initial_state() -> FrameRenderAttachmentImageStateExternal {
    FrameRenderAttachmentImageStateExternal {
        layout: ImageLayout::Undefined,
        access: ACCESS_NONE,
        queue_family: 0,
    }
}

/// The state a swapchain image must reach before it is presented.
pub open spec fn swapchain_final_state() -> FrameRenderAttachmentImageStateExternal {
    FrameRenderAttachmentImageStateExternal {
        layout: ImageLayout::PresentSrc,
        access: ACCESS_NONE,
        queue_family: 0,
    }
}

/// The model of a swapchain-backed render target: the chosen extent
/// and format, and the chain's images with one view each, indexed
/// consistently.  The driver layer owns the chain object itself and
/// performs the acquire and present calls; it reads the per-frame
/// attachment description from `frame_info`.
pub struct SwapchainRenderTarget {
    extent: Extent2d,
    format: SurfaceFormat,
    images: Vec<u64>,
    image_views: Vec<u64>,
}

impl SwapchainRenderTarget {
    /// The chain's image handles.
    pub closed spec fn images_spec(&self) -> Seq<u64> {
        self.images@
    }

    /// The chain's image-view handles, indexed like the images.
    pub closed spec fn views_spec(&self) -> Seq<u64> {
        self.image_views@
    }

    /// The extent the chain was created with.
    pub closed spec fn extent_spec(&self) -> Extent2d {
        self.extent
    }

    /// The format the chain was created with.
    pub closed spec fn format_spec(&self) -> SurfaceFormat {
        self.format
    }

    /// Image and view lists are always the same length.
    pub closed spec fn inv(&self) -> bool {
        self.images@.len() == self.image_views@.len()
    }

    /// A target over the given chain images and their views.  Fails
    /// exactly when the two lists differ in length.
    pub fn new(
        extent: Extent2d,
        format: SurfaceFormat,
        images: Vec<u64>,
        image_views: Vec<u64>,
    ) -> (r: Result<SwapchainRenderTarget, RenderError>)
        ensures
            r is Ok <==> images@.len() == image_views@.len(),
            match r {
                Ok(t) => {
                    &&& t.inv()
                    &&& t.extent_spec() == extent
                    &&& t.format_spec() == format
                    &&& t.images_spec() == images@
                    &&& t.views_spec() == image_views@
                },
                Err(e) => e == RenderError::ImageViewCountMismatch,
            },
    {
        if images.len() != image_views.len() {
            return Err(RenderError::ImageViewCountMismatch);
        }
        Ok(SwapchainRenderTarget { extent, format, images, image_views })
    }

    /// The frame description for the acquired image `image_index`:
    /// one color attachment over that image and its view, acquired
    /// with undefined contents and required to reach the
    /// present-ready state.  Fails exactly when the index lies
    /// outside the chain.
    pub fn frame_info(&self, image_index: u32) -> (r: Result<FrameRenderInfo, RenderError>)
        requires
            self.inv(),
        ensures
            r is Ok <==> image_index < self.images_spec().len(),
            match r {
                Ok(info) => {
                    &&& info@.extent == self.extent_spec()
                    &&& info@.image_index == image_index
                    &&& info@.color_attachments.len() == 1
                    &&& info@.color_attachments[0] == (FrameRenderAttachment {
                        image: self.images_spec()[image_index as int],
                        image_view: self.views_spec()[image_index as int],
                        format: self.format_spec().format,
                        initial_state: swapchain_initial_state(),
                        final_state: swapchain_final_state(),
                    })
                },
                Err(e) => e == RenderError::InvalidImageIndex,
            },
    {
        if (image_index as usize) >= self.images.len() {
            return Err(RenderError::InvalidImageIndex);
        }
        let idx = image_index as usize;
        let attachment = FrameRenderAttachment {
            image: self.images[idx],
            image_view: self.image_views[idx],
            format: self.format.format,
            initial_state: FrameRenderAttachmentImageStateExternal {
                layout: ImageLayout::Undefined,
                access: ACCESS_NONE,
                queue_family: 0,
            },
            final_state: FrameRenderAttachmentImageStateExternal {
                layout: ImageLayout::PresentSrc,
                access: ACCESS_NONE,
                queue_family: 0,
            },
        };
        let mut color_attachments: Vec<FrameRenderAttachment> = Vec::new();
        color_attachments.push(attachment);
        Ok(FrameRenderInfo { color_attachments, extent: self.extent, image_index })
    }
}

} // verus!
