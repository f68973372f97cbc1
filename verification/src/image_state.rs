//! Image usage states as the renderer tracks them: a layout, an
//! access mask and an owning queue family, together with the pipeline
//! stages a transition synchronises against.

use vstd::prelude::*;

verus! {

/// No access.
pub const ACCESS_NONE: u64 = 0;

/// Write access as a color attachment (the raw graphics-API mask bit).
pub const ACCESS_COLOR_ATTACHMENT_WRITE: u64 = 0x100;

/// The image layouts the renderer distinguishes.
#[derive(Clone, Copy, PartialEq, Eq, Structural, Debug)]
pub enum ImageLayout {
    /// Contents undefined; the cheapest source of a transition.
    Undefined,
    /// Usable for any access, unoptimised.
    General,
    /// Optimal for color-attachment writes.
    ColorAttachmentOptimal,
    /// Optimal for shader reads.
    ShaderReadOnlyOptimal,
    /// Ready to be handed to the presentation engine.
    PresentSrc,
}

/// The pipeline stages a barrier can synchronise against.
#[derive(Clone, Copy, PartialEq, Eq, Structural, Debug)]
pub enum PipelineStage {
    TopOfPipe,
    ColorAttachmentOutput,
    BottomOfPipe,
}

/// The externally declared state of an attachment image: its layout,
/// the accesses that may be in flight, and the owning queue family.
#[derive(Clone, Copy, PartialEq, Eq, Structural, Debug)]
pub struct FrameRenderAttachmentImageStateExternal {
    pub layout: ImageLayout,
    pub access: u64,
    pub queue_family: u32,
}

impl FrameRenderAttachmentImageStateExternal {
    /// The canonical writable state a rendering pass works in:
    /// color-attachment-optimal layout, color-attachment-write access,
    /// queue family zero.  An attachment already declared in this
    /// state needs no transition around the pass.
    pub open spec fn spec_canonical_write() -> FrameRenderAttachmentImageStateExternal {
        FrameRenderAttachmentImageStateExternal {
            layout: ImageLayout::ColorAttachmentOptimal,
            access: ACCESS_COLOR_ATTACHMENT_WRITE,
            queue_family: 0,
        }
    }

    /// The canonical writable state a rendering pass works in.
    pub fn canonical_write() -> (r: FrameRenderAttachmentImageStateExternal)
        ensures
            r == FrameRenderAttachmentImageStateExternal::spec_canonical_write(),
    {
        FrameRenderAttachmentImageStateExternal {
            layout: ImageLayout::ColorAttachmentOptimal,
            access: ACCESS_COLOR_ATTACHMENT_WRITE,
            queue_family: 0,
        }
    }
}

} // verus!
