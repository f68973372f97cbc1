//! The two-phase render-target protocol.
//!
//! A render target hands out a presentable image (the prelude, or
//! acquire phase) and later shows it (the postlude, or present
//! phase).  Between the two phases the caller records and submits
//! arbitrary GPU work; the target only deals in images and
//! synchronisation handles.  Acquisition may fail transiently (for
//! instance while a window is minimised); the frame is then skipped
//! silently and no present happens.

use vstd::prelude::*;

use crate::error::RenderError;
use crate::geometry::Extent2d;
use crate::image_state::FrameRenderAttachmentImageStateExternal;

verus! {

/// The per-frame-slot synchronisation pair: `image_available` is
/// signalled once the acquired image may be written, and
/// `render_finished` is signalled once the frame's GPU work is done
/// and is waited on before the image is shown.  Both fields are raw
/// semaphore handles, exclusively owned by the renderer.
#[derive(Clone, Copy, PartialEq, Eq, Structural, Debug)]
pub struct FrameSyncInfo {
    pub image_available: u64,
    pub render_finished: u64,
}

impl FrameSyncInfo {
    /// Bundle two raw semaphore handles into a sync pair.
    pub fn new(image_available: u64, render_finished: u64) -> (r: FrameSyncInfo)
        ensures
            r == (FrameSyncInfo { image_available, render_finished }),
    {
        FrameSyncInfo { image_available, render_finished }
    }
}

/// One color target of a frame: the image and view to render into,
/// its pixel format (a raw format code), and the externally declared
/// states the image is in before this frame's commands and must be in
/// after them.
#[derive(Clone, Copy, PartialEq, Eq, Structural, Debug)]
pub struct FrameRenderAttachment {
    pub image: u64,
    pub image_view: u64,
    pub format: u32,
    pub initial_state: FrameRenderAttachmentImageStateExternal,
    pub final_state: FrameRenderAttachmentImageStateExternal,
}

/// Everything the renderer needs about one acquired frame: the color
/// attachments, the frame extent, and the index of the acquired image
/// within the target's chain (handed back at present time).
pub struct FrameRenderInfo {
    pub color_attachments: Vec<FrameRenderAttachment>,
    pub extent: Extent2d,
    pub image_index: u32,
}

/// The mathematical value of a `FrameRenderInfo`.
pub ghost struct FrameRenderInfoModel {
    pub color_attachments: Seq<FrameRenderAttachment>,
    pub extent: Extent2d,
    pub image_index: u32,
}

impl View for FrameRenderInfo {
    type V = FrameRenderInfoModel;

    open spec fn view(&self) -> FrameRenderInfoModel {
        FrameRenderInfoModel {
            color_attachments: self.color_attachments@,
            extent: self.extent,
            image_index: self.image_index,
        }
    }
}

/// A presentable image chain, seen through the two-phase protocol.
///
/// The ghost functions model the protocol: `acquires` and `presents`
/// count the successful phases, and `next_frame` says whether (and
/// with what frame) the next acquisition succeeds.  Every present
/// follows an acquisition, so `presents` never overtakes `acquires`;
/// `acquire_present_order` obliges each implementation to prove that
/// from its invariant.
pub trait RenderTarget: Sized {
    /// The target's well-formedness invariant.
    spec fn inv(&self) -> bool;

    /// How many images this target has handed out.
    spec fn acquires(&self) -> nat;

    /// How many frames this target has presented.
    spec fn presents(&self) -> nat;

    /// The frame the next acquisition returns, or `None` if the next
    /// acquisition fails.
    spec fn next_frame(&self) -> Option<FrameRenderInfoModel>;

    /// Presents never overtake acquisitions.
    proof fn acquire_present_order(&self)
        requires
            self.inv(),
        ensures
            self.presents() <= self.acquires(),
    ;

    /// Acquire the next presentable image.  On success the returned
    /// image is safe to write once `sync_info.image_available` is
    /// signalled.  On failure the frame must be skipped: nothing may
    /// be submitted or presented against this target this cycle.
    fn render_frame_prelude(&mut self, sync_info: &FrameSyncInfo) -> (r: Result<
        FrameRenderInfo,
        RenderError,
    >)
        requires
            old(self).inv(),
        ensures
            final(self).inv(),
            final(self).presents() == old(self).presents(),
            match r {
                Ok(info) => old(self).next_frame() == Some(info@)
                    && final(self).acquires() == old(self).acquires() + 1,
                Err(_) => old(self).next_frame() is None
                    && final(self).acquires() == old(self).acquires(),
            },
    ;

    /// Present a previously acquired frame, waiting on
    /// `sync_info.render_finished` before the image is shown.
    /// Transient failures inside the presentation mechanism are
    /// absorbed here; the frame still counts as presented.
    fn render_frame_postlude(
        &mut self,
        sync_info: &FrameSyncInfo,
        frame_render_info: FrameRenderInfo,
    )
        requires
            old(self).inv(),
            old(self).presents() < old(self).acquires(),
        ensures
            final(self).inv(),
            final(self).presents() == old(self).presents() + 1,
            final(self).acquires() == old(self).acquires(),
    ;
}

/// Render one frame to a target: acquire, hand the frame to the
/// caller's callback, then present.  If acquisition fails the frame
/// is skipped silently: the callback never runs and nothing is
/// presented.  Returns whether the frame was rendered.
pub fn render_frame<T: RenderTarget, F: FnOnce(&FrameRenderInfo)>(
    target: &mut T,
    sync_info: &FrameSyncInfo,
    f: F,
) -> (rendered: bool)
    requires
        old(target).inv(),
        forall|info: &FrameRenderInfo| call_requires(f, (info,)),
    ensures
        final(target).inv(),
        rendered <==> old(target).next_frame() is Some,
        rendered ==> final(target).presents() == old(target).presents() + 1
            && final(target).acquires() == old(target).acquires() + 1,
        !rendered ==> final(target).presents() == old(target).presents()
            && final(target).acquires() == old(target).acquires(),
{
    proof {
        target.acquire_present_order();
    }
    let r = target.render_frame_prelude(sync_info);
    match r {
        Err(_) => false,
        Ok(frame_render_info) => {
            f(&frame_render_info);
            target.render_frame_postlude(sync_info, frame_render_info);
            true
        },
    }
}

/// A render target backed by caller-provided offscreen images.
///
/// Acquisition always succeeds while the target holds at least one
/// color attachment (and its acquisition counter has room), handing
/// out the same attachment list each frame; presentation only counts
/// the frame.  Useful for headless rendering and for exercising the
/// renderer without a presentation engine.
pub struct OffscreenRenderTarget {
    color_attachments: Vec<FrameRenderAttachment>,
    extent: Extent2d,
    acquired: u64,
    presented: u64,
}

impl OffscreenRenderTarget {
    /// The attachments handed out each frame.
    pub closed spec fn attachments(&self) -> Seq<FrameRenderAttachment> {
        self.color_attachments@
    }

    /// The frame extent handed out each frame.
    pub closed spec fn frame_extent(&self) -> Extent2d {
        self.extent
    }

    /// A target rendering into the given attachments.  With an empty
    /// attachment list every acquisition fails, which makes the
    /// target double as an always-unavailable one.
    pub fn new(color_attachments: Vec<FrameRenderAttachment>, extent: Extent2d) -> (r:
        OffscreenRenderTarget)
        ensures
            r.inv(),
            r.attachments() == color_attachments@,
            r.frame_extent() == extent,
            r.acquires() == 0,
            r.presents() == 0,
            color_attachments@.len() > 0 ==> r.next_frame() == Some(
                FrameRenderInfoModel {
                    color_attachments: color_attachments@,
                    extent,
                    image_index: 0,
                },
            ),
            color_attachments@.len() == 0 ==> r.next_frame() is None,
    {
        OffscreenRenderTarget { color_attachments, extent, acquired: 0, presented: 0 }
    }

    /// How many frames this target has presented.
    pub fn present_count(&self) -> (n: u64)
        ensures
            n == self.presents(),
    {
        self.presented
    }

    /// How many images this target has handed out.
    pub fn acquire_count(&self) -> (n: u64)
        ensures
            n == self.acquires(),
    {
        self.acquired
    }
}

impl RenderTarget for OffscreenRenderTarget {
    closed spec fn inv(&self) -> bool {
        self.presented <= self.acquired
    }

    closed spec fn acquires(&self) -> nat {
        self.acquired as nat
    }

    closed spec fn presents(&self) -> nat {
        self.presented as nat
    }

    closed spec fn next_frame(&self) -> Option<FrameRenderInfoModel> {
        if self.color_attachments@.len() > 0 && self.acquired < u64::MAX {
            Some(
                FrameRenderInfoModel {
                    color_attachments: self.color_attachments@,
                    extent: self.extent,
                    image_index: 0,
                },
            )
        } else {
            None
        }
    }

    proof fn acquire_present_order(&self) {
    }

    fn render_frame_prelude(&mut self, sync_info: &FrameSyncInfo) -> (r: Result<
        FrameRenderInfo,
        RenderError,
    >) {
        if self.color_attachments.len() == 0 || self.acquired == u64::MAX {
            return Err(RenderError::AcquireFailed);
        }
        self.acquired = self.acquired + 1;
        let mut color_attachments: Vec<FrameRenderAttachment> = Vec::new();
        let mut i: usize = 0;
        while i < self.color_attachments.len()
            invariant
                i <= self.color_attachments@.len(),
                color_attachments@ == self.color_attachments@.take(i as int),
            decreases self.color_attachments@.len() - i,
        {
            color_attachments.push(self.color_attachments[i]);
            proof {
                assert(color_attachments@ =~= self.color_attachments@.take(i + 1 as int));
            }
            i = i + 1;
        }
        proof {
            assert(color_attachments@ =~= self.color_attachments@);
        }
        let info = FrameRenderInfo { color_attachments, extent: self.extent, image_index: 0 };
        Ok(info)
    }

    fn render_frame_postlude(
        &mut self,
        sync_info: &FrameSyncInfo,
        frame_render_info: FrameRenderInfo,
    ) {
        self.presented = self.presented + 1;
    }
}

} // verus!
