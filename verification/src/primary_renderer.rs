//! The frame orchestrator.
//!
//! A `PrimaryRenderer` owns one set of recording resources per frame
//! slot — a sync pair, a completion fence and a command buffer — and
//! cycles through the slots round-robin.  Each cycle it emits a
//! script of host operations: wait on the slot's completion fence and
//! reset it (the sole backpressure bounding how far the CPU runs
//! ahead), then, if the target handed out an image, one submission
//! whose recorded commands transition every attachment into the
//! canonical writable state, run the rendering pass (clearing or
//! loading each attachment as configured), and transition every
//! attachment into its declared final state.  Transitions already
//! satisfied by an attachment's declared state are elided.  An
//! unverified driver layer replays the script in order against the
//! graphics API.

use vstd::prelude::*;

use crate::command_buffer::{
    is_pass_op, CmdOp, CommandBuffer, CommandRecorder, DynamicRenderingRecorder, ImageTransition,
    LoadOp, RenderingAttachment, RenderingInfo,
};
use crate::geometry::{ClearValue, Extent2d, Rect2d};
use crate::image_state::{FrameRenderAttachmentImageStateExternal, PipelineStage};
use crate::render_target::{
    FrameRenderAttachment, FrameRenderInfo, FrameRenderInfoModel, FrameSyncInfo, RenderTarget,
};

verus! {

/// How many frames may be in flight at once: the renderer cycles
/// through this many slots of recording resources.
pub const MAX_FRAMES_IN_FLIGHT: usize = 2;

/// One host-side operation of a frame script.  The driver layer
/// performs them in order.
#[derive(Clone, PartialEq, Eq, Debug)]
pub enum HostOp {
    /// Block until the fence is signalled.
    WaitFence { fence: u64 },
    /// Reset the fence to unsignalled.
    ResetFence { fence: u64 },
    /// Submit the recorded commands of one command buffer to a queue:
    /// wait on `wait_semaphore` at `wait_stage`, run the commands,
    /// then signal `signal_semaphore` and `signal_fence`.
    Submit {
        queue: u64,
        command_buffer: u64,
        ops: Vec<CmdOp>,
        wait_semaphore: u64,
        wait_stage: PipelineStage,
        signal_semaphore: u64,
        signal_fence: u64,
    },
}

/// The pre-pass transition for an attachment: from its declared
/// initial state into the canonical writable state, synchronised from
/// the top of the pipe to color-attachment output.
pub open spec fn pre_transition_of(a: FrameRenderAttachment) -> ImageTransition {
    ImageTransition {
        image: a.image,
        src_stage: PipelineStage::TopOfPipe,
        src_state: a.initial_state,
        dst_stage: PipelineStage::ColorAttachmentOutput,
        dst_state: FrameRenderAttachmentImageStateExternal::spec_canonical_write(),
    }
}

/// The post-pass transition for an attachment: from the canonical
/// writable state into its declared final state.
pub open spec fn post_transition_of(a: FrameRenderAttachment) -> ImageTransition {
    ImageTransition {
        image: a.image,
        src_stage: PipelineStage::TopOfPipe,
        src_state: FrameRenderAttachmentImageStateExternal::spec_canonical_write(),
        dst_stage: PipelineStage::BottomOfPipe,
        dst_state: a.final_state,
    }
}

/// The pre-pass transitions of an attachment list, in order, one per
/// attachment whose declared initial state is not already the
/// canonical writable state.
pub open spec fn pre_transitions(atts: Seq<FrameRenderAttachment>) -> Seq<ImageTransition>
    decreases atts.len(),
{
    if atts.len() == 0 {
        Seq::empty()
    } else {
        let rest = pre_transitions(atts.drop_last());
        if atts.last().initial_state
            == FrameRenderAttachmentImageStateExternal::spec_canonical_write() {
            rest
        } else {
            rest.push(pre_transition_of(atts.last()))
        }
    }
}

/// The post-pass transitions of an attachment list, in order, one per
/// attachment whose declared final state is not the canonical
/// writable state.
pub open spec fn post_transitions(atts: Seq<FrameRenderAttachment>) -> Seq<ImageTransition>
    decreases atts.len(),
{
    if atts.len() == 0 {
        Seq::empty()
    } else {
        let rest = post_transitions(atts.drop_last());
        if atts.last().final_state
            == FrameRenderAttachmentImageStateExternal::spec_canonical_write() {
            rest
        } else {
            rest.push(post_transition_of(atts.last()))
        }
    }
}

/// How attachment index `i` treats its previous contents: clear with
/// the configured value if one is set, otherwise load.  Indices the
/// clear-value table does not reach behave as unset.
pub open spec fn load_op_of(clear_values: Seq<Option<ClearValue>>, i: int) -> LoadOp {
    if 0 <= i < clear_values.len() && clear_values[i] is Some {
        LoadOp::Clear(clear_values[i]->0)
    } else {
        LoadOp::Load
    }
}

/// The rendering-pass attachment list matches the frame's attachments
/// and the clear-value table: same order, each rendering into the
/// attachment's view with the load operation the table resolves to.
pub open spec fn rendering_attachments_match(
    ras: Seq<RenderingAttachment>,
    atts: Seq<FrameRenderAttachment>,
    clear_values: Seq<Option<ClearValue>>,
) -> bool {
    &&& ras.len() == atts.len()
    &&& forall|i: int|
        0 <= i < atts.len() ==> ras[i] == (RenderingAttachment {
            image_view: atts[i].image_view,
            load_op: load_op_of(clear_values, i),
        })
}

/// The area a pass renders into: the configured override if one is
/// set, otherwise the full frame extent.
pub open spec fn effective_render_area(render_area: Option<Rect2d>, extent: Extent2d) -> Rect2d {
    match render_area {
        Some(area) => area,
        None => Rect2d::spec_full(extent),
    }
}

/// The rendering-pass parameters match the renderer configuration for
/// the given frame.
pub open spec fn rendering_info_matches(
    info: RenderingInfo,
    atts: Seq<FrameRenderAttachment>,
    clear_values: Seq<Option<ClearValue>>,
    render_area: Option<Rect2d>,
    extent: Extent2d,
) -> bool {
    &&& info.render_area == effective_render_area(render_area, extent)
    &&& rendering_attachments_match(info.color_attachments@, atts, clear_values)
}

/// True of command sequences a draw callback may contribute inside an
/// open rendering pass: pipeline binds and draws only.
pub open spec fn pass_ops_only(ops: Seq<CmdOp>) -> bool {
    forall|i: int| 0 <= i < ops.len() ==> is_pass_op(#[trigger] ops[i])
}

/// A draw callback must extend the recording it is handed: same
/// buffer, the prior recording kept as a prefix, and only pass
/// operations appended.
pub open spec fn rendering_pass_extension(
    rec: DynamicRenderingRecorder,
    out: DynamicRenderingRecorder,
) -> bool {
    &&& out.id() == rec.id()
    &&& out.recorded().len() >= rec.recorded().len()
    &&& out.recorded().take(rec.recorded().len() as int) == rec.recorded()
    &&& pass_ops_only(out.recorded().skip(rec.recorded().len() as int))
}

/// Compute the pre-pass transitions of an attachment list.
pub fn plan_pre_transitions(attachments: &Vec<FrameRenderAttachment>) -> (r: Vec<ImageTransition>)
    ensures
        r@ == pre_transitions(attachments@),
{
    let canonical = FrameRenderAttachmentImageStateExternal::canonical_write();
    let mut r: Vec<ImageTransition> = Vec::new();
    let mut i: usize = 0;
    while i < attachments.len()
        invariant
            i <= attachments@.len(),
            canonical == FrameRenderAttachmentImageStateExternal::spec_canonical_write(),
            r@ == pre_transitions(attachments@.take(i as int)),
        decreases attachments@.len() - i,
    {
        let a = attachments[i];
        if !(a.initial_state == canonical) {
            r.push(
                ImageTransition {
                    image: a.image,
                    src_stage: PipelineStage::TopOfPipe,
                    src_state: a.initial_state,
                    dst_stage: PipelineStage::ColorAttachmentOutput,
                    dst_state: canonical,
                },
            );
        }
        proof {
            let t1 = attachments@.take(i as int + 1);
            assert(t1.drop_last() =~= attachments@.take(i as int));
            assert(t1.last() == attachments@[i as int]);
            assert(r@ == pre_transitions(t1));
        }
        i = i + 1;
    }
    proof {
        assert(attachments@.take(attachments@.len() as int) =~= attachments@);
    }
    r
}

/// Compute the post-pass transitions of an attachment list.
pub fn plan_post_transitions(attachments: &Vec<FrameRenderAttachment>) -> (r: Vec<ImageTransition>)
    ensures
        r@ == post_transitions(attachments@),
{
    let canonical = FrameRenderAttachmentImageStateExternal::canonical_write();
    let mut r: Vec<ImageTransition> = Vec::new();
    let mut i: usize = 0;
    while i < attachments.len()
        invariant
            i <= attachments@.len(),
            canonical == FrameRenderAttachmentImageStateExternal::spec_canonical_write(),
            r@ == post_transitions(attachments@.take(i as int)),
        decreases attachments@.len() - i,
    {
        let a = attachments[i];
        if !(a.final_state == canonical) {
            r.push(
                ImageTransition {
                    image: a.image,
                    src_stage: PipelineStage::TopOfPipe,
                    src_state: canonical,
                    dst_stage: PipelineStage::BottomOfPipe,
                    dst_state: a.final_state,
                },
            );
        }
        proof {
            let t1 = attachments@.take(i as int + 1);
            assert(t1.drop_last() =~= attachments@.take(i as int));
            assert(t1.last() == attachments@[i as int]);
            assert(r@ == post_transitions(t1));
        }
        i = i + 1;
    }
    proof {
        assert(attachments@.take(attachments@.len() as int) =~= attachments@);
    }
    r
}

/// Resolve each attachment of a frame against the clear-value table.
pub fn plan_color_attachments(
    attachments: &Vec<FrameRenderAttachment>,
    clear_values: &Vec<Option<ClearValue>>,
) -> (r: Vec<RenderingAttachment>)
    ensures
        rendering_attachments_match(r@, attachments@, clear_values@),
{
    let mut r: Vec<RenderingAttachment> = Vec::new();
    let mut i: usize = 0;
    while i < attachments.len()
        invariant
            i <= attachments@.len(),
            r@.len() == i,
            forall|j: int|
                0 <= j < i ==> r@[j] == (RenderingAttachment {
                    image_view: attachments@[j].image_view,
                    load_op: load_op_of(clear_values@, j),
                }),
        decreases attachments@.len() - i,
    {
        let load_op: LoadOp = if i < clear_values.len() {
            match clear_values[i] {
                Some(v) => LoadOp::Clear(v),
                None => LoadOp::Load,
            }
        } else {
            LoadOp::Load
        };
        r.push(RenderingAttachment { image_view: attachments[i].image_view, load_op });
        i = i + 1;
    }
    r
}

/// The frame orchestrator: per-slot recording resources, the mutable
/// pass configuration, and the cycling slot cursor.
pub struct PrimaryRenderer {
    graphics_queue: u64,
    frame_sync_infos: Vec<FrameSyncInfo>,
    fences: Vec<u64>,
    command_buffers: Vec<CommandBuffer>,
    render_area: Option<Rect2d>,
    clear_values: Vec<Option<ClearValue>>,
    current_frame: usize,
    frames_completed: Ghost<nat>,
    fences_armed: Ghost<Seq<bool>>,
}

impl PrimaryRenderer {
    /// The raw handle of the queue submissions go to.
    pub closed spec fn queue(&self) -> u64 {
        self.graphics_queue
    }

    /// The per-slot synchronisation pairs.
    pub closed spec fn sync_infos(&self) -> Seq<FrameSyncInfo> {
        self.frame_sync_infos@
    }

    /// The per-slot completion fence handles.
    pub closed spec fn fence_handles(&self) -> Seq<u64> {
        self.fences@
    }

    /// The per-slot command-buffer handles.
    pub closed spec fn buffer_ids(&self) -> Seq<u64> {
        self.command_buffers@.map(|i: int, b: CommandBuffer| b.id())
    }

    /// The configured render-area override.
    pub closed spec fn render_area_spec(&self) -> Option<Rect2d> {
        self.render_area
    }

    /// The clear-value table.
    pub closed spec fn clear_values_spec(&self) -> Seq<Option<ClearValue>> {
        self.clear_values@
    }

    /// The current frame slot.
    pub closed spec fn slot(&self) -> int {
        self.current_frame as int
    }

    /// How many frame cycles have completed, skipped ones included.
    pub closed spec fn completed(&self) -> nat {
        self.frames_completed@
    }

    /// Whether each slot's completion fence is armed: signalled, or
    /// due to be signalled by that slot's last emitted script.  A
    /// fence starts armed (created signalled) and every successful
    /// cycle re-arms it, but a skipped cycle resets it and submits
    /// nothing: the slot's fence then stays unarmed until a later
    /// successful cycle on the same slot, and a wait on it can only
    /// end once that cycle's submission signals it.
    pub closed spec fn fence_armed(&self) -> Seq<bool> {
        self.fences_armed@
    }

    /// The renderer's invariant: one sync pair, fence and command
    /// buffer per slot, the cursor inside the slot range and in step
    /// with the completed-cycle count, and every buffer idle.
    pub closed spec fn inv(&self) -> bool {
        &&& self.frame_sync_infos@.len() == MAX_FRAMES_IN_FLIGHT
        &&& self.fences@.len() == MAX_FRAMES_IN_FLIGHT
        &&& self.command_buffers@.len() == MAX_FRAMES_IN_FLIGHT
        &&& self.current_frame < MAX_FRAMES_IN_FLIGHT
        &&& self.current_frame == self.frames_completed@ % (MAX_FRAMES_IN_FLIGHT as nat)
        &&& self.fences_armed@.len() == MAX_FRAMES_IN_FLIGHT
        &&& forall|i: int|
            0 <= i < self.command_buffers@.len() ==> (#[trigger] self.command_buffers@[i]).recorded()
                == Seq::<CmdOp>::empty()
    }

    /// The two renderers share every per-slot resource and the same
    /// pass configuration.
    pub open spec fn same_configuration(a: PrimaryRenderer, b: PrimaryRenderer) -> bool {
        &&& b.queue() == a.queue()
        &&& b.sync_infos() == a.sync_infos()
        &&& b.fence_handles() == a.fence_handles()
        &&& b.buffer_ids() == a.buffer_ids()
        &&& b.render_area_spec() == a.render_area_spec()
        &&& b.clear_values_spec() == a.clear_values_spec()
    }

    /// The throttle prefix of every frame script: wait on the current
    /// slot's completion fence, then reset it.
    pub open spec fn throttle_ops(&self) -> Seq<HostOp> {
        seq![
            HostOp::WaitFence { fence: self.fence_handles()[self.slot()] },
            HostOp::ResetFence { fence: self.fence_handles()[self.slot()] },
        ]
    }

    /// A renderer over the given per-slot resources: one sync pair,
    /// one completion fence (created signalled, so the first cycle
    /// does not block) and one command-buffer handle per slot.  The
    /// clear-value table starts empty and no render-area override is
    /// set.
    pub fn new(
        graphics_queue: u64,
        frame_sync_infos: Vec<FrameSyncInfo>,
        fences: Vec<u64>,
        command_buffer_handles: Vec<u64>,
    ) -> (r: PrimaryRenderer)
        requires
            frame_sync_infos@.len() == MAX_FRAMES_IN_FLIGHT,
            fences@.len() == MAX_FRAMES_IN_FLIGHT,
            command_buffer_handles@.len() == MAX_FRAMES_IN_FLIGHT,
        ensures
            r.inv(),
            r.queue() == graphics_queue,
            r.sync_infos() == frame_sync_infos@,
            r.fence_handles() == fences@,
            r.buffer_ids() == command_buffer_handles@,
            r.render_area_spec() is None,
            r.clear_values_spec() == Seq::<Option<ClearValue>>::empty(),
            r.slot() == 0,
            r.completed() == 0,
            r.fence_armed() == Seq::new(MAX_FRAMES_IN_FLIGHT as nat, |i: int| true),
    {
        let mut command_buffers: Vec<CommandBuffer> = Vec::new();
        let mut i: usize = 0;
        while i < command_buffer_handles.len()
            invariant
                i <= command_buffer_handles@.len(),
                command_buffers@.len() == i,
                forall|j: int|
                    0 <= j < i ==> (#[trigger] command_buffers@[j]).id()
                        == command_buffer_handles@[j] && command_buffers@[j].recorded()
                        == Seq::<CmdOp>::empty(),
            decreases command_buffer_handles@.len() - i,
        {
            command_buffers.push(CommandBuffer::wrap(command_buffer_handles[i]));
            i = i + 1;
        }
        let r = PrimaryRenderer {
            graphics_queue,
            frame_sync_infos,
            fences,
            command_buffers,
            render_area: None,
            clear_values: Vec::new(),
            current_frame: 0,
            frames_completed: Ghost(0),
            fences_armed: Ghost(Seq::new(MAX_FRAMES_IN_FLIGHT as nat, |i: int| true)),
        };
        proof {
            assert(r.buffer_ids() =~= command_buffer_handles@);
        }
        r
    }

    /// The script prefix that throttles this cycle: wait on the
    /// current slot's completion fence, then reset it.  This is the
    /// only place the render loop blocks.
    pub fn begin_frame(&self) -> (ops: Vec<HostOp>)
        requires
            self.inv(),
        ensures
            ops@ == self.throttle_ops(),
    {
        let fence = self.fences[self.current_frame];
        let mut ops: Vec<HostOp> = Vec::new();
        ops.push(HostOp::WaitFence { fence });
        ops.push(HostOp::ResetFence { fence });
        proof {
            assert(ops@ =~= self.throttle_ops());
        }
        ops
    }

    /// Advance the slot cursor to the next frame slot, wrapping
    /// around after the last.
    pub fn end_frame(&mut self)
        requires
            old(self).inv(),
        ensures
            final(self).inv(),
            PrimaryRenderer::same_configuration(*old(self), *final(self)),
            final(self).slot() == (old(self).slot() + 1) % (MAX_FRAMES_IN_FLIGHT as int),
            final(self).completed() == old(self).completed() + 1,
            final(self).fence_armed() == old(self).fence_armed(),
    {
        self.current_frame = (self.current_frame + 1) % MAX_FRAMES_IN_FLIGHT;
        proof {
            self.frames_completed@ = self.frames_completed@ + 1;
        }
    }

    /// Set or unset the clear value of attachment index `index`,
    /// growing the table as needed; entries the table gains besides
    /// `index` are unset, and every other existing entry is kept.
    /// Takes effect from the next frame on.
    pub fn set_clear_value(&mut self, index: usize, value: Option<ClearValue>)
        requires
            old(self).inv(),
            index < usize::MAX,
        ensures
            final(self).inv(),
            final(self).queue() == old(self).queue(),
            final(self).sync_infos() == old(self).sync_infos(),
            final(self).fence_handles() == old(self).fence_handles(),
            final(self).buffer_ids() == old(self).buffer_ids(),
            final(self).render_area_spec() == old(self).render_area_spec(),
            final(self).slot() == old(self).slot(),
            final(self).completed() == old(self).completed(),
            final(self).fence_armed() == old(self).fence_armed(),
            final(self).clear_values_spec().len() == if index + 1 > old(
                self,
            ).clear_values_spec().len() {
                (index + 1) as int
            } else {
                old(self).clear_values_spec().len() as int
            },
            final(self).clear_values_spec()[index as int] == value,
            forall|j: int|
                0 <= j < final(self).clear_values_spec().len() && j != index
                    ==> final(self).clear_values_spec()[j] == load_table_entry(
                    old(self).clear_values_spec(),
                    j,
                ),
    {
        let ghost target_len: int = if index + 1 > old(self).clear_values_spec().len() {
            (index + 1) as int
        } else {
            old(self).clear_values_spec().len() as int
        };
        while self.clear_values.len() <= index
            invariant
                index < usize::MAX,
                target_len == if index + 1 > old(self).clear_values_spec().len() {
                    (index + 1) as int
                } else {
                    old(self).clear_values_spec().len() as int
                },
                self.clear_values@.len() <= target_len,
                self.clear_values@.len() >= old(self).clear_values_spec().len(),
                self.clear_values@.take(old(self).clear_values_spec().len() as int) == old(
                    self,
                ).clear_values_spec(),
                forall|j: int|
                    old(self).clear_values_spec().len() <= j < self.clear_values@.len()
                        ==> self.clear_values@[j] is None,
                self.frame_sync_infos == old(self).frame_sync_infos,
                self.fences == old(self).fences,
                self.command_buffers == old(self).command_buffers,
                self.render_area == old(self).render_area,
                self.graphics_queue == old(self).graphics_queue,
                self.current_frame == old(self).current_frame,
                self.frames_completed == old(self).frames_completed,
                self.fences_armed == old(self).fences_armed,
            decreases index + 1 - self.clear_values@.len(),
        {
            self.clear_values.push(None);
            proof {
                assert(self.clear_values@.take(old(self).clear_values_spec().len() as int)
                    =~= old(self).clear_values_spec());
            }
        }
        self.clear_values.set(index, value);
    }

    /// Set or unset the render-area override.  Takes effect from the
    /// next frame on.
    pub fn set_render_area(&mut self, area: Option<Rect2d>)
        requires
            old(self).inv(),
        ensures
            final(self).inv(),
            final(self).queue() == old(self).queue(),
            final(self).sync_infos() == old(self).sync_infos(),
            final(self).fence_handles() == old(self).fence_handles(),
            final(self).buffer_ids() == old(self).buffer_ids(),
            final(self).clear_values_spec() == old(self).clear_values_spec(),
            final(self).slot() == old(self).slot(),
            final(self).completed() == old(self).completed(),
            final(self).fence_armed() == old(self).fence_armed(),
            final(self).render_area_spec() == area,
    {
        self.render_area = area;
    }

    /// The current frame slot.
    pub fn current_frame(&self) -> (slot: usize)
        ensures
            slot == self.slot(),
    {
        self.current_frame
    }

    /// The clear value configured for attachment index `index`, with
    /// indices the table does not reach behaving as unset.
    pub fn clear_value(&self, index: usize) -> (r: Option<ClearValue>)
        ensures
            r == load_table_entry(self.clear_values_spec(), index as int),
    {
        if index < self.clear_values.len() {
            self.clear_values[index]
        } else {
            None
        }
    }

    /// The slot cursor cycles round-robin: it always equals the
    /// number of completed cycles modulo the slot count, so the slots
    /// are visited 0, 1, 0, 1, … whether or not cycles are skipped.
    pub proof fn lemma_slot_in_step(&self)
        requires
            self.inv(),
        ensures
            0 <= self.slot() < MAX_FRAMES_IN_FLIGHT as int,
            self.slot() == self.completed() % (MAX_FRAMES_IN_FLIGHT as nat),
    {
    }

    /// Render one frame to `target` and emit this cycle's script.
    ///
    /// The cycle throttles on the current slot's completion fence,
    /// asks the target for an image, and — if one was handed out —
    /// records the frame (pre-pass transitions, the rendering pass
    /// around the caller's draw callback, post-pass transitions),
    /// emits exactly one submission signalling the slot's fence, and
    /// presents.  If acquisition fails the cycle is skipped: the
    /// script holds only the throttle, nothing is submitted, nothing
    /// is presented.  Either way the slot cursor advances.
    ///
    /// The callback receives the open rendering pass and the frame,
    /// and must give the pass back having only appended pass
    /// commands.
    pub fn render_to_target<T: RenderTarget, F: FnOnce(
        DynamicRenderingRecorder,
        &FrameRenderInfo,
    ) -> DynamicRenderingRecorder>(&mut self, target: &mut T, f: F) -> (script: Vec<HostOp>)
        requires
            old(self).inv(),
            old(target).inv(),
            forall|rec: DynamicRenderingRecorder, info: &FrameRenderInfo|
                call_requires(f, (rec, info)),
            forall|rec: DynamicRenderingRecorder, info: &FrameRenderInfo, out:
                DynamicRenderingRecorder|
                call_ensures(f, (rec, info), out) ==> rendering_pass_extension(rec, out),
        ensures
            final(self).inv(),
            final(target).inv(),
            PrimaryRenderer::same_configuration(*old(self), *final(self)),
            final(self).slot() == (old(self).slot() + 1) % (MAX_FRAMES_IN_FLIGHT as int),
            final(self).completed() == old(self).completed() + 1,
            final(self).fence_armed() == old(self).fence_armed().update(
                old(self).slot(),
                old(target).next_frame() is Some,
            ),
            old(target).next_frame() is None ==> script@ == old(self).throttle_ops()
                && final(target).presents() == old(target).presents() && final(target).acquires()
                == old(target).acquires(),
            old(target).next_frame() matches Some(info) ==> final(target).presents() == old(
                target,
            ).presents() + 1 && final(target).acquires() == old(target).acquires() + 1 && (exists|
                pass: Seq<CmdOp>,
            |
                pass_ops_only(pass) && frame_script_shape(script@, *old(self), info, pass)),
    {
        let mut script = self.begin_frame();
        proof {
            target.acquire_present_order();
        }
        let sync_info = self.frame_sync_infos[self.current_frame];
        let r = target.render_frame_prelude(&sync_info);
        match r {
            Err(_) => {
                self.end_frame();
                self.fences_armed = Ghost(self.fences_armed@.update(old(self).slot(), false));
                script
            },
            Ok(frame_render_info) => {
                let ghost info_model = frame_render_info@;
                let pre = plan_pre_transitions(&frame_render_info.color_attachments);
                let post = plan_post_transitions(&frame_render_info.color_attachments);
                let ghost pre_vec = pre;
                let ghost post_vec = post;
                let color_attachments = plan_color_attachments(
                    &frame_render_info.color_attachments,
                    &self.clear_values,
                );
                let render_area = match self.render_area {
                    Some(area) => area,
                    None => Rect2d::full(frame_render_info.extent),
                };
                let has_pre = pre.len() > 0;
                let has_post = post.len() > 0;
                let buf = self.command_buffers.remove(self.current_frame);
                let ghost old_buffers = old(self).command_buffers@;
                let mut rec = CommandRecorder::begin(buf, true);
                if has_pre {
                    rec.image_transitions(pre);
                }
                let rendering_info = RenderingInfo { render_area, color_attachments };
                let ghost rendering_info_model = rendering_info;
                let dyn_rec = rec.begin_rendering(rendering_info);
                let ghost before_pass = dyn_rec.recorded();
                let ghost dyn_in = dyn_rec;
                let dyn_rec = f(dyn_rec, &frame_render_info);
                let ghost dyn_out = dyn_rec;
                let ghost pass = dyn_rec.recorded().skip(before_pass.len() as int);
                proof {
                    assert(rendering_pass_extension(dyn_in, dyn_out));
                }
                let rec2 = dyn_rec.end_rendering();
                let mut rec2 = rec2;
                if has_post {
                    rec2.image_transitions(post);
                }
                let mut buf = rec2.end();
                let ops = buf.take_recording();
                let ghost ops_seq = ops@;
                let buffer_handle = buf.handle();
                self.command_buffers.insert(self.current_frame, buf);
                proof {
                    assert(self.command_buffers@ =~= old_buffers.update(
                        old(self).slot(),
                        self.command_buffers@[old(self).slot()],
                    ));
                    assert(self.buffer_ids() =~= old(self).buffer_ids());
                }
                let fence = self.fences[self.current_frame];
                script.push(
                    HostOp::Submit {
                        queue: self.graphics_queue,
                        command_buffer: buffer_handle,
                        ops,
                        wait_semaphore: sync_info.image_available,
                        wait_stage: PipelineStage::TopOfPipe,
                        signal_semaphore: sync_info.render_finished,
                        signal_fence: fence,
                    },
                );
                target.render_frame_postlude(&sync_info, frame_render_info);
                self.end_frame();
                self.fences_armed = Ghost(self.fences_armed@.update(old(self).slot(), true));
                proof {
                    let atts = info_model.color_attachments;
                    let pre_s = pre_transitions(atts);
                    let post_s = post_transitions(atts);
                    // The recording, segment by segment.
                    assert(before_pass == seq![CmdOp::Begin { one_time_submit: true }] + (
                    if pre_s.len() == 0 {
                        Seq::<CmdOp>::empty()
                    } else {
                        seq![CmdOp::PipelineBarrier { transitions: pre_vec }]
                    }) + seq![CmdOp::BeginRendering { info: rendering_info_model }]) by {
                        if pre_s.len() == 0 {
                            assert(before_pass =~= seq![CmdOp::Begin { one_time_submit: true }]
                                + Seq::<CmdOp>::empty() + seq![
                                CmdOp::BeginRendering { info: rendering_info_model },
                            ]);
                        } else {
                            assert(before_pass =~= seq![CmdOp::Begin { one_time_submit: true }]
                                + seq![CmdOp::PipelineBarrier { transitions: pre_vec }] + seq![
                                CmdOp::BeginRendering { info: rendering_info_model },
                            ]);
                        }
                    }
                    assert(ops_seq =~= before_pass + pass + seq![CmdOp::EndRendering] + (
                    if post_s.len() == 0 {
                        Seq::<CmdOp>::empty()
                    } else {
                        seq![CmdOp::PipelineBarrier { transitions: post_vec }]
                    }) + seq![CmdOp::End]);
                    assert(frame_cmd_ops_shape(
                        ops_seq,
                        atts,
                        old(self).clear_values_spec(),
                        old(self).render_area_spec(),
                        info_model.extent,
                        pass,
                    )) by {
                        let npre: int = if pre_s.len() == 0 {
                            0
                        } else {
                            1
                        };
                        let npost: int = if post_s.len() == 0 {
                            0
                        } else {
                            1
                        };
                        let bi = 1 + npre;
                        let ei = bi + 1 + pass.len();
                        assert(ops_seq.subrange(bi + 1, ei) =~= pass);
                    }
                    assert(script@ =~= old(self).throttle_ops().push(script@[2]));
                    assert(frame_script_shape(script@, *old(self), info_model, pass)) by {
                        assert(script@.take(2) =~= old(self).throttle_ops());
                    }
                    assert(pass_ops_only(pass));
                }
                script
            },
        }
    }
}

/// What the clear-value table holds at index `i`, with absent indices
/// behaving as unset.
pub open spec fn load_table_entry(clear_values: Seq<Option<ClearValue>>, i: int) -> Option<
    ClearValue,
> {
    if 0 <= i < clear_values.len() {
        clear_values[i]
    } else {
        None
    }
}

/// Barrier elision, pre-pass: an attachment whose declared initial
/// state is already the canonical writable state contributes no
/// pre-pass transition.
pub proof fn lemma_pre_barrier_elision(atts: Seq<FrameRenderAttachment>, a: FrameRenderAttachment)
    requires
        a.initial_state == FrameRenderAttachmentImageStateExternal::spec_canonical_write(),
    ensures
        pre_transitions(atts.push(a)) == pre_transitions(atts),
{
    assert(atts.push(a).drop_last() =~= atts);
}

/// Pre-pass transitions are emitted for every attachment whose
/// declared initial state differs from the canonical writable state,
/// in attachment order.
pub proof fn lemma_pre_barrier_needed(atts: Seq<FrameRenderAttachment>, a: FrameRenderAttachment)
    requires
        a.initial_state != FrameRenderAttachmentImageStateExternal::spec_canonical_write(),
    ensures
        pre_transitions(atts.push(a)) == pre_transitions(atts).push(pre_transition_of(a)),
{
    assert(atts.push(a).drop_last() =~= atts);
}

/// Barrier elision, post-pass: an attachment whose declared final
/// state is the canonical writable state contributes no post-pass
/// transition.
pub proof fn lemma_post_barrier_elision(atts: Seq<FrameRenderAttachment>, a: FrameRenderAttachment)
    requires
        a.final_state == FrameRenderAttachmentImageStateExternal::spec_canonical_write(),
    ensures
        post_transitions(atts.push(a)) == post_transitions(atts),
{
    assert(atts.push(a).drop_last() =~= atts);
}

/// Post-pass transitions are emitted for every attachment whose
/// declared final state differs from the canonical writable state,
/// in attachment order.
pub proof fn lemma_post_barrier_needed(atts: Seq<FrameRenderAttachment>, a: FrameRenderAttachment)
    requires
        a.final_state != FrameRenderAttachmentImageStateExternal::spec_canonical_write(),
    ensures
        post_transitions(atts.push(a)) == post_transitions(atts).push(post_transition_of(a)),
{
    assert(atts.push(a).drop_last() =~= atts);
}

/// A frame whose attachments all start in the canonical writable
/// state records no pre-pass barrier at all.
pub proof fn lemma_all_canonical_no_pre_barrier(atts: Seq<FrameRenderAttachment>)
    requires
        forall|i: int|
            0 <= i < atts.len() ==> (#[trigger] atts[i]).initial_state
                == FrameRenderAttachmentImageStateExternal::spec_canonical_write(),
    ensures
        pre_transitions(atts) == Seq::<ImageTransition>::empty(),
    decreases atts.len(),
{
    if atts.len() > 0 {
        lemma_all_canonical_no_pre_barrier(atts.drop_last());
    }
}

/// A frame whose attachments all end in the canonical writable state
/// records no post-pass barrier at all.
pub proof fn lemma_all_canonical_no_post_barrier(atts: Seq<FrameRenderAttachment>)
    requires
        forall|i: int|
            0 <= i < atts.len() ==> (#[trigger] atts[i]).final_state
                == FrameRenderAttachmentImageStateExternal::spec_canonical_write(),
    ensures
        post_transitions(atts) == Seq::<ImageTransition>::empty(),
    decreases atts.len(),
{
    if atts.len() > 0 {
        lemma_all_canonical_no_post_barrier(atts.drop_last());
    }
}

/// Setting one clear-value entry leaves every other attachment
/// index's resolved load operation unchanged, however the table grew,
/// and resolves the set index to the given value.
pub proof fn lemma_set_clear_value_resolution(
    before: Seq<Option<ClearValue>>,
    after: Seq<Option<ClearValue>>,
    index: int,
    value: Option<ClearValue>,
)
    requires
        0 <= index < after.len(),
        after[index] == value,
        forall|j: int|
            0 <= j < after.len() && j != index ==> after[j] == load_table_entry(before, j),
        after.len() >= before.len(),
    ensures
        forall|j: int| j != index ==> load_op_of(after, j) == load_op_of(before, j),
        load_op_of(after, index) == match value {
            Some(v) => LoadOp::Clear(v),
            None => LoadOp::Load,
        },
{
}

/// The exact recording of one successful frame: begin; the pre-pass
/// barrier if any attachment needs one; the rendering pass over the
/// callback's commands; the post-pass barrier if any attachment needs
/// one; end.
pub open spec fn frame_cmd_ops_shape(
    ops: Seq<CmdOp>,
    atts: Seq<FrameRenderAttachment>,
    clear_values: Seq<Option<ClearValue>>,
    render_area: Option<Rect2d>,
    extent: Extent2d,
    pass: Seq<CmdOp>,
) -> bool {
    let pre = pre_transitions(atts);
    let post = post_transitions(atts);
    let npre: int = if pre.len() == 0 {
        0
    } else {
        1
    };
    let npost: int = if post.len() == 0 {
        0
    } else {
        1
    };
    let bi = 1 + npre;
    let ei = bi + 1 + pass.len();
    &&& ops.len() == ei + npost + 2
    &&& ops[0] == (CmdOp::Begin { one_time_submit: true })
    &&& (npre == 1 ==> (ops[1] matches CmdOp::PipelineBarrier { transitions } && transitions@
        == pre))
    &&& (ops[bi] matches CmdOp::BeginRendering { info } && rendering_info_matches(
        info,
        atts,
        clear_values,
        render_area,
        extent,
    ))
    &&& ops.subrange(bi + 1, ei) == pass
    &&& ops[ei] == CmdOp::EndRendering
    &&& (npost == 1 ==> (ops[ei + 1] matches CmdOp::PipelineBarrier { transitions } && transitions@
        == post))
    &&& ops[ei + npost + 1] == CmdOp::End
}

/// The exact script of one successful frame cycle of `renderer`:
/// throttle on the slot's fence, then one submission of the frame's
/// recording to the renderer's queue, waiting on the slot's
/// image-available semaphore at the top of the pipe and signalling
/// the slot's render-finished semaphore and completion fence.
pub open spec fn frame_script_shape(
    script: Seq<HostOp>,
    renderer: PrimaryRenderer,
    info: FrameRenderInfoModel,
    pass: Seq<CmdOp>,
) -> bool {
    let slot = renderer.slot();
    let fence = renderer.fence_handles()[slot];
    let sync = renderer.sync_infos()[slot];
    &&& script.len() == 3
    &&& script.take(2) == renderer.throttle_ops()
    &&& (script[2] matches HostOp::Submit {
        queue,
        command_buffer,
        ops,
        wait_semaphore,
        wait_stage,
        signal_semaphore,
        signal_fence,
    } && queue == renderer.queue() && command_buffer == renderer.buffer_ids()[slot]
        && wait_semaphore == sync.image_available && wait_stage == PipelineStage::TopOfPipe
        && signal_semaphore == sync.render_finished && signal_fence == fence
        && frame_cmd_ops_shape(
        ops@,
        info.color_attachments,
        renderer.clear_values_spec(),
        renderer.render_area_spec(),
        info.extent,
        pass,
    ))
}

/// Fence throttle: every frame script first waits on the current
/// slot's completion fence and resets it, and only then — as its sole
/// submission — hands the slot's command buffer back to the GPU,
/// signalling that same fence again.  The slot's resources are thus
/// never re-recorded before their previous use is observed complete.
pub proof fn lemma_fence_throttle(
    script: Seq<HostOp>,
    renderer: PrimaryRenderer,
    info: FrameRenderInfoModel,
    pass: Seq<CmdOp>,
)
    requires
        frame_script_shape(script, renderer, info, pass),
    ensures
        script.len() == 3,
        script[0] == (HostOp::WaitFence { fence: renderer.fence_handles()[renderer.slot()] }),
        script[1] == (HostOp::ResetFence { fence: renderer.fence_handles()[renderer.slot()] }),
        forall|i: int| 0 <= i < script.len() && #[trigger] script[i] is Submit ==> i == 2,
        script[2] matches HostOp::Submit { command_buffer, signal_fence, .. } && command_buffer
            == renderer.buffer_ids()[renderer.slot()] && signal_fence
            == renderer.fence_handles()[renderer.slot()],
{
    assert(script[0] == script.take(2)[0]);
    assert(script[1] == script.take(2)[1]);
}

/// A skipped cycle's script is the throttle alone: the fence is
/// waited on and reset exactly once, and nothing is submitted.
pub proof fn lemma_skip_script_no_submission(renderer: PrimaryRenderer)
    requires
        renderer.inv(),
    ensures
        renderer.throttle_ops().len() == 2,
        renderer.throttle_ops()[0] == (HostOp::WaitFence {
            fence: renderer.fence_handles()[renderer.slot()],
        }),
        renderer.throttle_ops()[1] == (HostOp::ResetFence {
            fence: renderer.fence_handles()[renderer.slot()],
        }),
        forall|i: int|
            0 <= i < renderer.throttle_ops().len() ==> !(#[trigger] renderer.throttle_ops()[i]
                is Submit),
{
}

/// Scoped recording always closes: a frame's recording ends with the
/// end-of-recording command, issued exactly once, and contains the
/// end-of-pass command exactly once — also when the draw callback
/// recorded nothing.
pub proof fn lemma_recording_scopes_close(
    ops: Seq<CmdOp>,
    atts: Seq<FrameRenderAttachment>,
    clear_values: Seq<Option<ClearValue>>,
    render_area: Option<Rect2d>,
    extent: Extent2d,
    pass: Seq<CmdOp>,
)
    requires
        frame_cmd_ops_shape(ops, atts, clear_values, render_area, extent, pass),
        pass_ops_only(pass),
    ensures
        ops.len() > 0,
        ops[ops.len() - 1] == CmdOp::End,
        forall|j: int| 0 <= j < ops.len() - 1 ==> #[trigger] ops[j] != CmdOp::End,
        exists|ei: int|
            0 <= ei < ops.len() && ops[ei] == CmdOp::EndRendering && (forall|j: int|
                0 <= j < ops.len() && j != ei ==> #[trigger] ops[j] != CmdOp::EndRendering),
{
    let pre = pre_transitions(atts);
    let post = post_transitions(atts);
    let npre: int = if pre.len() == 0 {
        0
    } else {
        1
    };
    let npost: int = if post.len() == 0 {
        0
    } else {
        1
    };
    let bi = 1 + npre;
    let ei = bi + 1 + pass.len();
    assert forall|j: int| 0 <= j < ops.len() && j != ei implies #[trigger] ops[j]
        != CmdOp::EndRendering by {
        if bi + 1 <= j < ei {
            assert(ops[j] == ops.subrange(bi + 1, ei)[j - (bi + 1)]);
            assert(is_pass_op(pass[j - (bi + 1)]));
        }
    }
    assert forall|j: int| 0 <= j < ops.len() - 1 implies #[trigger] ops[j] != CmdOp::End by {
        if bi + 1 <= j < ei {
            assert(ops[j] == ops.subrange(bi + 1, ei)[j - (bi + 1)]);
            assert(is_pass_op(pass[j - (bi + 1)]));
        }
    }
    assert(0 <= ei < ops.len() && ops[ei] == CmdOp::EndRendering);
}

} // verus!
