//! Command recording as a verified data structure.
//!
//! A `CommandBuffer` holds a raw handle and the sequence of commands
//! recorded into it this frame.  Recording is a typestate protocol:
//! `CommandRecorder::begin` opens a recording session and consumes the
//! buffer, `DynamicRenderingRecorder::begin` opens a rendering pass and
//! consumes the session, and the matching `end_rendering` and `end`
//! calls give the enclosing value back.  Every path through the types
//! therefore closes each scope exactly once.  The recorded sequence is
//! data; an unverified driver layer replays it against the graphics
//! API, one call per command.

use vstd::prelude::*;

use crate::geometry::{ClearValue, Rect2d};
use crate::image_state::{FrameRenderAttachmentImageStateExternal, PipelineStage};

verus! {

/// One image transition: a source and a destination (stage, state)
/// pair for a single image.  The driver layer applies it to the
/// image's single color subresource.
#[derive(Clone, Copy, PartialEq, Eq, Structural, Debug)]
pub struct ImageTransition {
    /// Raw handle of the image to transition.
    pub image: u64,
    pub src_stage: PipelineStage,
    pub src_state: FrameRenderAttachmentImageStateExternal,
    pub dst_stage: PipelineStage,
    pub dst_state: FrameRenderAttachmentImageStateExternal,
}

/// How a color attachment's previous contents are treated when a
/// rendering pass begins.
#[derive(Clone, Copy, PartialEq, Eq, Structural, Debug)]
pub enum LoadOp {
    /// Keep the existing contents.
    Load,
    /// Replace the contents with the given clear value.
    Clear(ClearValue),
}

/// One color attachment of a rendering pass: the view to render into
/// and how to treat its previous contents.  Contents are always
/// stored after the pass.
#[derive(Clone, Copy, PartialEq, Eq, Structural, Debug)]
pub struct RenderingAttachment {
    pub image_view: u64,
    pub load_op: LoadOp,
}

/// The parameters of a dynamic rendering pass: the area rendered into
/// and the color attachments, in attachment-index order.
#[derive(Clone, PartialEq, Eq, Debug)]
pub struct RenderingInfo {
    pub render_area: Rect2d,
    pub color_attachments: Vec<RenderingAttachment>,
}

/// One recorded command.
#[derive(Clone, PartialEq, Eq, Debug)]
pub enum CmdOp {
    /// Begin recording (resets the buffer's previous contents).
    Begin { one_time_submit: bool },
    /// A pipeline barrier carrying a batch of image transitions.
    PipelineBarrier { transitions: Vec<ImageTransition> },
    /// Begin a dynamic rendering pass.
    BeginRendering { info: RenderingInfo },
    /// Bind a graphics pipeline, by raw handle.
    BindGraphicsPipeline { pipeline: u64 },
    /// A non-indexed draw.
    Draw { vertex_count: u32, instance_count: u32, first_vertex: u32, first_instance: u32 },
    /// End the innermost rendering pass.
    EndRendering,
    /// End recording.
    End,
}

/// True of commands a draw callback may record inside an open
/// rendering pass.
pub open spec fn is_pass_op(op: CmdOp) -> bool {
    op is BindGraphicsPipeline || op is Draw
}

/// A command buffer: a raw handle plus the commands recorded into it.
pub struct CommandBuffer {
    handle: u64,
    ops: Vec<CmdOp>,
}

/// An open recording session on a command buffer.
pub struct CommandRecorder {
    buf: CommandBuffer,
}

/// An open rendering pass inside an open recording session.
pub struct DynamicRenderingRecorder {
    rec: CommandRecorder,
}

impl CommandBuffer {
    /// The raw handle this buffer records for.
    pub closed spec fn id(&self) -> u64 {
        self.handle
    }

    /// The commands recorded so far.
    pub closed spec fn recorded(&self) -> Seq<CmdOp> {
        self.ops@
    }

    /// Take ownership of a raw command-buffer handle.
    pub fn wrap(handle: u64) -> (r: CommandBuffer)
        ensures
            r.id() == handle,
            r.recorded() == Seq::<CmdOp>::empty(),
    {
        CommandBuffer { handle, ops: Vec::new() }
    }

    /// The raw handle this buffer records for.
    pub fn handle(&self) -> (h: u64)
        ensures
            h == self.id(),
    {
        self.handle
    }

    /// Open a recording session, discarding any previously recorded
    /// commands (recording always restarts a buffer from the top).
    pub fn begin(self, one_time_submit: bool) -> (r: CommandRecorder)
        ensures
            r.id() == self.id(),
            r.recorded() == seq![CmdOp::Begin { one_time_submit }],
    {
        CommandRecorder::begin(self, one_time_submit)
    }

    /// Move the recorded commands out, leaving the buffer empty for
    /// its next frame.
    pub fn take_recording(&mut self) -> (ops: Vec<CmdOp>)
        ensures
            ops@ == old(self).recorded(),
            final(self).recorded() == Seq::<CmdOp>::empty(),
            final(self).id() == old(self).id(),
    {
        let mut taken: Vec<CmdOp> = Vec::new();
        core::mem::swap(&mut taken, &mut self.ops);
        taken
    }
}

impl CommandRecorder {
    /// The raw handle of the underlying buffer.
    pub closed spec fn id(&self) -> u64 {
        self.buf.id()
    }

    /// The commands recorded so far, the opening command included.
    pub closed spec fn recorded(&self) -> Seq<CmdOp> {
        self.buf.recorded()
    }

    /// Open a recording session on the given buffer.  Previously
    /// recorded commands are discarded first, as beginning a buffer
    /// resets it.
    pub fn begin(command_buffer: CommandBuffer, one_time_submit: bool) -> (r: CommandRecorder)
        ensures
            r.id() == command_buffer.id(),
            r.recorded() == seq![CmdOp::Begin { one_time_submit }],
    {
        let mut buf = command_buffer;
        let _discarded = buf.take_recording();
        buf.ops.push(CmdOp::Begin { one_time_submit });
        CommandRecorder { buf }
    }

    /// Record one pipeline barrier carrying the given image
    /// transitions.
    pub fn pipeline_barrier(&mut self, transitions: Vec<ImageTransition>)
        ensures
            final(self).id() == old(self).id(),
            final(self).recorded() == old(self).recorded().push(
                CmdOp::PipelineBarrier { transitions: transitions },
            ),
    {
        self.buf.ops.push(CmdOp::PipelineBarrier { transitions });
    }

    /// Record the given image transitions as a single barrier batch.
    pub fn image_transitions(&mut self, transitions: Vec<ImageTransition>)
        ensures
            final(self).id() == old(self).id(),
            final(self).recorded() == old(self).recorded().push(
                CmdOp::PipelineBarrier { transitions: transitions },
            ),
    {
        self.pipeline_barrier(transitions);
    }

    /// Record a pipeline barrier for a single image transition.
    pub fn image_transition(&mut self, transition: ImageTransition)
        ensures
            final(self).id() == old(self).id(),
            final(self).recorded().len() == old(self).recorded().len() + 1,
            final(self).recorded().last() matches CmdOp::PipelineBarrier { transitions }
                && transitions@ == seq![transition],
            final(self).recorded().take(old(self).recorded().len() as int)
                == old(self).recorded(),
    {
        let mut transitions: Vec<ImageTransition> = Vec::new();
        transitions.push(transition);
        let ghost before = self.recorded();
        self.image_transitions(transitions);
        proof {
            assert(self.recorded().take(before.len() as int) =~= before);
        }
    }

    /// Open a rendering pass with the given parameters.
    pub fn begin_rendering(self, rendering_info: RenderingInfo) -> (r: DynamicRenderingRecorder)
        ensures
            r.id() == self.id(),
            r.recorded() == self.recorded().push(CmdOp::BeginRendering { info: rendering_info }),
    {
        DynamicRenderingRecorder::begin(self, rendering_info)
    }

    /// Close the recording session, giving the buffer back with the
    /// closing command recorded.
    pub fn end(self) -> (r: CommandBuffer)
        ensures
            r.id() == self.id(),
            r.recorded() == self.recorded().push(CmdOp::End),
    {
        let mut buf = self.buf;
        buf.ops.push(CmdOp::End);
        buf
    }
}

impl DynamicRenderingRecorder {
    /// The raw handle of the underlying buffer.
    pub closed spec fn id(&self) -> u64 {
        self.rec.id()
    }

    /// The commands recorded so far.
    pub closed spec fn recorded(&self) -> Seq<CmdOp> {
        self.rec.recorded()
    }

    /// Open a rendering pass inside the given recording session.
    pub fn begin(command_recorder: CommandRecorder, rendering_info: RenderingInfo) -> (r:
        DynamicRenderingRecorder)
        ensures
            r.id() == command_recorder.id(),
            r.recorded() == command_recorder.recorded().push(
                CmdOp::BeginRendering { info: rendering_info },
            ),
    {
        let mut rec = command_recorder;
        rec.buf.ops.push(CmdOp::BeginRendering { info: rendering_info });
        DynamicRenderingRecorder { rec }
    }

    /// Record a graphics-pipeline bind.
    pub fn bind_graphics_pipeline(&mut self, pipeline: u64)
        ensures
            final(self).id() == old(self).id(),
            final(self).recorded() == old(self).recorded().push(
                CmdOp::BindGraphicsPipeline { pipeline },
            ),
    {
        self.rec.buf.ops.push(CmdOp::BindGraphicsPipeline { pipeline });
    }

    /// Record a non-indexed draw.
    pub fn draw(
        &mut self,
        vertex_count: u32,
        instance_count: u32,
        first_vertex: u32,
        first_instance: u32,
    )
        ensures
            final(self).id() == old(self).id(),
            final(self).recorded() == old(self).recorded().push(
                CmdOp::Draw { vertex_count, instance_count, first_vertex, first_instance },
            ),
    {
        self.rec.buf.ops.push(
            CmdOp::Draw { vertex_count, instance_count, first_vertex, first_instance },
        );
    }

    /// Close the rendering pass, giving the session back with the
    /// closing command recorded.
    pub fn end_rendering(self) -> (r: CommandRecorder)
        ensures
            r.id() == self.id(),
            r.recorded() == self.recorded().push(CmdOp::EndRendering),
    {
        let mut rec = self.rec;
        rec.buf.ops.push(CmdOp::EndRendering);
        rec
    }
}

} // verus!
