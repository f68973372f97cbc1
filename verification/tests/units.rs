use frameflight::command_buffer::{CmdOp, CommandBuffer, CommandRecorder, RenderingInfo};
use frameflight::error::RenderError;
use frameflight::geometry::{Extent2d, Offset2d, Rect2d};
use frameflight::image_state::{
    FrameRenderAttachmentImageStateExternal, ImageLayout, PipelineStage, ACCESS_NONE,
};
use frameflight::render_target::FrameSyncInfo;
use frameflight::shader::spirv_words_from_bytes;
use frameflight::window::prefers_dark_title_bar;

#[test]
fn shader_words_reassemble_little_endian() {
    let bytes = vec![0x03u8, 0x02, 0x23, 0x07, 0x00, 0x00, 0x01, 0x00];
    let words = spirv_words_from_bytes(&bytes);
    assert_eq!(words, vec![0x0723_0203u32, 0x0001_0000]);
}

#[test]
fn shader_words_drop_trailing_bytes() {
    let bytes = vec![0xAAu8, 0xBB, 0xCC, 0xDD, 0xEE, 0xFF, 0x11];
    let words = spirv_words_from_bytes(&bytes);
    assert_eq!(words, vec![0xDDCC_BBAAu32]);
    let empty: Vec<u8> = vec![];
    assert_eq!(spirv_words_from_bytes(&empty), Vec::<u32>::new());
}

#[test]
fn dark_title_bar_threshold() {
    assert!(prefers_dark_title_bar(0, 205, 0));
    assert!(!prefers_dark_title_bar(0, 204, 4));
    assert!(!prefers_dark_title_bar(0, 0, 0));
    assert!(prefers_dark_title_bar(255, 255, 255));
}

#[test]
fn error_messages_name_the_failure() {
    assert_eq!(
        RenderError::AcquireFailed.message(),
        "no presentable image could be acquired"
    );
    assert_eq!(
        RenderError::MissingQueueFamily.message(),
        "missing required queue family support"
    );
    assert!(!RenderError::NoSurfaceFormat.message().is_empty());
    assert!(!RenderError::ImageViewCountMismatch.message().is_empty());
    assert!(!RenderError::InvalidImageIndex.message().is_empty());
}

#[test]
fn sync_info_bundles_semaphores() {
    let s = FrameSyncInfo::new(5, 6);
    assert_eq!(s.image_available, 5);
    assert_eq!(s.render_finished, 6);
}

#[test]
fn recording_session_produces_its_commands_in_order() {
    let buf = CommandBuffer::wrap(42);
    assert_eq!(buf.handle(), 42);
    let rec = CommandRecorder::begin(buf, true);
    let info = RenderingInfo {
        render_area: Rect2d {
            offset: Offset2d { x: 0, y: 0 },
            extent: Extent2d { width: 8, height: 8 },
        },
        color_attachments: vec![],
    };
    let mut pass = rec.begin_rendering(info.clone());
    pass.bind_graphics_pipeline(7);
    pass.draw(6, 2, 1, 0);
    let rec = pass.end_rendering();
    let mut buf = rec.end();
    assert_eq!(buf.handle(), 42);
    let ops = buf.take_recording();
    assert_eq!(
        ops,
        vec![
            CmdOp::Begin { one_time_submit: true },
            CmdOp::BeginRendering { info },
            CmdOp::BindGraphicsPipeline { pipeline: 7 },
            CmdOp::Draw { vertex_count: 6, instance_count: 2, first_vertex: 1, first_instance: 0 },
            CmdOp::EndRendering,
            CmdOp::End,
        ]
    );
    let again = buf.take_recording();
    assert!(again.is_empty());
}

#[test]
fn barriers_recorded_as_batches() {
    let state = |layout: ImageLayout| FrameRenderAttachmentImageStateExternal {
        layout,
        access: ACCESS_NONE,
        queue_family: 0,
    };
    let transition = frameflight::command_buffer::ImageTransition {
        image: 5,
        src_stage: PipelineStage::TopOfPipe,
        src_state: state(ImageLayout::Undefined),
        dst_stage: PipelineStage::ColorAttachmentOutput,
        dst_state: state(ImageLayout::General),
    };
    let buf = CommandBuffer::wrap(1);
    let mut rec = buf.begin(true);
    rec.image_transition(transition);
    rec.pipeline_barrier(vec![transition, transition]);
    let mut buf = rec.end();
    let ops = buf.take_recording();
    assert_eq!(ops.len(), 4);
    match &ops[1] {
        CmdOp::PipelineBarrier { transitions } => assert_eq!(transitions.as_slice(), &[transition]),
        _ => panic!("a single transition must become one barrier batch"),
    }
    match &ops[2] {
        CmdOp::PipelineBarrier { transitions } => {
            assert_eq!(transitions.as_slice(), &[transition, transition])
        }
        _ => panic!("a batch of transitions must stay one barrier"),
    }
}

#[test]
fn beginning_a_session_resets_the_buffer() {
    let buf = CommandBuffer::wrap(3);
    let rec = buf.begin(false);
    let mut buf = rec.end();
    let first = buf.take_recording();
    assert_eq!(first, vec![CmdOp::Begin { one_time_submit: false }, CmdOp::End]);
    let rec = buf.begin(true);
    let mut buf = rec.end();
    let second = buf.take_recording();
    assert_eq!(second, vec![CmdOp::Begin { one_time_submit: true }, CmdOp::End]);
}
