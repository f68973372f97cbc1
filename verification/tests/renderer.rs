use frameflight::command_buffer::CmdOp;
use frameflight::geometry::Extent2d;
use frameflight::image_state::{
    FrameRenderAttachmentImageStateExternal, ImageLayout, ACCESS_NONE,
};
use frameflight::primary_renderer::{HostOp, PrimaryRenderer};
use frameflight::render_target::{
    render_frame, FrameRenderAttachment, FrameSyncInfo, OffscreenRenderTarget, RenderTarget,
};

fn frame_extent() -> Extent2d {
    Extent2d { width: 640, height: 480 }
}

fn presentable_attachment() -> FrameRenderAttachment {
    FrameRenderAttachment {
        image: 7,
        image_view: 8,
        format: 50,
        initial_state: FrameRenderAttachmentImageStateExternal {
            layout: ImageLayout::Undefined,
            access: ACCESS_NONE,
            queue_family: 0,
        },
        final_state: FrameRenderAttachmentImageStateExternal {
            layout: ImageLayout::PresentSrc,
            access: ACCESS_NONE,
            queue_family: 0,
        },
    }
}

fn test_renderer() -> PrimaryRenderer {
    PrimaryRenderer::new(
        9,
        vec![FrameSyncInfo::new(1, 2), FrameSyncInfo::new(3, 4)],
        vec![11, 12],
        vec![21, 22],
    )
}

fn submit_ops(script: &[HostOp]) -> &Vec<CmdOp> {
    for op in script {
        if let HostOp::Submit { ops, .. } = op {
            return ops;
        }
    }
    panic!("script holds no submission");
}

#[test]
fn five_frame_round_trip() {
    let mut renderer = test_renderer();
    let mut target = OffscreenRenderTarget::new(vec![presentable_attachment()], frame_extent());
    let expected_slots = [0usize, 1, 0, 1, 0];
    for k in 0..5usize {
        assert_eq!(renderer.current_frame(), expected_slots[k]);
        let script = renderer.render_to_target(&mut target, |rec, _info| rec);
        let submissions = script
            .iter()
            .filter(|op| matches!(op, HostOp::Submit { .. }))
            .count();
        assert_eq!(submissions, 1);
        assert_eq!(target.present_count(), (k + 1) as u64);
    }
    assert_eq!(target.present_count(), 5);
    assert_eq!(target.acquire_count(), 5);
    assert_eq!(renderer.current_frame(), 1);
}

#[test]
fn fence_wait_precedes_submission() {
    let mut renderer = test_renderer();
    let mut target = OffscreenRenderTarget::new(vec![presentable_attachment()], frame_extent());
    let script = renderer.render_to_target(&mut target, |rec, _info| rec);
    assert_eq!(script.len(), 3);
    assert!(matches!(script[0], HostOp::WaitFence { fence: 11 }));
    assert!(matches!(script[1], HostOp::ResetFence { fence: 11 }));
    match &script[2] {
        HostOp::Submit {
            queue,
            command_buffer,
            wait_semaphore,
            signal_semaphore,
            signal_fence,
            ..
        } => {
            assert_eq!(*queue, 9);
            assert_eq!(*command_buffer, 21);
            assert_eq!(*wait_semaphore, 1);
            assert_eq!(*signal_semaphore, 2);
            assert_eq!(*signal_fence, 11);
        }
        _ => panic!("third operation must be the submission"),
    }
    let script2 = renderer.render_to_target(&mut target, |rec, _info| rec);
    assert!(matches!(script2[0], HostOp::WaitFence { fence: 12 }));
    assert!(matches!(script2[1], HostOp::ResetFence { fence: 12 }));
    match &script2[2] {
        HostOp::Submit {
            command_buffer,
            wait_semaphore,
            signal_semaphore,
            signal_fence,
            ..
        } => {
            assert_eq!(*command_buffer, 22);
            assert_eq!(*wait_semaphore, 3);
            assert_eq!(*signal_semaphore, 4);
            assert_eq!(*signal_fence, 12);
        }
        _ => panic!("third operation must be the submission"),
    }
}

#[test]
fn failed_acquire_skips_frame() {
    let mut renderer = test_renderer();
    let mut empty_target = OffscreenRenderTarget::new(vec![], frame_extent());
    let script = renderer.render_to_target(&mut empty_target, |rec, _info| rec);
    assert_eq!(script.len(), 2);
    assert!(matches!(script[0], HostOp::WaitFence { fence: 11 }));
    assert!(matches!(script[1], HostOp::ResetFence { fence: 11 }));
    assert_eq!(empty_target.present_count(), 0);
    assert_eq!(empty_target.acquire_count(), 0);
    assert_eq!(renderer.current_frame(), 1);
    let mut good_target = OffscreenRenderTarget::new(vec![presentable_attachment()], frame_extent());
    let script2 = renderer.render_to_target(&mut good_target, |rec, _info| rec);
    assert!(matches!(script2[0], HostOp::WaitFence { fence: 12 }));
    assert!(matches!(script2[1], HostOp::ResetFence { fence: 12 }));
    assert!(matches!(script2[2], HostOp::Submit { .. }));
    assert_eq!(good_target.present_count(), 1);
}

#[test]
fn recording_scopes_close_with_empty_callback() {
    let mut renderer = test_renderer();
    let mut target = OffscreenRenderTarget::new(vec![presentable_attachment()], frame_extent());
    let script = renderer.render_to_target(&mut target, |rec, _info| rec);
    let ops = submit_ops(&script);
    let ends = ops.iter().filter(|op| matches!(op, CmdOp::End)).count();
    let end_renderings = ops
        .iter()
        .filter(|op| matches!(op, CmdOp::EndRendering))
        .count();
    let begins = ops
        .iter()
        .filter(|op| matches!(op, CmdOp::Begin { .. }))
        .count();
    let begin_renderings = ops
        .iter()
        .filter(|op| matches!(op, CmdOp::BeginRendering { .. }))
        .count();
    assert_eq!(ends, 1);
    assert_eq!(end_renderings, 1);
    assert_eq!(begins, 1);
    assert_eq!(begin_renderings, 1);
    assert!(matches!(ops[0], CmdOp::Begin { one_time_submit: true }));
    assert!(matches!(ops[ops.len() - 1], CmdOp::End));
}

#[test]
fn callback_draws_recorded_inside_pass() {
    let mut renderer = test_renderer();
    let mut target = OffscreenRenderTarget::new(vec![presentable_attachment()], frame_extent());
    let script = renderer.render_to_target(&mut target, |mut rec, _info| {
        rec.bind_graphics_pipeline(77);
        rec.draw(3, 1, 0, 0);
        rec
    });
    let ops = submit_ops(&script);
    let begin_pass = ops
        .iter()
        .position(|op| matches!(op, CmdOp::BeginRendering { .. }))
        .expect("pass must open");
    assert_eq!(
        ops[begin_pass + 1],
        CmdOp::BindGraphicsPipeline { pipeline: 77 }
    );
    assert_eq!(
        ops[begin_pass + 2],
        CmdOp::Draw { vertex_count: 3, instance_count: 1, first_vertex: 0, first_instance: 0 }
    );
    assert_eq!(ops[begin_pass + 3], CmdOp::EndRendering);
}

#[test]
fn render_frame_presents_on_success() {
    let sync = FrameSyncInfo::new(1, 2);
    let mut target = OffscreenRenderTarget::new(vec![presentable_attachment()], frame_extent());
    let rendered = render_frame(&mut target, &sync, |info| {
        assert_eq!(info.color_attachments.len(), 1);
        assert_eq!(info.image_index, 0);
    });
    assert!(rendered);
    assert_eq!(target.present_count(), 1);
    assert_eq!(target.acquire_count(), 1);
}

#[test]
fn render_frame_skips_on_failure() {
    let sync = FrameSyncInfo::new(1, 2);
    let mut target = OffscreenRenderTarget::new(vec![], frame_extent());
    let rendered = render_frame(&mut target, &sync, |_info| {
        panic!("the callback must not run on a failed acquisition");
    });
    assert!(!rendered);
    assert_eq!(target.present_count(), 0);
    assert_eq!(target.acquire_count(), 0);
}

#[test]
fn prelude_reports_failed_acquire() {
    let sync = FrameSyncInfo::new(1, 2);
    let mut target = OffscreenRenderTarget::new(vec![], frame_extent());
    let r = target.render_frame_prelude(&sync);
    assert!(matches!(r, Err(frameflight::error::RenderError::AcquireFailed)));
}
