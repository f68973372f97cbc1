use frameflight::command_buffer::{CmdOp, LoadOp};
use frameflight::geometry::{ClearValue, Extent2d, Offset2d, Rect2d};
use frameflight::image_state::{
    FrameRenderAttachmentImageStateExternal, ImageLayout, PipelineStage, ACCESS_NONE,
    ACCESS_COLOR_ATTACHMENT_WRITE,
};
use frameflight::primary_renderer::{HostOp, PrimaryRenderer};
use frameflight::render_target::{FrameRenderAttachment, FrameSyncInfo, OffscreenRenderTarget};

fn pass_extent() -> Extent2d {
    Extent2d { width: 800, height: 600 }
}

fn canonical_state() -> FrameRenderAttachmentImageStateExternal {
    FrameRenderAttachmentImageStateExternal {
        layout: ImageLayout::ColorAttachmentOptimal,
        access: ACCESS_COLOR_ATTACHMENT_WRITE,
        queue_family: 0,
    }
}

fn undefined_state() -> FrameRenderAttachmentImageStateExternal {
    FrameRenderAttachmentImageStateExternal {
        layout: ImageLayout::Undefined,
        access: ACCESS_NONE,
        queue_family: 0,
    }
}

fn present_state() -> FrameRenderAttachmentImageStateExternal {
    FrameRenderAttachmentImageStateExternal {
        layout: ImageLayout::PresentSrc,
        access: ACCESS_NONE,
        queue_family: 0,
    }
}

fn attachment(
    image: u64,
    initial: FrameRenderAttachmentImageStateExternal,
    final_state: FrameRenderAttachmentImageStateExternal,
) -> FrameRenderAttachment {
    FrameRenderAttachment {
        image,
        image_view: image + 100,
        format: 50,
        initial_state: initial,
        final_state,
    }
}

fn pass_renderer() -> PrimaryRenderer {
    PrimaryRenderer::new(
        9,
        vec![FrameSyncInfo::new(1, 2), FrameSyncInfo::new(3, 4)],
        vec![11, 12],
        vec![21, 22],
    )
}

fn recorded_ops(script: &[HostOp]) -> &Vec<CmdOp> {
    for op in script {
        if let HostOp::Submit { ops, .. } = op {
            return ops;
        }
    }
    panic!("script holds no submission");
}

fn render_script(renderer: &mut PrimaryRenderer, atts: Vec<FrameRenderAttachment>) -> Vec<HostOp> {
    let mut target = OffscreenRenderTarget::new(atts, pass_extent());
    renderer.render_to_target(&mut target, |rec, _info| rec)
}

#[test]
fn canonical_attachment_needs_no_barrier() {
    let mut renderer = pass_renderer();
    let script = render_script(
        &mut renderer,
        vec![attachment(7, canonical_state(), canonical_state())],
    );
    let ops = recorded_ops(&script);
    let barriers = ops
        .iter()
        .filter(|op| matches!(op, CmdOp::PipelineBarrier { .. }))
        .count();
    assert_eq!(barriers, 0);
}

#[test]
fn noncanonical_attachment_gets_both_barriers() {
    let mut renderer = pass_renderer();
    let script = render_script(
        &mut renderer,
        vec![attachment(7, undefined_state(), present_state())],
    );
    let ops = recorded_ops(&script);
    let begin_pass = ops
        .iter()
        .position(|op| matches!(op, CmdOp::BeginRendering { .. }))
        .expect("pass must open");
    match &ops[begin_pass - 1] {
        CmdOp::PipelineBarrier { transitions } => {
            assert_eq!(transitions.len(), 1);
            let t = &transitions[0];
            assert_eq!(t.image, 7);
            assert_eq!(t.src_stage, PipelineStage::TopOfPipe);
            assert_eq!(t.src_state, undefined_state());
            assert_eq!(t.dst_stage, PipelineStage::ColorAttachmentOutput);
            assert_eq!(t.dst_state, canonical_state());
        }
        _ => panic!("a pre-pass barrier must precede the pass"),
    }
    let end_pass = ops
        .iter()
        .position(|op| matches!(op, CmdOp::EndRendering))
        .expect("pass must close");
    match &ops[end_pass + 1] {
        CmdOp::PipelineBarrier { transitions } => {
            assert_eq!(transitions.len(), 1);
            let t = &transitions[0];
            assert_eq!(t.image, 7);
            assert_eq!(t.src_stage, PipelineStage::TopOfPipe);
            assert_eq!(t.src_state, canonical_state());
            assert_eq!(t.dst_stage, PipelineStage::BottomOfPipe);
            assert_eq!(t.dst_state, present_state());
        }
        _ => panic!("a post-pass barrier must follow the pass"),
    }
}

#[test]
fn barriers_filtered_per_attachment() {
    let mut renderer = pass_renderer();
    let script = render_script(
        &mut renderer,
        vec![
            attachment(7, canonical_state(), canonical_state()),
            attachment(8, undefined_state(), canonical_state()),
        ],
    );
    let ops = recorded_ops(&script);
    let mut barrier_batches = ops.iter().filter_map(|op| match op {
        CmdOp::PipelineBarrier { transitions } => Some(transitions),
        _ => None,
    });
    let pre = barrier_batches.next().expect("one pre-pass barrier expected");
    assert_eq!(pre.len(), 1);
    assert_eq!(pre[0].image, 8);
    assert!(barrier_batches.next().is_none());
}

#[test]
fn clear_value_clears_and_load_loads() {
    let mut renderer = pass_renderer();
    let v = ClearValue { r: 1, g: 2, b: 3, a: 4 };
    renderer.set_clear_value(0, Some(v));
    let script = render_script(
        &mut renderer,
        vec![attachment(7, undefined_state(), present_state())],
    );
    let ops = recorded_ops(&script);
    let info = ops
        .iter()
        .find_map(|op| match op {
            CmdOp::BeginRendering { info } => Some(info),
            _ => None,
        })
        .expect("pass must open");
    assert_eq!(info.color_attachments.len(), 1);
    assert_eq!(info.color_attachments[0].image_view, 107);
    assert_eq!(info.color_attachments[0].load_op, LoadOp::Clear(v));

    renderer.set_clear_value(0, None);
    let script2 = render_script(
        &mut renderer,
        vec![attachment(7, undefined_state(), present_state())],
    );
    let ops2 = recorded_ops(&script2);
    let info2 = ops2
        .iter()
        .find_map(|op| match op {
            CmdOp::BeginRendering { info } => Some(info),
            _ => None,
        })
        .expect("pass must open");
    assert_eq!(info2.color_attachments[0].load_op, LoadOp::Load);
}

#[test]
fn unset_clear_value_loads() {
    let mut renderer = pass_renderer();
    let script = render_script(
        &mut renderer,
        vec![attachment(7, undefined_state(), present_state())],
    );
    let ops = recorded_ops(&script);
    let info = ops
        .iter()
        .find_map(|op| match op {
            CmdOp::BeginRendering { info } => Some(info),
            _ => None,
        })
        .expect("pass must open");
    assert_eq!(info.color_attachments[0].load_op, LoadOp::Load);
}

#[test]
fn clear_table_growth_preserves_lower_entries() {
    let mut renderer = pass_renderer();
    let v = ClearValue { r: 10, g: 20, b: 30, a: 40 };
    let w = ClearValue { r: 50, g: 60, b: 70, a: 80 };
    renderer.set_clear_value(0, Some(v));
    renderer.set_clear_value(5, Some(w));
    assert_eq!(renderer.clear_value(0), Some(v));
    assert_eq!(renderer.clear_value(5), Some(w));
    assert_eq!(renderer.clear_value(1), None);
    assert_eq!(renderer.clear_value(3), None);
    assert_eq!(renderer.clear_value(9), None);
    let script = render_script(
        &mut renderer,
        vec![attachment(7, undefined_state(), present_state())],
    );
    let info = recorded_ops(&script)
        .iter()
        .find_map(|op| match op {
            CmdOp::BeginRendering { info } => Some(info),
            _ => None,
        })
        .expect("pass must open");
    assert_eq!(info.color_attachments[0].load_op, LoadOp::Clear(v));
}

#[test]
fn load_ops_resolved_per_attachment_index() {
    let mut renderer = pass_renderer();
    let w = ClearValue { r: 9, g: 8, b: 7, a: 6 };
    renderer.set_clear_value(1, Some(w));
    let script = render_script(
        &mut renderer,
        vec![
            attachment(7, undefined_state(), present_state()),
            attachment(8, undefined_state(), present_state()),
        ],
    );
    let info = recorded_ops(&script)
        .iter()
        .find_map(|op| match op {
            CmdOp::BeginRendering { info } => Some(info),
            _ => None,
        })
        .expect("pass must open");
    assert_eq!(info.color_attachments.len(), 2);
    assert_eq!(info.color_attachments[0].load_op, LoadOp::Load);
    assert_eq!(info.color_attachments[1].load_op, LoadOp::Clear(w));
}

#[test]
fn render_area_override_applies_until_cleared() {
    let mut renderer = pass_renderer();
    let full = Rect2d { offset: Offset2d { x: 0, y: 0 }, extent: pass_extent() };
    let small = Rect2d {
        offset: Offset2d { x: 10, y: 20 },
        extent: Extent2d { width: 100, height: 50 },
    };

    let script = render_script(
        &mut renderer,
        vec![attachment(7, undefined_state(), present_state())],
    );
    let area = recorded_ops(&script)
        .iter()
        .find_map(|op| match op {
            CmdOp::BeginRendering { info } => Some(info.render_area),
            _ => None,
        })
        .expect("pass must open");
    assert_eq!(area, full);

    renderer.set_render_area(Some(small));
    let script2 = render_script(
        &mut renderer,
        vec![attachment(7, undefined_state(), present_state())],
    );
    let area2 = recorded_ops(&script2)
        .iter()
        .find_map(|op| match op {
            CmdOp::BeginRendering { info } => Some(info.render_area),
            _ => None,
        })
        .expect("pass must open");
    assert_eq!(area2, small);

    renderer.set_render_area(None);
    let script3 = render_script(
        &mut renderer,
        vec![attachment(7, undefined_state(), present_state())],
    );
    let area3 = recorded_ops(&script3)
        .iter()
        .find_map(|op| match op {
            CmdOp::BeginRendering { info } => Some(info.render_area),
            _ => None,
        })
        .expect("pass must open");
    assert_eq!(area3, full);
}
