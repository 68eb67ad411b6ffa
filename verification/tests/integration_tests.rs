use void_gpu::ctx::{CtxOut, RenderCtx};
use void_gpu::gpu::{Gpu, RenderError, SurfaceErrorKind};
use void_gpu::integration::{run_ui_frame, Ui};
use void_gpu::PipelineId;

struct CountingUi {
    inputs_seen: Vec<u32>,
    frames: u32,
}

impl Ui for CountingUi {
    type Event = u32;

    fn handle_input(&mut self, event: &u32) {
        self.inputs_seen.push(*event);
    }

    fn render_ui(&mut self, ctx: &mut RenderCtx) {
        self.frames += 1;
        ctx.set_pipeline(PipelineId(77));
        ctx.draw(0..3, 0, 0..1);
    }
}

#[test]
fn ui_frame_forwards_input_then_runs_hook_once() {
    let mut ui = CountingUi { inputs_seen: vec![], frames: 0 };
    let mut gpu: Gpu<CtxOut> = Gpu::new([6u8; 6]);

    let batch = run_ui_frame(&mut ui, &vec![10, 20], &mut gpu, Ok(())).unwrap();

    assert_eq!(ui.inputs_seen, vec![10, 20]);
    assert_eq!(ui.frames, 1);
    assert_eq!(batch.len(), 1);
    match &batch[0] {
        CtxOut::Render(r) => assert_eq!(r.pipeline, Some(PipelineId(77))),
        CtxOut::Compute(_) => panic!("expected a render output"),
    }
    assert_eq!(gpu.len(), 0);
}

#[test]
fn ui_frame_keeps_output_on_failed_acquisition() {
    let mut ui = CountingUi { inputs_seen: vec![], frames: 0 };
    let mut gpu: Gpu<CtxOut> = Gpu::new([6u8; 6]);

    let r = run_ui_frame(&mut ui, &vec![], &mut gpu, Err(SurfaceErrorKind::Lost));

    assert!(matches!(r, Err(RenderError::SurfaceError(SurfaceErrorKind::Lost))));
    assert_eq!(ui.frames, 1);
    assert_eq!(gpu.len(), 1);

    let batch = gpu.present(Ok(())).unwrap();
    assert_eq!(batch.len(), 1);
    match &batch[0] {
        CtxOut::Render(r) => assert_eq!(r.pipeline, Some(PipelineId(77))),
        CtxOut::Compute(_) => panic!("expected a render output"),
    }
}
