use void_gpu::api::{BindGroupId, BufferId, DrawModel, IContext, IRenderContext, PipelineId};
use void_gpu::ctx::{ComputeCtx, CtxOut, DrawCmd, RenderCtx};
use void_gpu::gpu::Gpu;
use void_gpu::model::{Material, Mesh, Model};

#[test]
fn render_ctx_finish_carries_five_pieces_unchanged() {
    let mut ctx = RenderCtx::new();
    ctx.set_vertex_buffer(0, BufferId(7));
    ctx.set_index_buffer(BufferId(8));
    ctx.set_bind_group(0, BindGroupId(1));
    ctx.set_bind_group(1, BindGroupId(2));
    ctx.draw(0..6, 0, 0..1);

    match ctx.finish() {
        CtxOut::Render(r) => {
            assert_eq!(r.vertex_buffer, Some((0, BufferId(7))));
            assert_eq!(r.index_buffer, Some(BufferId(8)));
            assert_eq!(r.bind_groups, vec![(0, BindGroupId(1)), (1, BindGroupId(2))]);
            assert_eq!(
                r.draw_cmd,
                Some(DrawCmd {
                    indices_start: 0,
                    indices_end: 6,
                    base_vertex: 0,
                    instances_start: 0,
                    instances_end: 1,
                })
            );
            assert_eq!(r.pipeline, None);
        }
        CtxOut::Compute(_) => panic!("expected a render output"),
    }
}

#[test]
fn later_set_operations_overwrite_earlier_ones() {
    let mut ctx = RenderCtx::new();
    ctx.set_pipeline(PipelineId(1));
    ctx.set_pipeline(PipelineId(2));
    ctx.set_vertex_buffer(0, BufferId(3));
    ctx.set_vertex_buffer(1, BufferId(4));
    ctx.set_index_buffer(BufferId(5));
    ctx.set_index_buffer(BufferId(6));
    ctx.draw(0..3, 0, 0..1);
    ctx.draw(0..9, 2, 0..4);

    assert_eq!(ctx.pipeline, Some(PipelineId(2)));
    assert_eq!(ctx.vertex_buffer, Some((1, BufferId(4))));
    assert_eq!(ctx.index_buffer, Some(BufferId(6)));
    assert_eq!(
        ctx.draw_cmd,
        Some(DrawCmd {
            indices_start: 0,
            indices_end: 9,
            base_vertex: 2,
            instances_start: 0,
            instances_end: 4,
        })
    );
}

#[test]
fn draw_mesh_uses_default_instance_range() {
    let mesh = Mesh {
        vertex_buffer: BufferId(10),
        index_buffer: BufferId(11),
        num_elements: 12,
        material: 0,
    };
    let material = Material { bind_group: BindGroupId(20) };

    let mut ctx = RenderCtx::new();
    ctx.draw_mesh(&mesh, &material, BindGroupId(30));

    assert_eq!(ctx.vertex_buffer, Some((0, BufferId(10))));
    assert_eq!(ctx.index_buffer, Some(BufferId(11)));
    assert_eq!(ctx.bind_groups, vec![(0, BindGroupId(20)), (1, BindGroupId(30))]);
    assert_eq!(
        ctx.draw_cmd,
        Some(DrawCmd {
            indices_start: 0,
            indices_end: 12,
            base_vertex: 0,
            instances_start: 0,
            instances_end: 1,
        })
    );
}

#[test]
fn draw_model_instanced_three_meshes_three_materials() {
    let meshes = vec![
        Mesh { vertex_buffer: BufferId(10), index_buffer: BufferId(11), num_elements: 3, material: 0 },
        Mesh { vertex_buffer: BufferId(20), index_buffer: BufferId(21), num_elements: 6, material: 1 },
        Mesh { vertex_buffer: BufferId(30), index_buffer: BufferId(31), num_elements: 9, material: 2 },
    ];
    let materials = vec![
        Material { bind_group: BindGroupId(100) },
        Material { bind_group: BindGroupId(200) },
        Material { bind_group: BindGroupId(300) },
    ];
    let model = Model { meshes, materials };

    let mut ctx = RenderCtx::new();
    ctx.draw_model_instanced(&model, 0..2, BindGroupId(400));

    // three mesh draws: bind group 0 of each positionally matched material,
    // the camera at slot 1 each time, in storage order
    assert_eq!(
        ctx.bind_groups,
        vec![
            (0, BindGroupId(100)),
            (1, BindGroupId(400)),
            (0, BindGroupId(200)),
            (1, BindGroupId(400)),
            (0, BindGroupId(300)),
            (1, BindGroupId(400)),
        ]
    );
    // the accumulator keeps the buffers and draw command of the last mesh draw
    assert_eq!(ctx.vertex_buffer, Some((0, BufferId(30))));
    assert_eq!(ctx.index_buffer, Some(BufferId(31)));
    assert_eq!(
        ctx.draw_cmd,
        Some(DrawCmd {
            indices_start: 0,
            indices_end: 9,
            base_vertex: 0,
            instances_start: 0,
            instances_end: 2,
        })
    );
}

#[test]
fn compute_ctx_finishes_into_compute_output() {
    let mut ctx = ComputeCtx::new();
    ctx.set_pipeline(PipelineId(5));
    ctx.set_bind_group(0, BindGroupId(6));

    match ctx.finish() {
        CtxOut::Compute(c) => {
            assert_eq!(c.pipeline, Some(PipelineId(5)));
            assert_eq!(c.bind_groups, vec![(0, BindGroupId(6))]);
        }
        CtxOut::Render(_) => panic!("expected a compute output"),
    }
}

#[test]
fn finished_outputs_flow_through_the_ledger() {
    let mut ctx = RenderCtx::new();
    ctx.set_pipeline(PipelineId(1));
    ctx.draw(0..3, 0, 0..1);
    let out = ctx.finish();

    let mut gpu: Gpu<CtxOut> = Gpu::new([5u8; 6]);
    gpu.submit_cmd(out);
    assert_eq!(gpu.len(), 1);

    let batch = gpu.present(Ok(())).unwrap();
    assert_eq!(batch.len(), 1);
    match &batch[0] {
        CtxOut::Render(r) => assert_eq!(r.pipeline, Some(PipelineId(1))),
        CtxOut::Compute(_) => panic!("expected a render output"),
    }
    assert_eq!(gpu.len(), 0);
}

#[test]
fn trait_interface_matches_inherent_behaviour() {
    let mut ctx: RenderCtx = <RenderCtx as IContext>::new();
    IContext::set_pipeline(&mut ctx, PipelineId(3));
    IContext::set_bind_group(&mut ctx, 1, BindGroupId(9));
    IRenderContext::set_vertex_buffer(&mut ctx, 0, BufferId(4));
    IRenderContext::set_index_buffer(&mut ctx, BufferId(5));
    IRenderContext::draw(&mut ctx, 0..3, 0, 0..1);

    match IContext::finish(ctx) {
        CtxOut::Render(r) => {
            assert_eq!(r.pipeline, Some(PipelineId(3)));
            assert_eq!(r.bind_groups, vec![(1, BindGroupId(9))]);
            assert_eq!(r.vertex_buffer, Some((0, BufferId(4))));
            assert_eq!(r.index_buffer, Some(BufferId(5)));
        }
        CtxOut::Compute(_) => panic!("expected a render output"),
    }
}

#[test]
fn draw_model_via_trait_uses_default_instances() {
    let model = Model {
        meshes: vec![Mesh {
            vertex_buffer: BufferId(1),
            index_buffer: BufferId(2),
            num_elements: 4,
            material: 0,
        }],
        materials: vec![Material { bind_group: BindGroupId(3) }],
    };
    let mut ctx = RenderCtx::new();
    DrawModel::draw_model(&mut ctx, &model, BindGroupId(8));

    assert_eq!(
        ctx.draw_cmd,
        Some(DrawCmd {
            indices_start: 0,
            indices_end: 4,
            base_vertex: 0,
            instances_start: 0,
            instances_end: 1,
        })
    );
}
