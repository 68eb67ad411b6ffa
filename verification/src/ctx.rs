//! The recording contexts: per-session accumulators of draw or compute state.
//!
//! A context starts empty, takes set-operations and at most one pending draw
//! command, and is consumed exactly once by `finish`, which moves the whole
//! accumulated state into a finished output unit.  A ghost log of the
//! operations applied so far lets the derived draw helpers state exactly
//! which primitive steps they issue, and in what order.

use vstd::prelude::*;

verus! {

use crate::api::{
    BindGroupId,
    BufferId,
    DrawModel,
    IComputeContext,
    IContext,
    ICtxOut,
    IRenderContext,
    PipelineId,
};
use crate::model::{Material, Mesh, Model};

/// One primitive recording step, as the ghost operation log records it.
pub enum CtxOp {
    SetPipeline(PipelineId),
    SetBindGroup(u32, BindGroupId),
    SetVertexBuffer(u32, BufferId),
    SetIndexBuffer(BufferId),
    /// Index range start and end, base vertex, instance range start and end.
    Draw(u32, u32, i32, u32, u32),
}

/// The pending draw command of a context: index range, base vertex, instance
/// range.
#[derive(Clone, Copy, Debug, PartialEq, Eq, Structural)]
pub struct DrawCmd {
    pub indices_start: u32,
    pub indices_end: u32,
    pub base_vertex: i32,
    pub instances_start: u32,
    pub instances_end: u32,
}

/// The draw command with the given index range, base vertex and instance
/// range.
pub open spec fn draw_cmd_of(
    indices_start: u32,
    indices_end: u32,
    base_vertex: i32,
    instances_start: u32,
    instances_end: u32,
) -> DrawCmd {
    DrawCmd {
        indices_start,
        indices_end,
        base_vertex,
        instances_start,
        instances_end,
    }
}

/// The five primitive steps of one mesh draw: vertex buffer to slot 0, the
/// index buffer, the material's bind group to slot 0, the camera's bind group
/// to slot 1, and a draw of the mesh's whole index range.
pub open spec fn mesh_draw_ops(
    mesh: Mesh,
    material: Material,
    instances_start: u32,
    instances_end: u32,
    camera_bind_group: BindGroupId,
) -> Seq<CtxOp> {
    seq![
        CtxOp::SetVertexBuffer(0, mesh.vertex_buffer),
        CtxOp::SetIndexBuffer(mesh.index_buffer),
        CtxOp::SetBindGroup(0, material.bind_group),
        CtxOp::SetBindGroup(1, camera_bind_group),
        CtxOp::Draw(0, mesh.num_elements, 0, instances_start, instances_end),
    ]
}

/// The steps of a whole model draw: one mesh draw per mesh, in storage order,
/// each resolving its material by the mesh's positional material index.
pub open spec fn model_draw_ops(
    meshes: Seq<Mesh>,
    materials: Seq<Material>,
    instances_start: u32,
    instances_end: u32,
    camera_bind_group: BindGroupId,
) -> Seq<CtxOp>
    decreases meshes.len(),
{
    if meshes.len() == 0 {
        Seq::<CtxOp>::empty()
    } else {
        model_draw_ops(
            meshes.drop_last(),
            materials,
            instances_start,
            instances_end,
            camera_bind_group,
        ) + mesh_draw_ops(
            meshes.last(),
            materials[meshes.last().material as int],
            instances_start,
            instances_end,
            camera_bind_group,
        )
    }
}

/// The (slot, bind group) pairs a model draw appends: for each mesh in
/// storage order, its positionally resolved material's bind group at slot 0,
/// then the camera's bind group at slot 1.
pub open spec fn model_bind_pairs(
    meshes: Seq<Mesh>,
    materials: Seq<Material>,
    camera_bind_group: BindGroupId,
) -> Seq<(u32, BindGroupId)>
    decreases meshes.len(),
{
    if meshes.len() == 0 {
        Seq::<(u32, BindGroupId)>::empty()
    } else {
        model_bind_pairs(meshes.drop_last(), materials, camera_bind_group).push(
            (0u32, materials[meshes.last().material as int].bind_group),
        ).push((1u32, camera_bind_group))
    }
}

/// A per-recording-session accumulator of render state.
///
/// Exclusively owned by the thread that created it; the only shared data it
/// ever touches are the opaque handles it stores.  Consumed by `finish`.
pub struct RenderCtx {
    /// The (slot, bind group) pairs in call order; all calls are retained,
    /// the backend observes the last write per slot.
    pub bind_groups: Vec<(u32, BindGroupId)>,
    /// The (slot, buffer) pair of the most recent `set_vertex_buffer`.
    pub vertex_buffer: Option<(u32, BufferId)>,
    /// The buffer of the most recent `set_index_buffer`.
    pub index_buffer: Option<BufferId>,
    /// The pipeline of the most recent `set_pipeline`.
    pub pipeline: Option<PipelineId>,
    /// The single pending draw command; a later `draw` overwrites it.
    pub draw_cmd: Option<DrawCmd>,
    /// Ghost log of every primitive step applied so far, in order.
    pub ops: Ghost<Seq<CtxOp>>,
}

/// A finished output unit: the closed variant over render and compute
/// recordings that the ledger accepts.
pub enum CtxOut {
    Render(RenderCtx),
    Compute(ComputeCtx),
}

impl ICtxOut for CtxOut {

}

impl RenderCtx {
    /// A fresh context holding no state and an empty operation log.
    pub fn new() -> (r: Self)
        ensures
            r.bind_groups@ == Seq::<(u32, BindGroupId)>::empty(),
            r.vertex_buffer is None,
            r.index_buffer is None,
            r.pipeline is None,
            r.draw_cmd is None,
            r.ops@ == Seq::<CtxOp>::empty(),
    {
        RenderCtx {
            bind_groups: Vec::new(),
            vertex_buffer: None,
            index_buffer: None,
            pipeline: None,
            draw_cmd: None,
            ops: Ghost(Seq::empty()),
        }
    }

    /// Makes `pipeline` the context's pipeline, replacing any earlier choice.
    pub fn set_pipeline(&mut self, pipeline: PipelineId)
        ensures
            final(self).pipeline == Some(pipeline),
            final(self).bind_groups@ == old(self).bind_groups@,
            final(self).vertex_buffer == old(self).vertex_buffer,
            final(self).index_buffer == old(self).index_buffer,
            final(self).draw_cmd == old(self).draw_cmd,
            final(self).ops@ == old(self).ops@.push(CtxOp::SetPipeline(pipeline)),
    {
        self.pipeline = Some(pipeline);
        self.ops = Ghost(self.ops@.push(CtxOp::SetPipeline(pipeline)));
    }

    /// Appends the binding of `group` at `slot`; every call is retained, in
    /// order, and the last write per slot is the one the backend observes.
    pub fn set_bind_group(&mut self, slot: u32, group: BindGroupId)
        ensures
            final(self).bind_groups@ == old(self).bind_groups@.push((slot, group)),
            final(self).vertex_buffer == old(self).vertex_buffer,
            final(self).index_buffer == old(self).index_buffer,
            final(self).pipeline == old(self).pipeline,
            final(self).draw_cmd == old(self).draw_cmd,
            final(self).ops@ == old(self).ops@.push(CtxOp::SetBindGroup(slot, group)),
    {
        self.bind_groups.push((slot, group));
        self.ops = Ghost(self.ops@.push(CtxOp::SetBindGroup(slot, group)));
    }

    /// Makes `buffer` the vertex buffer at `slot`, replacing any earlier one.
    pub fn set_vertex_buffer(&mut self, slot: u32, buffer: BufferId)
        ensures
            final(self).vertex_buffer == Some((slot, buffer)),
            final(self).bind_groups@ == old(self).bind_groups@,
            final(self).index_buffer == old(self).index_buffer,
            final(self).pipeline == old(self).pipeline,
            final(self).draw_cmd == old(self).draw_cmd,
            final(self).ops@ == old(self).ops@.push(CtxOp::SetVertexBuffer(slot, buffer)),
    {
        self.vertex_buffer = Some((slot, buffer));
        self.ops = Ghost(self.ops@.push(CtxOp::SetVertexBuffer(slot, buffer)));
    }

    /// Makes `buffer` the index buffer, replacing any earlier one.
    pub fn set_index_buffer(&mut self, buffer: BufferId)
        ensures
            final(self).index_buffer == Some(buffer),
            final(self).bind_groups@ == old(self).bind_groups@,
            final(self).vertex_buffer == old(self).vertex_buffer,
            final(self).pipeline == old(self).pipeline,
            final(self).draw_cmd == old(self).draw_cmd,
            final(self).ops@ == old(self).ops@.push(CtxOp::SetIndexBuffer(buffer)),
    {
        self.index_buffer = Some(buffer);
        self.ops = Ghost(self.ops@.push(CtxOp::SetIndexBuffer(buffer)));
    }

    /// Records the one pending draw command, overwriting any previous one: a
    /// context represents at most one draw call.
    pub fn draw(
        &mut self,
        indices: core::ops::Range<u32>,
        base_vertex: i32,
        instances: core::ops::Range<u32>,
    )
        ensures
            final(self).draw_cmd == Some(
                draw_cmd_of(
                    indices.start,
                    indices.end,
                    base_vertex,
                    instances.start,
                    instances.end,
                ),
            ),
            final(self).bind_groups@ == old(self).bind_groups@,
            final(self).vertex_buffer == old(self).vertex_buffer,
            final(self).index_buffer == old(self).index_buffer,
            final(self).pipeline == old(self).pipeline,
            final(self).ops@ == old(self).ops@.push(
                CtxOp::Draw(indices.start, indices.end, base_vertex, instances.start, instances.end),
            ),
    {
        self.draw_span(indices.start, indices.end, base_vertex, instances.start, instances.end);
    }

    /// `draw` over plain bounds; the shared body of the range-taking entry
    /// points.
    fn draw_span(
        &mut self,
        indices_start: u32,
        indices_end: u32,
        base_vertex: i32,
        instances_start: u32,
        instances_end: u32,
    )
        ensures
            final(self).draw_cmd == Some(
                draw_cmd_of(indices_start, indices_end, base_vertex, instances_start, instances_end),
            ),
            final(self).bind_groups@ == old(self).bind_groups@,
            final(self).vertex_buffer == old(self).vertex_buffer,
            final(self).index_buffer == old(self).index_buffer,
            final(self).pipeline == old(self).pipeline,
            final(self).ops@ == old(self).ops@.push(
                CtxOp::Draw(indices_start, indices_end, base_vertex, instances_start, instances_end),
            ),
    {
        self.draw_cmd = Some(
            DrawCmd {
                indices_start,
                indices_end,
                base_vertex,
                instances_start,
                instances_end,
            },
        );
        self.ops = Ghost(
            self.ops@.push(
                CtxOp::Draw(indices_start, indices_end, base_vertex, instances_start, instances_end),
            ),
        );
    }

    /// Consumes the context and yields the finished output unit carrying the
    /// accumulated state unchanged.
    pub fn finish(self) -> (r: CtxOut)
        ensures
            r == CtxOut::Render(self),
    {
        CtxOut::Render(self)
    }

    /// One mesh draw with the default instance range.
    pub fn draw_mesh(&mut self, mesh: &Mesh, material: &Material, camera_bind_group: BindGroupId)
        ensures
            final(self).ops@ == old(self).ops@ + mesh_draw_ops(
                *mesh,
                *material,
                0,
                1,
                camera_bind_group,
            ),
            final(self).vertex_buffer == Some((0u32, mesh.vertex_buffer)),
            final(self).index_buffer == Some(mesh.index_buffer),
            final(self).bind_groups@ == old(self).bind_groups@.push(
                (0u32, material.bind_group),
            ).push((1u32, camera_bind_group)),
            final(self).pipeline == old(self).pipeline,
            final(self).draw_cmd == Some(draw_cmd_of(0, mesh.num_elements, 0, 0, 1)),
    {
        self.draw_mesh_span(mesh, material, 0, 1, camera_bind_group);
    }

    /// One mesh draw: vertex buffer to slot 0, index buffer, material bind
    /// group to slot 0, camera bind group to slot 1, then a draw of the
    /// mesh's whole index range over `instances`.
    pub fn draw_mesh_instanced(
        &mut self,
        mesh: &Mesh,
        material: &Material,
        instances: core::ops::Range<u32>,
        camera_bind_group: BindGroupId,
    )
        ensures
            final(self).ops@ == old(self).ops@ + mesh_draw_ops(
                *mesh,
                *material,
                instances.start,
                instances.end,
                camera_bind_group,
            ),
            final(self).vertex_buffer == Some((0u32, mesh.vertex_buffer)),
            final(self).index_buffer == Some(mesh.index_buffer),
            final(self).bind_groups@ == old(self).bind_groups@.push(
                (0u32, material.bind_group),
            ).push((1u32, camera_bind_group)),
            final(self).pipeline == old(self).pipeline,
            final(self).draw_cmd == Some(
                draw_cmd_of(0, mesh.num_elements, 0, instances.start, instances.end),
            ),
    {
        self.draw_mesh_span(mesh, material, instances.start, instances.end, camera_bind_group);
    }

    /// The shared body of the mesh draw helpers, over plain instance bounds.
    fn draw_mesh_span(
        &mut self,
        mesh: &Mesh,
        material: &Material,
        instances_start: u32,
        instances_end: u32,
        camera_bind_group: BindGroupId,
    )
        ensures
            final(self).ops@ == old(self).ops@ + mesh_draw_ops(
                *mesh,
                *material,
                instances_start,
                instances_end,
                camera_bind_group,
            ),
            final(self).vertex_buffer == Some((0u32, mesh.vertex_buffer)),
            final(self).index_buffer == Some(mesh.index_buffer),
            final(self).bind_groups@ == old(self).bind_groups@.push(
                (0u32, material.bind_group),
            ).push((1u32, camera_bind_group)),
            final(self).pipeline == old(self).pipeline,
            final(self).draw_cmd == Some(
                draw_cmd_of(0, mesh.num_elements, 0, instances_start, instances_end),
            ),
    {
        self.set_vertex_buffer(0, mesh.vertex_buffer);
        self.set_index_buffer(mesh.index_buffer);
        self.set_bind_group(0, material.bind_group);
        self.set_bind_group(1, camera_bind_group);
        self.draw_span(0, mesh.num_elements, 0, instances_start, instances_end);
        proof {
            assert(self.ops@ =~= old(self).ops@ + mesh_draw_ops(
                *mesh,
                *material,
                instances_start,
                instances_end,
                camera_bind_group,
            ));
        }
    }

    /// One mesh draw per mesh of the model, in storage order, each resolving
    /// its material positionally, with the default instance range.
    pub fn draw_model(&mut self, model: &Model, camera_bind_group: BindGroupId)
        requires
            model.materials_resolve(),
        ensures
            final(self).ops@ == old(self).ops@ + model_draw_ops(
                model.meshes@,
                model.materials@,
                0,
                1,
                camera_bind_group,
            ),
            final(self).bind_groups@ == old(self).bind_groups@ + model_bind_pairs(
                model.meshes@,
                model.materials@,
                camera_bind_group,
            ),
            final(self).pipeline == old(self).pipeline,
            model.meshes@.len() == 0 ==> final(self).vertex_buffer == old(self).vertex_buffer
                && final(self).index_buffer == old(self).index_buffer && final(self).draw_cmd
                == old(self).draw_cmd,
            model.meshes@.len() > 0 ==> final(self).vertex_buffer == Some(
                (0u32, model.meshes@.last().vertex_buffer),
            ) && final(self).index_buffer == Some(model.meshes@.last().index_buffer) && final(self).draw_cmd == Some(draw_cmd_of(0, model.meshes@.last().num_elements, 0, 0, 1)),
    {
        self.draw_model_span(model, 0, 1, camera_bind_group);
    }

    /// One mesh draw per mesh of the model, in storage order, each resolving
    /// its material positionally, over `instances`.
    pub fn draw_model_instanced(
        &mut self,
        model: &Model,
        instances: core::ops::Range<u32>,
        camera_bind_group: BindGroupId,
    )
        requires
            model.materials_resolve(),
        ensures
            final(self).ops@ == old(self).ops@ + model_draw_ops(
                model.meshes@,
                model.materials@,
                instances.start,
                instances.end,
                camera_bind_group,
            ),
            final(self).bind_groups@ == old(self).bind_groups@ + model_bind_pairs(
                model.meshes@,
                model.materials@,
                camera_bind_group,
            ),
            final(self).pipeline == old(self).pipeline,
            model.meshes@.len() == 0 ==> final(self).vertex_buffer == old(self).vertex_buffer
                && final(self).index_buffer == old(self).index_buffer && final(self).draw_cmd
                == old(self).draw_cmd,
            model.meshes@.len() > 0 ==> final(self).vertex_buffer == Some(
                (0u32, model.meshes@.last().vertex_buffer),
            ) && final(self).index_buffer == Some(model.meshes@.last().index_buffer) && final(self).draw_cmd == Some(
                draw_cmd_of(0, model.meshes@.last().num_elements, 0, instances.start, instances.end),
            ),
    {
        self.draw_model_span(model, instances.start, instances.end, camera_bind_group);
    }

    /// The shared body of the model draw helpers.
    fn draw_model_span(
        &mut self,
        model: &Model,
        instances_start: u32,
        instances_end: u32,
        camera_bind_group: BindGroupId,
    )
        requires
            model.materials_resolve(),
        ensures
            final(self).ops@ == old(self).ops@ + model_draw_ops(
                model.meshes@,
                model.materials@,
                instances_start,
                instances_end,
                camera_bind_group,
            ),
            final(self).bind_groups@ == old(self).bind_groups@ + model_bind_pairs(
                model.meshes@,
                model.materials@,
                camera_bind_group,
            ),
            final(self).pipeline == old(self).pipeline,
            model.meshes@.len() == 0 ==> final(self).vertex_buffer == old(self).vertex_buffer
                && final(self).index_buffer == old(self).index_buffer && final(self).draw_cmd
                == old(self).draw_cmd,
            model.meshes@.len() > 0 ==> final(self).vertex_buffer == Some(
                (0u32, model.meshes@.last().vertex_buffer),
            ) && final(self).index_buffer == Some(model.meshes@.last().index_buffer) && final(self).draw_cmd == Some(
                draw_cmd_of(
                    0,
                    model.meshes@.last().num_elements,
                    0,
                    instances_start,
                    instances_end,
                ),
            ),
    {
        let mut i: usize = 0;
        while i < model.meshes.len()
            invariant
                i <= model.meshes@.len(),
                model.materials_resolve(),
                self.ops@ == old(self).ops@ + model_draw_ops(
                    model.meshes@.take(i as int),
                    model.materials@,
                    instances_start,
                    instances_end,
                    camera_bind_group,
                ),
                self.bind_groups@ == old(self).bind_groups@ + model_bind_pairs(
                    model.meshes@.take(i as int),
                    model.materials@,
                    camera_bind_group,
                ),
                self.pipeline == old(self).pipeline,
                i == 0 ==> self.vertex_buffer == old(self).vertex_buffer && self.index_buffer
                    == old(self).index_buffer && self.draw_cmd == old(self).draw_cmd,
                i > 0 ==> self.vertex_buffer == Some(
                    (0u32, model.meshes@[i as int - 1].vertex_buffer),
                ) && self.index_buffer == Some(model.meshes@[i as int - 1].index_buffer)
                    && self.draw_cmd == Some(
                    draw_cmd_of(
                        0,
                        model.meshes@[i as int - 1].num_elements,
                        0,
                        instances_start,
                        instances_end,
                    ),
                ),
            decreases model.meshes@.len() - i,
        {
            let mesh = &model.meshes[i];
            let material = &model.materials[mesh.material];
            self.draw_mesh_span(
                mesh,
                material,
                instances_start,
                instances_end,
                camera_bind_group,
            );
            proof {
                let taken = model.meshes@.take(i as int + 1);
                assert(taken.drop_last() =~= model.meshes@.take(i as int));
                assert(taken.last() == model.meshes@[i as int]);
                assert(self.ops@ =~= old(self).ops@ + model_draw_ops(
                    taken,
                    model.materials@,
                    instances_start,
                    instances_end,
                    camera_bind_group,
                ));
                assert(self.bind_groups@ =~= old(self).bind_groups@ + model_bind_pairs(
                    taken,
                    model.materials@,
                    camera_bind_group,
                ));
            }
            i = i + 1;
        }
        proof {
            assert(model.meshes@.take(model.meshes@.len() as int) =~= model.meshes@);
        }
    }
}

/// A model draw records exactly five primitive steps per mesh: the group of
/// operations `5 * i .. 5 * i + 5` is the mesh draw of mesh `i` with the
/// material its positional index resolves to.
pub proof fn lemma_model_draw_ops_groups(
    meshes: Seq<Mesh>,
    materials: Seq<Material>,
    instances_start: u32,
    instances_end: u32,
    camera_bind_group: BindGroupId,
)
    ensures
        model_draw_ops(meshes, materials, instances_start, instances_end, camera_bind_group).len()
            == 5 * meshes.len(),
        forall|i: int|
            0 <= i < meshes.len() ==> #[trigger] model_draw_ops(
                meshes,
                materials,
                instances_start,
                instances_end,
                camera_bind_group,
            ).subrange(5 * i, 5 * i + 5) == mesh_draw_ops(
                meshes[i],
                materials[meshes[i].material as int],
                instances_start,
                instances_end,
                camera_bind_group,
            ),
    decreases meshes.len(),
{
    if meshes.len() > 0 {
        lemma_model_draw_ops_groups(
            meshes.drop_last(),
            materials,
            instances_start,
            instances_end,
            camera_bind_group,
        );
        let whole = model_draw_ops(
            meshes,
            materials,
            instances_start,
            instances_end,
            camera_bind_group,
        );
        let front = model_draw_ops(
            meshes.drop_last(),
            materials,
            instances_start,
            instances_end,
            camera_bind_group,
        );
        assert forall|i: int| 0 <= i < meshes.len() implies #[trigger] whole.subrange(
            5 * i,
            5 * i + 5,
        ) == mesh_draw_ops(
            meshes[i],
            materials[meshes[i].material as int],
            instances_start,
            instances_end,
            camera_bind_group,
        ) by {
            if i < meshes.len() - 1 {
                assert(meshes.drop_last()[i] == meshes[i]);
                assert(whole.subrange(5 * i, 5 * i + 5) =~= front.subrange(5 * i, 5 * i + 5));
            } else {
                assert(whole.subrange(5 * i, 5 * i + 5) =~= mesh_draw_ops(
                    meshes.last(),
                    materials[meshes.last().material as int],
                    instances_start,
                    instances_end,
                    camera_bind_group,
                ));
            }
        }
    }
}

/// A per-recording-session accumulator of compute state, parallel to
/// [`RenderCtx`].
pub struct ComputeCtx {
    /// The (slot, bind group) pairs in call order.
    pub bind_groups: Vec<(u32, BindGroupId)>,
    /// The pipeline of the most recent `set_pipeline`.
    pub pipeline: Option<PipelineId>,
    /// Ghost log of every primitive step applied so far, in order.
    pub ops: Ghost<Seq<CtxOp>>,
}

impl ComputeCtx {
    /// A fresh context holding no state and an empty operation log.
    pub fn new() -> (r: Self)
        ensures
            r.bind_groups@ == Seq::<(u32, BindGroupId)>::empty(),
            r.pipeline is None,
            r.ops@ == Seq::<CtxOp>::empty(),
    {
        ComputeCtx { bind_groups: Vec::new(), pipeline: None, ops: Ghost(Seq::empty()) }
    }

    /// Makes `pipeline` the context's pipeline, replacing any earlier choice.
    pub fn set_pipeline(&mut self, pipeline: PipelineId)
        ensures
            final(self).pipeline == Some(pipeline),
            final(self).bind_groups@ == old(self).bind_groups@,
            final(self).ops@ == old(self).ops@.push(CtxOp::SetPipeline(pipeline)),
    {
        self.pipeline = Some(pipeline);
        self.ops = Ghost(self.ops@.push(CtxOp::SetPipeline(pipeline)));
    }

    /// Appends the binding of `group` at `slot`.
    pub fn set_bind_group(&mut self, slot: u32, group: BindGroupId)
        ensures
            final(self).bind_groups@ == old(self).bind_groups@.push((slot, group)),
            final(self).pipeline == old(self).pipeline,
            final(self).ops@ == old(self).ops@.push(CtxOp::SetBindGroup(slot, group)),
    {
        self.bind_groups.push((slot, group));
        self.ops = Ghost(self.ops@.push(CtxOp::SetBindGroup(slot, group)));
    }

    /// Consumes the context and yields the finished output unit carrying the
    /// accumulated state unchanged.
    pub fn finish(self) -> (r: CtxOut)
        ensures
            r == CtxOut::Compute(self),
    {
        CtxOut::Compute(self)
    }
}

impl Default for RenderCtx {
    /// The default context is the fresh, empty one.
    fn default() -> (r: Self)
        ensures
            r.bind_groups@ == Seq::<(u32, BindGroupId)>::empty(),
            r.vertex_buffer is None,
            r.index_buffer is None,
            r.pipeline is None,
            r.draw_cmd is None,
            r.ops@ == Seq::<CtxOp>::empty(),
    {
        RenderCtx::new()
    }
}

impl Default for ComputeCtx {
    /// The default context is the fresh, empty one.
    fn default() -> (r: Self)
        ensures
            r.bind_groups@ == Seq::<(u32, BindGroupId)>::empty(),
            r.pipeline is None,
            r.ops@ == Seq::<CtxOp>::empty(),
    {
        ComputeCtx::new()
    }
}

impl IContext for RenderCtx {
    type Pipeline = PipelineId;

    type BindGroup = BindGroupId;

    type Out = CtxOut;

    fn new() -> Self {
        RenderCtx::new()
    }

    fn set_pipeline(&mut self, pipeline: PipelineId) {
        RenderCtx::set_pipeline(self, pipeline)
    }

    fn set_bind_group(&mut self, slot: u32, bind_group: BindGroupId) {
        RenderCtx::set_bind_group(self, slot, bind_group)
    }

    fn finish(self) -> CtxOut {
        RenderCtx::finish(self)
    }
}

impl IRenderContext for RenderCtx {
    type Buffer = BufferId;

    fn set_vertex_buffer(&mut self, slot: u32, buffer: BufferId) {
        RenderCtx::set_vertex_buffer(self, slot, buffer)
    }

    fn set_index_buffer(&mut self, buffer: BufferId) {
        RenderCtx::set_index_buffer(self, buffer)
    }

    fn draw(
        &mut self,
        indices: core::ops::Range<u32>,
        base_vertex: i32,
        instances: core::ops::Range<u32>,
    ) {
        RenderCtx::draw(self, indices, base_vertex, instances)
    }
}

impl DrawModel for RenderCtx {
    type BindGroup = BindGroupId;

    fn draw_mesh(&mut self, mesh: &Mesh, material: &Material, camera_bind_group: BindGroupId) {
        RenderCtx::draw_mesh(self, mesh, material, camera_bind_group)
    }

    fn draw_mesh_instanced(
        &mut self,
        mesh: &Mesh,
        material: &Material,
        instances: core::ops::Range<u32>,
        camera_bind_group: BindGroupId,
    ) {
        RenderCtx::draw_mesh_instanced(self, mesh, material, instances, camera_bind_group)
    }

    fn draw_model(&mut self, model: &Model, camera_bind_group: BindGroupId) {
        RenderCtx::draw_model(self, model, camera_bind_group)
    }

    fn draw_model_instanced(
        &mut self,
        model: &Model,
        instances: core::ops::Range<u32>,
        camera_bind_group: BindGroupId,
    ) {
        RenderCtx::draw_model_instanced(self, model, instances, camera_bind_group)
    }
}

impl IContext for ComputeCtx {
    type Pipeline = PipelineId;

    type BindGroup = BindGroupId;

    type Out = CtxOut;

    fn new() -> Self {
        ComputeCtx::new()
    }

    fn set_pipeline(&mut self, pipeline: PipelineId) {
        ComputeCtx::set_pipeline(self, pipeline)
    }

    fn set_bind_group(&mut self, slot: u32, bind_group: BindGroupId) {
        ComputeCtx::set_bind_group(self, slot, bind_group)
    }

    fn finish(self) -> CtxOut {
        ComputeCtx::finish(self)
    }
}

impl IComputeContext for ComputeCtx {

}

} // verus!
