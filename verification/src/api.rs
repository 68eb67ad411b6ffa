//! Ordering primitive and the capability traits of the layer.
//!
//! [`CommandListIndex`] is the strictly comparable, time-ordered identifier
//! that the ledger keys its command buffers by.  The traits describe the
//! narrow interfaces a recording context and its resources expose; resources
//! themselves are carried as opaque integer handles.

use vstd::prelude::*;

verus! {

use vstd::std_specs::cmp::PartialOrdSpec;

/// The 48-bit value of a 6-byte node identity, read big-endian.
pub open spec fn node_48(s: Seq<u8>) -> u128
    recommends
        s.len() == 6,
{
    ((s[0] as u128) << 40) | ((s[1] as u128) << 32) | ((s[2] as u128) << 24) | ((s[3] as u128)
        << 16) | ((s[4] as u128) << 8) | (s[5] as u128)
}

/// Relies on `uuid::Uuid::now_v6`: an RFC 9562 version-6 UUID built from the
/// current timestamp, a process-wide monotonic counter, and the given node
/// id.  In the big-endian 128-bit value the node id occupies the low 48 bits
/// verbatim, the version nibble (bits 76..80) is 6, and the variant bits
/// (bits 62..64) are binary 10.  No monotonicity or uniqueness is assumed of
/// the value.  The underlying clock read aborts if the system time is before
/// the Unix epoch; that is a condition of the environment, not of any input.
#[verifier::external_body]
fn now_v6_u128(node_id: &[u8; 6]) -> (r: u128)
    ensures
        r & 0xffff_ffff_ffff == node_48(node_id@),
        (r >> 76) & 0xf == 6,
        (r >> 62) & 0x3 == 2,
{
    uuid::Uuid::now_v6(node_id).as_u128()
}

/// A strictly comparable, time-ordered unique identifier.
///
/// For indices generated with the same node identity, generation order by
/// wall clock is reflected in the numeric order of the values; ties at the
/// same instant are broken by a monotonically increasing counter.  Cross-node
/// comparison carries no meaning.
#[derive(Clone, Copy, Debug, PartialEq, Eq, Structural, Ord)]
pub struct CommandListIndex(u128);

impl CommandListIndex {
    /// The numeric value the ordering goes by.
    pub closed spec fn value(self) -> u128 {
        self.0
    }

    /// Generates a fresh index for this node identity.
    ///
    /// Reads the current time and advances a process-wide counter; the node
    /// identity lands in the low 48 bits of the value.
    pub fn new(node_id: &[u8; 6]) -> (r: Self)
        ensures
            r.value() & 0xffff_ffff_ffff == node_48(node_id@),
            (r.value() >> 76) & 0xf == 6,
            (r.value() >> 62) & 0x3 == 2,
    {
        CommandListIndex(now_v6_u128(node_id))
    }

    /// The raw 128-bit value of the index.
    pub fn as_u128(&self) -> (r: u128)
        ensures
            r == self.value(),
    {
        self.0
    }
}

impl PartialOrd for CommandListIndex {
    fn partial_cmp(&self, other: &CommandListIndex) -> (r: Option<core::cmp::Ordering>) {
        if self.0 < other.0 {
            Some(core::cmp::Ordering::Less)
        } else if self.0 == other.0 {
            Some(core::cmp::Ordering::Equal)
        } else {
            Some(core::cmp::Ordering::Greater)
        }
    }
}

impl vstd::std_specs::cmp::PartialOrdSpecImpl for CommandListIndex {
    open spec fn obeys_partial_cmp_spec() -> bool {
        true
    }

    open spec fn partial_cmp_spec(&self, other: &CommandListIndex) -> Option<core::cmp::Ordering> {
        if self.value() < other.value() {
            Some(core::cmp::Ordering::Less)
        } else if self.value() == other.value() {
            Some(core::cmp::Ordering::Equal)
        } else {
            Some(core::cmp::Ordering::Greater)
        }
    }
}

/// An opaque handle to a backend vertex or index buffer, resolved against a
/// resource table at recording time.
#[derive(Clone, Copy, Debug, PartialEq, Eq, Structural, Hash)]
pub struct BufferId(pub u64);

/// An opaque handle to a backend bind group.
#[derive(Clone, Copy, Debug, PartialEq, Eq, Structural, Hash)]
pub struct BindGroupId(pub u64);

/// An opaque handle to a backend pipeline.
#[derive(Hash, Clone, Copy, PartialEq, Eq, Structural, Debug)]
pub struct PipelineId(pub u64);

pub trait IBuffer {

}

pub trait IBindGroup {

}

pub trait IPipeline {

}

pub trait ICtxOut {

}

impl IBuffer for BufferId {

}

impl IBindGroup for BindGroupId {

}

impl IPipeline for PipelineId {

}

/// Public facing pipeline type. Lets clients say which kind of pipeline they
/// want built.
pub enum PipelineType {
    Render,
    Compute,
}

/// A per-recording-session accumulator: set-operations gather draw state, and
/// `finish` moves the whole of it into a finished output unit.
pub trait IContext: Sized {
    type Pipeline: IPipeline;

    type BindGroup: IBindGroup;

    type Out;

    fn new() -> Self;

    fn set_pipeline(&mut self, pipeline: Self::Pipeline);

    fn set_bind_group(&mut self, slot: u32, bind_group: Self::BindGroup);

    fn finish(self) -> Self::Out;
}

/// The render-only half of the context contract: vertex and index buffers and
/// the pending draw command.
pub trait IRenderContext: IContext + DrawModel {
    type Buffer: IBuffer;

    fn set_vertex_buffer(&mut self, slot: u32, buffer: Self::Buffer);

    fn set_index_buffer(&mut self, buffer: Self::Buffer);

    fn draw(
        &mut self,
        indices: core::ops::Range<u32>,
        base_vertex: i32,
        instances: core::ops::Range<u32>,
    );
}

/// A context that records compute work; it adds nothing beyond the common
/// contract.
pub trait IComputeContext: IContext {

}

/// Derived draw operations built purely from the context primitives.
pub trait DrawModel {
    type BindGroup: IBindGroup;

    fn draw_mesh(
        &mut self,
        mesh: &crate::model::Mesh,
        material: &crate::model::Material,
        camera_bind_group: Self::BindGroup,
    );

    fn draw_mesh_instanced(
        &mut self,
        mesh: &crate::model::Mesh,
        material: &crate::model::Material,
        instances: core::ops::Range<u32>,
        camera_bind_group: Self::BindGroup,
    );

    fn draw_model(&mut self, model: &crate::model::Model, camera_bind_group: Self::BindGroup)
        requires
            model.materials_resolve(),
    ;

    fn draw_model_instanced(
        &mut self,
        model: &crate::model::Model,
        instances: core::ops::Range<u32>,
        camera_bind_group: Self::BindGroup,
    )
        requires
            model.materials_resolve(),
    ;
}

/// Comparison of indices is a strict total order that goes exactly by the
/// numeric value: trichotomy holds, and `Less` is transitive.
pub proof fn lemma_index_order_strict_total(
    a: CommandListIndex,
    b: CommandListIndex,
    c: CommandListIndex,
)
    ensures
        a.partial_cmp_spec(&b) == Some(core::cmp::Ordering::Less) <==> a.value() < b.value(),
        a.partial_cmp_spec(&b) == Some(core::cmp::Ordering::Equal) <==> a == b,
        a.partial_cmp_spec(&b) == Some(core::cmp::Ordering::Greater) <==> b.value() < a.value(),
        (a.partial_cmp_spec(&b) == Some(core::cmp::Ordering::Less) && b.partial_cmp_spec(&c)
            == Some(core::cmp::Ordering::Less)) ==> a.partial_cmp_spec(&c) == Some(
            core::cmp::Ordering::Less,
        ),
{
}

} // verus!
