//! Arena-style model data: meshes and materials carried as plain values with
//! opaque resource handles.

use vstd::prelude::*;

verus! {

use crate::api::{BindGroupId, BufferId};

/// One mesh: its vertex and index buffers, how many indexed elements it
/// draws, and the position of its material in the owning model.
#[derive(Clone, Copy, Debug, PartialEq, Eq, Structural)]
pub struct Mesh {
    pub vertex_buffer: BufferId,
    pub index_buffer: BufferId,
    pub num_elements: u32,
    pub material: usize,
}

/// One material: the bind group that carries its textures and samplers.
#[derive(Clone, Copy, Debug, PartialEq, Eq, Structural)]
pub struct Material {
    pub bind_group: BindGroupId,
}

/// A model: meshes in storage order, and the materials they resolve into by
/// positional index.
#[derive(Debug)]
pub struct Model {
    pub meshes: Vec<Mesh>,
    pub materials: Vec<Material>,
}

impl Model {
    /// Every mesh's material index lands inside `materials`.
    pub open spec fn materials_resolve(self) -> bool {
        forall|i: int|
            0 <= i < self.meshes@.len() ==> (#[trigger] self.meshes@[i]).material
                < self.materials@.len()
    }
}

} // verus!
