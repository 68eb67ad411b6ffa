//! A hardware-abstraction layer above a graphics backend.
//!
//! Worker threads record draw state into per-thread contexts, finish each
//! context into an opaque command buffer, and hand the buffers to a shared
//! ledger keyed by time-ordered indices.  Draining the ledger yields the
//! buffers in ascending index order, which gives concurrently recorded work a
//! well-defined total submission order.

pub mod api;
pub mod ctx;
pub mod events;
pub mod gpu;
pub mod integration;
pub mod model;

pub use api::{BindGroupId, BufferId, CommandListIndex, PipelineId, PipelineType};
pub use ctx::{ComputeCtx, CtxOut, DrawCmd, RenderCtx};
pub use events::NativeEvent;
pub use integration::Ui;
pub use gpu::{check_texture_desc, Gpu, GpuError, RenderError, SurfaceErrorKind, TextureError};
pub use model::{Material, Mesh, Model};
