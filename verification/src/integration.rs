//! The per-frame driver around the UI integration hook.
//!
//! The hook itself is an external collaborator: the embedding application
//! implements it, and what it draws is its own business.  What the driver
//! pins down is the frame protocol: every pending input event is forwarded
//! to the hook before it runs, the hook runs exactly once inside the frame's
//! recording phase, and its finished output is filed in the ledger and
//! drained through the verified present path.

use vstd::prelude::*;

verus! {

use crate::ctx::{CtxOut, RenderCtx};
use crate::gpu::{ledger_insert, Gpu, RenderError, SurfaceErrorKind};

/// The UI integration hook: receives the window-system input forwarded to
/// it, and records its draw work for the frame through the context
/// primitives.  Implemented by the embedding application.
pub trait Ui {
    type Event;

    /// Receives one forwarded window-system input event.
    fn handle_input(&mut self, event: &Self::Event);

    /// Records the frame's draw work on the active context; the driver calls
    /// it exactly once per frame.
    fn render_ui(&mut self, ctx: &mut RenderCtx);
}

/// One frame of the UI layer: forwards the pending input events to the hook
/// in arrival order, runs the hook once inside the recording phase, files
/// the finished output in the ledger, and drains for presentation.
///
/// The backend performs the surface acquisition whose outcome comes in as
/// `acquisition` and submits the batch handed back.  On a successful
/// acquisition the ledger comes out empty; on a failed one the frame's
/// output stays filed, under a fresh key carrying the node identity, so a
/// retry reuses it.
pub fn run_ui_frame<U: Ui>(
    ui: &mut U,
    events: &Vec<U::Event>,
    gpu: &mut Gpu<CtxOut>,
    acquisition: Result<(), SurfaceErrorKind>,
) -> (r: Result<Vec<CtxOut>, RenderError>)
    requires
        old(gpu).wf(),
    ensures
        final(gpu).wf(),
        final(gpu).spec_node_id() == old(gpu).spec_node_id(),
        acquisition is Ok ==> r is Ok && final(gpu).entries() == Seq::<(u128, CtxOut)>::empty(),
        acquisition is Err ==> r == Err::<Vec<CtxOut>, RenderError>(
            RenderError::SurfaceError(acquisition->Err_0),
        ) && exists|k: u128, c: CtxOut|
            final(gpu).entries() == ledger_insert(old(gpu).entries(), k, c) && k
                & 0xffff_ffff_ffff == crate::api::node_48(old(gpu).spec_node_id()),
{
    let mut i: usize = 0;
    while i < events.len()
        invariant
            i <= events@.len(),
            gpu.wf(),
            gpu.spec_node_id() == old(gpu).spec_node_id(),
            gpu.entries() == old(gpu).entries(),
        decreases events@.len() - i,
    {
        ui.handle_input(&events[i]);
        i = i + 1;
    }
    let mut ctx = RenderCtx::new();
    ui.render_ui(&mut ctx);
    gpu.submit_cmd(ctx.finish());
    gpu.present(acquisition)
}

} // verus!
