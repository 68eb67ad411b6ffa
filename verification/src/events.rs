//! Events that the platform layer exchanges with the renderer.

use vstd::prelude::*;

verus! {

/// An event asking the renderer for work.
#[derive(Hash, Clone, Copy, Eq, PartialEq, Structural, Debug)]
pub enum NativeEvent {
    /// Record and present one frame.
    Render,
}

} // verus!
