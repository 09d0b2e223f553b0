//! What the render task is told about a frame.

use vstd::prelude::*;

verus! {

/// One render request: the frame instant it belongs to.
#[derive(Eq, PartialEq, Copy, Clone, Debug, Structural)]
pub struct RenderInfo {
    pub time: i32,
}

} // verus!
