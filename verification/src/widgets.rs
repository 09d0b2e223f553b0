//! Plain state of the display widgets.

use vstd::prelude::*;

verus! {

/// Which way a scroll bar runs.
#[derive(Eq, PartialEq, Copy, Clone, Debug, Structural)]
pub enum ScrollBarDirection {
    Horizontal,
    Vertical,
}

} // verus!
