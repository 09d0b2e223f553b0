//! The kinds of sound the buzzer task can be asked to play.

use vstd::prelude::*;

verus! {

/// A request to the audio player; the payload selects the tune or the
/// number of repeats.
#[derive(Eq, PartialEq, Copy, Clone, Debug, Structural)]
pub enum SoundType {
    Warn(u32),
    Music(u32),
    Tips(u32),
}

} // verus!
