//! Rotary-encoder rotation state: how fast the wheel is being turned.
//!
//! The pin-sampling decoder lives outside this crate and calls in with
//! the direction it saw and the instant it saw it; the state tracks runs
//! of same-direction steps so the UI can scale movement by speed.

use vstd::prelude::*;

verus! {

/// Milliseconds between steps below which a run continues.
pub const SPEED_DELAY_MS: u64 = 300;

/// Which way the wheel turned.
#[derive(Eq, PartialEq, Copy, Clone, Debug, Structural)]
pub enum WheelDirection {
    Front,
    Back,
    NoState,
}

/// A run of wheel steps: when it began, its latest step, its direction
/// and its length.
#[derive(Eq, PartialEq, Copy, Clone, Debug, Structural)]
pub struct RotateState {
    pub begin_timestamp: u64,
    pub last_timestamp: u64,
    pub wheel_direction: WheelDirection,
    pub steps: u32,
}

impl RotateState {
    /// No rotation seen yet.
    pub fn new() -> (s: RotateState)
        ensures
            s.begin_timestamp == 0,
            s.last_timestamp == 0,
            s.wheel_direction == WheelDirection::NoState,
            s.steps == 0,
    {
        RotateState {
            begin_timestamp: 0,
            last_timestamp: 0,
            wheel_direction: WheelDirection::NoState,
            steps: 0,
        }
    }

    /// Record one step at `now_ms`.  A step in the same direction within
    /// the delay extends the current run; anything else starts a new run
    /// of one step.
    pub fn do_step(&mut self, wheel_direction: WheelDirection, now_ms: u64)
        requires
            old(self).last_timestamp <= now_ms,
            old(self).steps < u32::MAX,
        ensures
            (old(self).wheel_direction == wheel_direction && now_ms - old(self).last_timestamp
                < SPEED_DELAY_MS) ==> *final(self) == (RotateState {
                last_timestamp: now_ms,
                steps: (old(self).steps + 1) as u32,
                ..*old(self)
            }),
            !(old(self).wheel_direction == wheel_direction && now_ms - old(self).last_timestamp
                < SPEED_DELAY_MS) ==> *final(self) == (RotateState {
                begin_timestamp: now_ms,
                last_timestamp: now_ms,
                wheel_direction,
                steps: 1,
            }),
    {
        if self.wheel_direction == wheel_direction && now_ms - self.last_timestamp
            < SPEED_DELAY_MS {
            self.last_timestamp = now_ms;
            self.steps = self.steps + 1;
            return ;
        }
        self.wheel_direction = wheel_direction;
        self.begin_timestamp = now_ms;
        self.last_timestamp = now_ms;
        self.steps = 1;
    }
}

} // verus!
