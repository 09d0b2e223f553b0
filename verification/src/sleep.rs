//! Deep-sleep scheduling and wall-clock continuity across sleep.
//!
//! The scheduler decides when the device may power down: only after a
//! period of idleness, and never before the radio has been driven into its
//! parked state.  Immediately before the non-returning sleep call the
//! current wall clock and the RTC counter are persisted into a region that
//! survives deep sleep; on wake the elapsed RTC delta is added back so the
//! clock is right without waiting for a fresh network time sync.

use vstd::prelude::*;

use crate::wifi::WifiCore;
use crate::wifi::WifiNetState;

verus! {

/// The record persisted in the sleep-surviving memory region.  A zero
/// `when_slept_secs` is the cleared state: no sleep has been recorded, and
/// nothing is reconstructed from it.
#[derive(Eq, PartialEq, Copy, Clone, Debug, Structural)]
pub struct SleepAnchor {
    /// Wall clock, in Unix seconds, at the instant of entering sleep.
    pub when_slept_secs: u64,
    /// The RTC counter, in milliseconds, at that same instant.  The RTC
    /// keeps running through deep sleep.
    pub rtc_at_sleep_ms: u64,
}

impl SleepAnchor {
    /// The cleared region, as found on a cold boot.
    pub fn cleared() -> (a: SleepAnchor)
        ensures
            a.when_slept_secs == 0,
            a.rtc_at_sleep_ms == 0,
    {
        SleepAnchor { when_slept_secs: 0, rtc_at_sleep_ms: 0 }
    }

    /// Whether the region holds a recorded sleep at all.
    pub fn is_valid(&self) -> (v: bool)
        ensures
            v == (self.when_slept_secs > 0),
    {
        self.when_slept_secs > 0
    }
}

/// Capture the anchor immediately before entering deep sleep.
pub fn make_anchor(wall_secs: u64, rtc_now_ms: u64) -> (a: SleepAnchor)
    ensures
        a.when_slept_secs == wall_secs,
        a.rtc_at_sleep_ms == rtc_now_ms,
{
    SleepAnchor { when_slept_secs: wall_secs, rtc_at_sleep_ms: rtc_now_ms }
}

/// The wall clock on wake: the persisted wall clock plus the whole seconds
/// of RTC time that passed while asleep.  `None` when the region is
/// cleared, in which case the caller waits for a network sync instead.
pub fn wake_wall_secs(anchor: &SleepAnchor, rtc_now_ms: u64) -> (r: Option<u64>)
    requires
        anchor.rtc_at_sleep_ms <= rtc_now_ms,
        anchor.when_slept_secs + (rtc_now_ms - anchor.rtc_at_sleep_ms) / 1000 <= u64::MAX,
    ensures
        anchor.when_slept_secs == 0 ==> r is None,
        anchor.when_slept_secs > 0 ==> r == Some(
            (anchor.when_slept_secs + (rtc_now_ms - anchor.rtc_at_sleep_ms) / 1000) as u64,
        ),
{
    if anchor.when_slept_secs == 0 {
        None
    } else {
        Some(anchor.when_slept_secs + (rtc_now_ms - anchor.rtc_at_sleep_ms) / 1000)
    }
}

/// Sleep/wake continuity: for a wall clock `t0` persisted before sleep and
/// an elapsed RTC delta of `d_ms` measured on wake, the reconstructed wall
/// clock is exactly `t0` plus the elapsed whole seconds — whatever the RTC
/// read at the moment of sleeping, and however long a later network
/// resync takes.
pub proof fn lemma_wake_continuity(t0: u64, rtc0: u64, d_ms: u64)
    requires
        t0 > 0,
        rtc0 + d_ms <= u64::MAX,
        t0 + d_ms / 1000 <= u64::MAX,
    ensures
        ((t0 + ((rtc0 + d_ms) - rtc0) / 1000) as u64) == t0 + d_ms / 1000,
{
}

/// What one poll of the sleep scheduler decided.
#[derive(Eq, PartialEq, Copy, Clone, Debug, Structural)]
pub enum SleepDecision {
    /// The device was active recently: stay awake, change nothing.
    Awake,
    /// Idle, but the radio is not parked yet: a force-release step was
    /// taken; poll again after the manager has run.
    Waiting,
    /// Idle and the radio is parked: persist the anchor and enter deep
    /// sleep.  The sleep call does not return.
    EnterSleep,
}

/// Whether the idle threshold has elapsed since the last activity.
pub open spec fn spec_idle(last_use_secs: u64, now_secs: u64, idle_threshold_secs: u64) -> bool {
    now_secs - last_use_secs > idle_threshold_secs
}

/// Whether the radio is fully released: no live handle, and the manager
/// is parked or was never brought up.
pub open spec fn spec_radio_released(core: WifiCore) -> bool {
    !core.lock_held && (core.state is None || core.state == Some(WifiNetState::WifiStopped))
}

/// What one poll of `maybe_sleep` decides in core state `core`.
pub open spec fn spec_maybe_sleep_out(
    core: WifiCore,
    now_secs: u64,
    idle_threshold_secs: u64,
) -> SleepDecision {
    if !spec_idle(core.last_use_secs, now_secs, idle_threshold_secs) {
        SleepDecision::Awake
    } else if spec_radio_released(core) {
        SleepDecision::EnterSleep
    } else {
        SleepDecision::Waiting
    }
}

/// One poll of `maybe_sleep(sleep_duration, idle_threshold)`.  While the
/// device has been touched recently it does nothing.  Once idle it first
/// drives the radio down through the broker's force-release — which waits
/// for any live handle and then stops the manager — and only when the
/// manager reports `WifiStopped` (or never existed) does it allow the
/// non-returning deep-sleep call.
pub fn maybe_sleep_poll(core: &mut WifiCore, now_secs: u64, idle_threshold_secs: u64) -> (d:
    SleepDecision)
    requires
        old(core).last_use_secs <= now_secs,
    ensures
        d == spec_maybe_sleep_out(*old(core), now_secs, idle_threshold_secs),
        d == SleepDecision::Waiting ==> *final(core) == crate::wifi::spec_force_release(
            *old(core),
        ),
        d != SleepDecision::Waiting ==> *final(core) == *old(core),
        d == SleepDecision::EnterSleep ==> spec_radio_released(*old(core)),
{
    if now_secs - core.last_use_secs <= idle_threshold_secs {
        return SleepDecision::Awake;
    }
    if core.force_release_poll() {
        SleepDecision::EnterSleep
    } else {
        SleepDecision::Waiting
    }
}

/// The sleep gate: `maybe_sleep` never reaches the deep-sleep primitive
/// while the connection state is anything but parked.  The only decision
/// that lets the caller sleep is taken in a core whose manager is stopped
/// or absent and whose handle flag is clear.
pub proof fn lemma_sleep_only_when_stopped(
    core: WifiCore,
    now_secs: u64,
    idle_threshold_secs: u64,
    s: WifiNetState,
)
    requires
        spec_maybe_sleep_out(core, now_secs, idle_threshold_secs) == SleepDecision::EnterSleep,
        core.state == Some(s),
    ensures
        s == WifiNetState::WifiStopped,
        !core.lock_held,
{
}

} // verus!
