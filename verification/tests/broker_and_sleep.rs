use smartclock::sleep::{make_anchor, maybe_sleep_poll, wake_wall_secs, SleepAnchor, SleepDecision};
use smartclock::wifi::{
    boot_mode, manager_next, AcquirePoll, ConnEvent, WifiCore, WifiModel, WifiNetError,
    WifiNetState,
};

#[test]
fn boot_mode_follows_the_provisioned_flag() {
    assert_eq!(boot_mode(true), WifiModel::STA);
    assert_eq!(boot_mode(false), WifiModel::AP);
}

#[test]
fn manager_walks_the_documented_ring() {
    let stopped = WifiNetState::WifiStopped;
    let connecting = WifiNetState::WifiConnecting;
    let connected = WifiNetState::WifiConnected;
    let disconnected = WifiNetState::WifiDisconnected;
    assert_eq!(manager_next(stopped, ConnEvent::Start), connecting);
    assert_eq!(manager_next(stopped, ConnEvent::ReconnectRequest), connecting);
    assert_eq!(manager_next(connecting, ConnEvent::ConnectOk), connected);
    assert_eq!(manager_next(connecting, ConnEvent::ConnectFail), connecting);
    assert_eq!(manager_next(connected, ConnEvent::LinkLost), disconnected);
    assert_eq!(manager_next(disconnected, ConnEvent::RetryElapsed), connecting);
    assert_eq!(manager_next(connected, ConnEvent::StopRequest), stopped);
    assert_eq!(manager_next(connecting, ConnEvent::StopRequest), stopped);
    assert_eq!(manager_next(disconnected, ConnEvent::StopRequest), stopped);
}

#[test]
fn acquire_before_any_manager_signals_reinit_then_gives_up() {
    let mut core = WifiCore::boot(0);
    assert_eq!(core.acquire_poll(0, 0, 10), AcquirePoll::Pending);
    assert!(core.reinit_requested);
    assert_eq!(
        core.acquire_poll(0, 4, 10),
        AcquirePoll::Failed(WifiNetError::WaitConnecting)
    );
}

#[test]
fn acquire_grants_exactly_one_live_handle() {
    let mut core = WifiCore::boot(0);
    core.manager_apply(ConnEvent::Start);
    core.manager_apply(ConnEvent::ConnectOk);
    core.stack_ready = true;
    core.link_up = true;
    assert_eq!(core.acquire_poll(0, 1, 10), AcquirePoll::Granted);
    assert!(core.lock_held);
    // a second caller keeps waiting while the handle is live
    assert_eq!(core.acquire_poll(1, 2, 10), AcquirePoll::Pending);
    assert_eq!(
        core.acquire_poll(1, 12, 10),
        AcquirePoll::Failed(WifiNetError::TimeOut)
    );
    core.release(20);
    assert!(!core.lock_held);
    assert_eq!(core.last_use_secs, 20);
    assert_eq!(core.acquire_poll(20, 20, 10), AcquirePoll::Granted);
}

#[test]
fn acquire_from_stopped_signals_reconnect_or_times_out() {
    let mut core = WifiCore::boot(0);
    core.manager_apply(ConnEvent::StopRequest);
    core.stack_ready = true;
    assert_eq!(core.state, Some(WifiNetState::WifiStopped));
    assert_eq!(core.acquire_poll(100, 100, 10), AcquirePoll::Pending);
    assert!(core.reconnect_requested, "a parked manager is asked to reconnect");
    core.manager_apply(ConnEvent::ReconnectRequest);
    assert_eq!(core.state, Some(WifiNetState::WifiConnecting));
    assert!(!core.reconnect_requested, "the signal was consumed");
    // a caller that never sees the link up fails by its bound
    assert_eq!(
        core.acquire_poll(100, 111, 10),
        AcquirePoll::Failed(WifiNetError::TimeOut)
    );
}

#[test]
fn idle_watchdog_stops_a_connected_manager_within_one_tick() {
    let mut core = WifiCore::boot(0);
    core.manager_apply(ConnEvent::Start);
    core.manager_apply(ConnEvent::ConnectOk);
    core.note_activity(100);
    assert!(!core.watchdog_tick(130), "30s of idleness is not yet beyond the window");
    assert!(core.watchdog_tick(131), "31s of idleness closes the radio");
    assert!(core.stop_requested);
    core.manager_apply(ConnEvent::StopRequest);
    assert_eq!(core.state, Some(WifiNetState::WifiStopped));
}

#[test]
fn watchdog_leaves_a_fresh_connection_alone() {
    let mut core = WifiCore::boot(50);
    core.manager_apply(ConnEvent::Start);
    assert!(!core.watchdog_tick(300), "only a connected manager is closed");
}

#[test]
fn force_release_waits_for_the_holder_then_parks_the_manager() {
    let mut core = WifiCore::boot(0);
    core.manager_apply(ConnEvent::Start);
    core.manager_apply(ConnEvent::ConnectOk);
    core.stack_ready = true;
    core.link_up = true;
    assert_eq!(core.acquire_poll(0, 0, 10), AcquirePoll::Granted);
    assert!(!core.force_release_poll(), "never yanks a live handle");
    assert!(!core.stop_requested, "no stop while a caller is in flight");
    core.release(5);
    assert!(!core.force_release_poll(), "now asks the manager to stop");
    assert!(core.stop_requested);
    core.manager_apply(ConnEvent::StopRequest);
    assert!(core.force_release_poll(), "released once the manager parks");
}

#[test]
fn wake_clock_is_the_anchor_plus_the_elapsed_delta() {
    let t0: u64 = 1_700_000_000;
    let rtc0: u64 = 5_000;
    let anchor = make_anchor(t0, rtc0);
    assert!(anchor.is_valid());
    let d_ms: u64 = 12_345;
    assert_eq!(wake_wall_secs(&anchor, rtc0 + d_ms), Some(t0 + 12));
    assert_eq!(wake_wall_secs(&anchor, rtc0), Some(t0));
}

#[test]
fn cleared_anchor_reconstructs_nothing() {
    let anchor = SleepAnchor::cleared();
    assert!(!anchor.is_valid());
    assert_eq!(wake_wall_secs(&anchor, 99_999), None);
}

#[test]
fn maybe_sleep_stays_awake_while_recently_active() {
    let mut core = WifiCore::boot(0);
    core.manager_apply(ConnEvent::Start);
    core.manager_apply(ConnEvent::ConnectOk);
    core.note_activity(100);
    assert_eq!(maybe_sleep_poll(&mut core, 105, 60), SleepDecision::Awake);
}

#[test]
fn maybe_sleep_parks_the_radio_before_sleeping() {
    let mut core = WifiCore::boot(0);
    core.manager_apply(ConnEvent::Start);
    core.manager_apply(ConnEvent::ConnectOk);
    core.note_activity(100);
    assert_eq!(
        maybe_sleep_poll(&mut core, 200, 60),
        SleepDecision::Waiting,
        "idle, but the manager still runs"
    );
    assert!(core.stop_requested);
    core.manager_apply(ConnEvent::StopRequest);
    assert_eq!(core.state, Some(WifiNetState::WifiStopped));
    assert_eq!(
        maybe_sleep_poll(&mut core, 200, 60),
        SleepDecision::EnterSleep,
        "sleep only once the manager is parked"
    );
}

#[test]
fn maybe_sleep_never_sleeps_past_a_live_handle() {
    let mut core = WifiCore::boot(0);
    core.manager_apply(ConnEvent::Start);
    core.manager_apply(ConnEvent::ConnectOk);
    core.stack_ready = true;
    core.link_up = true;
    assert_eq!(core.acquire_poll(0, 0, 10), AcquirePoll::Granted);
    core.last_use_secs = 0;
    assert_eq!(maybe_sleep_poll(&mut core, 500, 60), SleepDecision::Waiting);
    assert!(
        !core.stop_requested,
        "the in-flight caller finishes before the radio is stopped"
    );
}
