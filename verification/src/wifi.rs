//! Wi-Fi connection state machine and the access broker in front of it.
//!
//! The radio is a single shared resource.  A manager task owns the
//! connection state; consumer tasks go through the broker, which hands out
//! at most one live handle at a time and closes the radio after a period of
//! idleness.  The functions here are the decision steps of those loops:
//! the surrounding tasks perform the actual radio and socket work and feed
//! events and clock readings in as plain values.

use vstd::prelude::*;

verus! {

/// Radio mode chosen once at boot: access point while unprovisioned,
/// station once credentials exist.
#[derive(Eq, PartialEq, Copy, Clone, Debug, Structural)]
pub enum WifiModel {
    AP,
    STA,
}

/// Connection state owned by the manager task.
#[derive(Eq, PartialEq, Copy, Clone, Debug, Structural)]
pub enum WifiNetState {
    WifiConnecting,
    WifiConnected,
    WifiDisconnected,
    WifiStopped,
}

/// Errors surfaced to a caller of the broker.
#[derive(Eq, PartialEq, Copy, Clone, Debug, Structural)]
pub enum WifiNetError {
    /// No manager has come up within the initial wait.
    WaitConnecting,
    /// The link or the held flag did not clear within the timeout.
    TimeOut,
    /// No network stack exists at all.
    Infallible,
    /// The stack is busy with another holder.
    Using,
}

/// Events consumed by the manager task's loop.
#[derive(Eq, PartialEq, Copy, Clone, Debug, Structural)]
pub enum ConnEvent {
    /// `start()` was called on a parked manager.
    Start,
    /// A reconnect was requested while parked.
    ReconnectRequest,
    /// Association and DHCP succeeded.
    ConnectOk,
    /// Association failed; the manager backs off and retries.
    ConnectFail,
    /// The link-layer disconnect event fired.
    LinkLost,
    /// The brief grace period after a disconnect elapsed.
    RetryElapsed,
    /// An explicit stop was signalled; it wins every race.
    StopRequest,
}

/// Seconds a broker caller waits for a manager to appear at all.
pub const INIT_WAIT_SECS: u64 = 3;

/// Seconds of idleness after which the watchdog closes the radio.
pub const IDLE_CLOSE_SECS: u64 = 30;

/// Fixed backoff between association attempts, in milliseconds.
pub const CONNECT_RETRY_BACKOFF_MS: u64 = 5000;

/// Grace period after a link loss before reconnecting, in milliseconds.
pub const DISCONNECT_GRACE_MS: u64 = 1000;

/// The mode the device must boot into, given whether credentials were
/// provisioned: a provisioned device joins a network, an unprovisioned one
/// opens its own access point for the captive portal.
pub fn boot_mode(provisioned: bool) -> (m: WifiModel)
    ensures
        m == (if provisioned { WifiModel::STA } else { WifiModel::AP }),
{
    if provisioned {
        WifiModel::STA
    } else {
        WifiModel::AP
    }
}

/// The manager's transition function.  A stop request wins in every state;
/// association failures keep the manager connecting forever; a lost link
/// heals back into `WifiConnecting` after the grace period unless a stop
/// arrived first.
pub open spec fn spec_manager_next(s: WifiNetState, e: ConnEvent) -> WifiNetState {
    match e {
        ConnEvent::StopRequest => WifiNetState::WifiStopped,
        ConnEvent::Start => if s == WifiNetState::WifiStopped {
            WifiNetState::WifiConnecting
        } else {
            s
        },
        ConnEvent::ReconnectRequest => if s == WifiNetState::WifiStopped {
            WifiNetState::WifiConnecting
        } else {
            s
        },
        ConnEvent::ConnectOk => if s == WifiNetState::WifiConnecting {
            WifiNetState::WifiConnected
        } else {
            s
        },
        ConnEvent::ConnectFail => s,
        ConnEvent::LinkLost => if s == WifiNetState::WifiConnected {
            WifiNetState::WifiDisconnected
        } else {
            s
        },
        ConnEvent::RetryElapsed => if s == WifiNetState::WifiDisconnected {
            WifiNetState::WifiConnecting
        } else {
            s
        },
    }
}

/// One step of the manager's loop, as an executable function.
pub fn manager_next(s: WifiNetState, e: ConnEvent) -> (n: WifiNetState)
    ensures
        n == spec_manager_next(s, e),
{
    match e {
        ConnEvent::StopRequest => WifiNetState::WifiStopped,
        ConnEvent::Start => if s == WifiNetState::WifiStopped {
            WifiNetState::WifiConnecting
        } else {
            s
        },
        ConnEvent::ReconnectRequest => if s == WifiNetState::WifiStopped {
            WifiNetState::WifiConnecting
        } else {
            s
        },
        ConnEvent::ConnectOk => if s == WifiNetState::WifiConnecting {
            WifiNetState::WifiConnected
        } else {
            s
        },
        ConnEvent::ConnectFail => s,
        ConnEvent::LinkLost => if s == WifiNetState::WifiConnected {
            WifiNetState::WifiDisconnected
        } else {
            s
        },
        ConnEvent::RetryElapsed => if s == WifiNetState::WifiDisconnected {
            WifiNetState::WifiConnecting
        } else {
            s
        },
    }
}

/// An edge the connection state is allowed to take: stay put, follow the
/// documented ring, or park on an explicit stop.
pub open spec fn allowed_transition(s: WifiNetState, n: WifiNetState) -> bool {
    ||| n == s
    ||| (s == WifiNetState::WifiStopped && n == WifiNetState::WifiConnecting)
    ||| (s == WifiNetState::WifiConnecting && n == WifiNetState::WifiConnected)
    ||| (s == WifiNetState::WifiConnected && n == WifiNetState::WifiDisconnected)
    ||| (s == WifiNetState::WifiDisconnected && n == WifiNetState::WifiConnecting)
    ||| n == WifiNetState::WifiStopped
}

/// Every event takes the manager along an allowed edge only: the state ring
/// `Stopped -> Connecting -> Connected -> Disconnected -> Connecting`, with
/// an explicit stop allowed from anywhere.
pub proof fn lemma_manager_transitions_allowed(s: WifiNetState, e: ConnEvent)
    ensures
        allowed_transition(s, spec_manager_next(s, e)),
{
}

/// Outcome of one poll of the broker's acquire loop.
#[derive(Eq, PartialEq, Copy, Clone, Debug, Structural)]
pub enum AcquirePoll {
    /// The caller now holds the single live handle.
    Granted,
    /// Keep waiting; the bound has not elapsed yet.
    Pending,
    /// Give up with the stated error.
    Failed(WifiNetError),
}

/// Shared state of the connectivity core: the manager's connection state,
/// the broker's held flag, the one-shot request signals, and the idle
/// clock.  The manager task, the broker callers, the idle watchdog and the
/// sleep scheduler all step this struct through the functions below.
#[derive(Eq, PartialEq, Copy, Clone, Debug, Structural)]
pub struct WifiCore {
    /// `None` until a manager task has come up at all.
    pub state: Option<WifiNetState>,
    /// The link layer reports up and an address is assigned.
    pub link_up: bool,
    /// A network stack exists for callers to use.
    pub stack_ready: bool,
    /// The broker's mutual-exclusion flag: true while a handle is live.
    pub lock_held: bool,
    /// One-shot signal asking the manager to park.
    pub stop_requested: bool,
    /// One-shot signal asking a parked manager to reconnect.
    pub reconnect_requested: bool,
    /// One-shot signal asking for a manager to be brought up at all.
    pub reinit_requested: bool,
    /// Idle clock: the last instant of UI or successful network activity.
    pub last_use_secs: u64,
}

impl WifiCore {
    /// The state of a freshly booted device: no manager, nothing held.
    pub fn boot(now_secs: u64) -> (c: WifiCore)
        ensures
            c.state is None,
            !c.link_up,
            !c.stack_ready,
            !c.lock_held,
            !c.stop_requested,
            !c.reconnect_requested,
            !c.reinit_requested,
            c.last_use_secs == now_secs,
    {
        WifiCore {
            state: None,
            link_up: false,
            stack_ready: false,
            lock_held: false,
            stop_requested: false,
            reconnect_requested: false,
            reinit_requested: false,
            last_use_secs: now_secs,
        }
    }

    /// The manager consumed an event: the connection state follows the
    /// transition function, and the signal that carried the event is reset.
    pub fn manager_apply(&mut self, e: ConnEvent)
        ensures
            final(self).state == Some(
                spec_manager_next(
                    match old(self).state {
                        Some(s) => s,
                        None => WifiNetState::WifiStopped,
                    },
                    e,
                ),
            ),
            final(self).stop_requested == (old(self).stop_requested && e != ConnEvent::StopRequest),
            final(self).reconnect_requested == (old(self).reconnect_requested
                && e != ConnEvent::ReconnectRequest),
            final(self).reinit_requested == (old(self).reinit_requested && e != ConnEvent::Start),
            final(self).link_up == old(self).link_up,
            final(self).stack_ready == old(self).stack_ready,
            final(self).lock_held == old(self).lock_held,
            final(self).last_use_secs == old(self).last_use_secs,
    {
        let cur = match self.state {
            Some(s) => s,
            None => WifiNetState::WifiStopped,
        };
        self.state = Some(manager_next(cur, e));
        match e {
            ConnEvent::StopRequest => {
                self.stop_requested = false;
            },
            ConnEvent::ReconnectRequest => {
                self.reconnect_requested = false;
            },
            ConnEvent::Start => {
                self.reinit_requested = false;
            },
            _ => {},
        }
    }

    /// The UI or a finished network operation touched the device: refresh
    /// the idle clock.
    pub fn note_activity(&mut self, now_secs: u64)
        ensures
            *final(self) == (WifiCore { last_use_secs: now_secs, ..*old(self) }),
    {
        self.last_use_secs = now_secs;
    }
}

/// The core after one poll of `acquire`, started at `started_secs` and
/// polled at `now_secs` with bound `timeout_secs`.
pub open spec fn spec_acquire_state(
    s: WifiCore,
    started_secs: u64,
    now_secs: u64,
    timeout_secs: u64,
) -> WifiCore {
    if s.state is None {
        WifiCore { reinit_requested: true, ..s }
    } else {
        let s1 = if s.state == Some(WifiNetState::WifiStopped) {
            WifiCore { reconnect_requested: true, ..s }
        } else {
            s
        };
        let s2 = WifiCore { last_use_secs: now_secs, ..s1 };
        if s.stack_ready && s.link_up && !s.lock_held && now_secs - started_secs
            <= timeout_secs {
            WifiCore { lock_held: true, ..s2 }
        } else {
            s2
        }
    }
}

/// The outcome of that same poll.
pub open spec fn spec_acquire_out(
    s: WifiCore,
    started_secs: u64,
    now_secs: u64,
    timeout_secs: u64,
) -> AcquirePoll {
    if s.state is None {
        if now_secs - started_secs > INIT_WAIT_SECS {
            AcquirePoll::Failed(WifiNetError::WaitConnecting)
        } else {
            AcquirePoll::Pending
        }
    } else if !s.stack_ready {
        AcquirePoll::Failed(WifiNetError::Infallible)
    } else if now_secs - started_secs > timeout_secs {
        AcquirePoll::Failed(WifiNetError::TimeOut)
    } else if s.link_up && !s.lock_held {
        AcquirePoll::Granted
    } else {
        AcquirePoll::Pending
    }
}

impl WifiCore {
    /// One poll of `acquire(timeout)`.  While no manager exists it raises
    /// the reinit signal and waits up to `INIT_WAIT_SECS`; while the
    /// manager is parked it raises the reconnect signal; then it waits,
    /// bounded by the timeout, for the link to be up and the held flag to
    /// be clear, and takes the flag in the same step that grants.  The
    /// surrounding task loops on `Pending` with a short delay.
    pub fn acquire_poll(&mut self, started_secs: u64, now_secs: u64, timeout_secs: u64) -> (r:
        AcquirePoll)
        requires
            started_secs <= now_secs,
        ensures
            *final(self) == spec_acquire_state(*old(self), started_secs, now_secs, timeout_secs),
            r == spec_acquire_out(*old(self), started_secs, now_secs, timeout_secs),
    {
        if self.state.is_none() {
            self.reinit_requested = true;
            if now_secs - started_secs > INIT_WAIT_SECS {
                return AcquirePoll::Failed(WifiNetError::WaitConnecting);
            }
            return AcquirePoll::Pending;
        }
        if self.state == Some(WifiNetState::WifiStopped) {
            self.reconnect_requested = true;
        }
        let in_time = now_secs - started_secs <= timeout_secs;
        let can_grant = self.stack_ready && self.link_up && !self.lock_held && in_time;
        self.last_use_secs = now_secs;
        if can_grant {
            self.lock_held = true;
        }
        if !self.stack_ready {
            AcquirePoll::Failed(WifiNetError::Infallible)
        } else if !in_time {
            AcquirePoll::Failed(WifiNetError::TimeOut)
        } else if can_grant {
            AcquirePoll::Granted
        } else {
            AcquirePoll::Pending
        }
    }

    /// `release(handle)`: clear the held flag and refresh the idle clock.
    /// Called on every exit path of a caller that acquired a handle.
    pub fn release(&mut self, now_secs: u64)
        ensures
            *final(self) == (WifiCore {
                lock_held: false,
                last_use_secs: now_secs,
                ..*old(self)
            }),
    {
        self.lock_held = false;
        self.last_use_secs = now_secs;
    }

    /// One tick of the idle watchdog: when the manager is connected and the
    /// idle clock shows no activity for longer than `IDLE_CLOSE_SECS`, it
    /// signals a stop and drops any stale held flag.  Returns whether it
    /// fired.
    pub fn watchdog_tick(&mut self, now_secs: u64) -> (fired: bool)
        requires
            old(self).last_use_secs <= now_secs,
        ensures
            fired == (old(self).state == Some(WifiNetState::WifiConnected) && now_secs - old(
                self,
            ).last_use_secs > IDLE_CLOSE_SECS),
            fired ==> *final(self) == (WifiCore {
                stop_requested: true,
                lock_held: false,
                ..*old(self)
            }),
            !fired ==> *final(self) == *old(self),
    {
        if self.state == Some(WifiNetState::WifiConnected) && now_secs - self.last_use_secs
            > IDLE_CLOSE_SECS {
            self.stop_requested = true;
            self.lock_held = false;
            true
        } else {
            false
        }
    }

    /// One poll of the sleep scheduler's `force_release`.  It never yanks a
    /// live handle: while one is held it only waits.  Once the flag is
    /// clear it signals a stop and keeps waiting until the manager parks.
    /// Returns whether the radio is now fully released.
    pub fn force_release_poll(&mut self) -> (done: bool)
        ensures
            done == (!old(self).lock_held && (old(self).state is None || old(self).state == Some(
                WifiNetState::WifiStopped,
            ))),
            done ==> *final(self) == *old(self),
            !done ==> *final(self) == (WifiCore {
                stop_requested: (old(self).stop_requested || !old(self).lock_held),
                ..*old(self)
            }),
    {
        if self.lock_held {
            return false;
        }
        match self.state {
            None => true,
            Some(s) => {
                if s == WifiNetState::WifiStopped {
                    true
                } else {
                    self.stop_requested = true;
                    false
                }
            },
        }
    }
}

/// One operation of a logical task against the shared core, with the clock
/// readings it was made at.  A trace of these models any interleaving of
/// the cooperative tasks: each operation runs without an intervening
/// suspension point.
#[derive(Eq, PartialEq, Copy, Clone, Debug, Structural)]
pub enum BrokerOp {
    /// One poll of `acquire(timeout)`.
    Acquire { started_secs: u64, now_secs: u64, timeout_secs: u64 },
    /// A holder gave its handle back.
    Release { now_secs: u64 },
    /// The idle watchdog ticked.
    Watchdog { now_secs: u64 },
    /// The sleep scheduler polled `force_release`.
    ForceRelease,
    /// The manager consumed an event.
    Manager { event: ConnEvent },
    /// The UI or a finished network operation refreshed the idle clock.
    Activity { now_secs: u64 },
}

/// The core after the manager consumed an event (the spec-level shadow of
/// `manager_apply`).
pub open spec fn spec_manager_apply(s: WifiCore, e: ConnEvent) -> WifiCore {
    WifiCore {
        state: Some(
            spec_manager_next(
                match s.state {
                    Some(st) => st,
                    None => WifiNetState::WifiStopped,
                },
                e,
            ),
        ),
        stop_requested: s.stop_requested && e != ConnEvent::StopRequest,
        reconnect_requested: s.reconnect_requested && e != ConnEvent::ReconnectRequest,
        reinit_requested: s.reinit_requested && e != ConnEvent::Start,
        ..s
    }
}

/// The core after one tick of the watchdog.
pub open spec fn spec_watchdog(s: WifiCore, now_secs: u64) -> WifiCore {
    if s.state == Some(WifiNetState::WifiConnected) && now_secs - s.last_use_secs
        > IDLE_CLOSE_SECS {
        WifiCore { stop_requested: true, lock_held: false, ..s }
    } else {
        s
    }
}

/// The core after one poll of `force_release`.
pub open spec fn spec_force_release(s: WifiCore) -> WifiCore {
    if s.lock_held {
        s
    } else if s.state is None || s.state == Some(WifiNetState::WifiStopped) {
        s
    } else {
        WifiCore { stop_requested: true, ..s }
    }
}

/// The core after one operation of the trace.
pub open spec fn spec_broker_step(s: WifiCore, op: BrokerOp) -> WifiCore {
    match op {
        BrokerOp::Acquire { started_secs, now_secs, timeout_secs } => spec_acquire_state(
            s,
            started_secs,
            now_secs,
            timeout_secs,
        ),
        BrokerOp::Release { now_secs } => WifiCore {
            lock_held: false,
            last_use_secs: now_secs,
            ..s
        },
        BrokerOp::Watchdog { now_secs } => spec_watchdog(s, now_secs),
        BrokerOp::ForceRelease => spec_force_release(s),
        BrokerOp::Manager { event } => spec_manager_apply(s, event),
        BrokerOp::Activity { now_secs } => WifiCore { last_use_secs: now_secs, ..s },
    }
}

/// The core after a whole trace of operations.
pub open spec fn spec_broker_run(s: WifiCore, ops: Seq<BrokerOp>) -> WifiCore
    decreases ops.len(),
{
    if ops.len() == 0 {
        s
    } else {
        spec_broker_run(spec_broker_step(s, ops[0]), ops.skip(1))
    }
}

/// Whether an acquire poll made in core state `s` grants a handle.
pub open spec fn grants(s: WifiCore, op: BrokerOp) -> bool {
    match op {
        BrokerOp::Acquire { started_secs, now_secs, timeout_secs } => spec_acquire_out(
            s,
            started_secs,
            now_secs,
            timeout_secs,
        ) == AcquirePoll::Granted,
        _ => false,
    }
}

/// The number of live handles: the held flag is the one token.
pub open spec fn live_handles(s: WifiCore) -> nat {
    if s.lock_held {
        1
    } else {
        0
    }
}

/// Mutual exclusion, step form: an acquire poll made while a handle is
/// live never grants a second one, and a grant leaves the flag taken.
pub proof fn lemma_no_second_grant(s: WifiCore, started_secs: u64, now_secs: u64, timeout_secs: u64)
    ensures
        s.lock_held ==> spec_acquire_out(s, started_secs, now_secs, timeout_secs)
            != AcquirePoll::Granted,
        spec_acquire_out(s, started_secs, now_secs, timeout_secs) == AcquirePoll::Granted
            ==> spec_acquire_state(s, started_secs, now_secs, timeout_secs).lock_held,
{
}

/// Mutual exclusion over any interleaving: whatever sequence of acquire,
/// release, watchdog, force-release, manager and activity operations the
/// concurrent tasks perform, at most one live handle exists at every
/// instant, and at the instant of every grant no other handle is live.
pub proof fn lemma_mutual_exclusion(s0: WifiCore, ops: Seq<BrokerOp>, k: int)
    requires
        0 <= k <= ops.len(),
    ensures
        live_handles(spec_broker_run(s0, ops.take(k))) <= 1,
        k < ops.len() && grants(spec_broker_run(s0, ops.take(k)), ops[k]) ==> live_handles(
            spec_broker_run(s0, ops.take(k)),
        ) == 0,
    decreases k,
{
    if k > 0 {
        lemma_mutual_exclusion(s0, ops, k - 1);
        assert(ops.take(k).drop_first() =~= ops.skip(1).take(k - 1));
        lemma_broker_run_unfold(s0, ops.take(k));
    }
}

/// Unfolding step for a nonempty trace.
proof fn lemma_broker_run_unfold(s0: WifiCore, ops: Seq<BrokerOp>)
    requires
        ops.len() > 0,
    ensures
        spec_broker_run(s0, ops) == spec_broker_run(spec_broker_step(s0, ops[0]), ops.drop_first()),
{
    assert(ops.drop_first() =~= ops.skip(1));
}

/// A pending acquire never outlives its bound: each poll either fails by
/// the deadline or answers while still inside it, and a poll made while
/// the manager is parked raises the reconnect signal in the same step.
/// So an acquire started in the `Stopped` state observes `Connecting`
/// within the bound (the manager consumes the signal) or returns a timeout.
pub proof fn lemma_acquire_bounded(s: WifiCore, started_secs: u64, now_secs: u64, timeout_secs: u64)
    requires
        started_secs <= now_secs,
    ensures
        spec_acquire_out(s, started_secs, now_secs, timeout_secs) == AcquirePoll::Pending ==> (
        now_secs - started_secs) <= (if s.state is None {
            INIT_WAIT_SECS
        } else {
            timeout_secs
        }),
        s.state == Some(WifiNetState::WifiStopped) ==> spec_acquire_state(
            s,
            started_secs,
            now_secs,
            timeout_secs,
        ).reconnect_requested,
        spec_manager_next(WifiNetState::WifiStopped, ConnEvent::ReconnectRequest)
            == WifiNetState::WifiConnecting,
{
}

/// Idle auto-disconnect: when the manager is connected and the idle clock
/// has not moved for longer than `IDLE_CLOSE_SECS`, one watchdog tick
/// raises the stop signal, and the manager's very next step on that signal
/// parks it in `WifiStopped`.
pub proof fn lemma_idle_auto_disconnect(s: WifiCore, now_secs: u64)
    requires
        s.last_use_secs <= now_secs,
        s.state == Some(WifiNetState::WifiConnected),
        now_secs - s.last_use_secs > IDLE_CLOSE_SECS,
    ensures
        spec_watchdog(s, now_secs).stop_requested,
        spec_manager_apply(spec_watchdog(s, now_secs), ConnEvent::StopRequest).state == Some(
            WifiNetState::WifiStopped,
        ),
{
}

} // verus!
