//! Records of finished timer sessions, kept for later upload.

use vstd::prelude::*;

verus! {

/// How a timer session ended.
#[derive(Eq, PartialEq, Copy, Clone, Debug, Structural)]
pub enum FinishType {
    Success,
    Fail,
    Abort,
}

/// What the session was spent on.
#[derive(Eq, PartialEq, Copy, Clone, Debug, Structural)]
pub enum WorkItem {
    Learn,
    Eat,
    Write,
    Read,
    WatchTv,
    PlayGame,
    UsePhone,
}

/// One finished timer session.
#[derive(Eq, PartialEq, Copy, Clone, Debug, Structural)]
pub struct TimerLog {
    pub is_sync: bool,
    pub finish_type: FinishType,
    pub begin_timestamp: u64,
    pub end_timestamp: u64,
    pub interval: u64,
    pub work_type: WorkItem,
}

impl TimerLog {
    /// A session that ran from `begin` to `end`.  Its interval is the
    /// elapsed time, and it has not been uploaded yet.
    pub fn finished(
        work_type: WorkItem,
        finish_type: FinishType,
        begin_timestamp: u64,
        end_timestamp: u64,
    ) -> (t: TimerLog)
        requires
            begin_timestamp <= end_timestamp,
        ensures
            t == (TimerLog {
                is_sync: false,
                finish_type,
                begin_timestamp,
                end_timestamp,
                interval: (end_timestamp - begin_timestamp) as u64,
                work_type,
            }),
    {
        TimerLog {
            is_sync: false,
            finish_type,
            begin_timestamp,
            end_timestamp,
            interval: end_timestamp - begin_timestamp,
            work_type,
        }
    }
}

} // verus!
