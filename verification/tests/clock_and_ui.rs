use smartclock::ec11::{RotateState, WheelDirection};
use smartclock::event::{EventInfo, EventType};
use smartclock::model::{FinishType, TimerLog, WorkItem};
use smartclock::pages::{
    CalendarPage, ClockPage, CountDownPage, GamesPage, InitPage, QrcodePage, TimerPage,
};
use smartclock::worldtime::{
    civil_from_days, date_of_local_secs, days_in_month, is_leap_year, local_secs, needs_resync,
    sync_time_success, week_day_index, Clock,
};

#[test]
fn clock_keeps_the_set_time() {
    let mut clock = Clock::new();
    assert_eq!(clock.sys_start_ms, 0);
    // synced to 1,000,000 ms wall time after 400 ms of uptime
    clock.set_time(1_000_000, 400);
    assert_eq!(clock.now_ms(400), 1_000_000);
    assert_eq!(clock.now_ms(1_400), 1_001_000);
}

#[test]
fn week_day_of_a_known_monday() {
    // 2023-12-31T16:00:00Z is 2024-01-01 00:00 at UTC+8, a Monday
    let wall: u64 = 1_704_038_400;
    assert_eq!(week_day_index(local_secs(wall)), 0);
    // one day later: Tuesday
    assert_eq!(week_day_index(local_secs(wall + 86_400)), 1);
    // the epoch itself fell on a Thursday
    assert_eq!(week_day_index(0), 3);
}

#[test]
fn resync_is_due_when_never_synced_or_stale() {
    assert!(sync_time_success(12));
    assert!(!sync_time_success(0));
    assert!(needs_resync(5_000, 0));
    assert!(!needs_resync(5_000, 3_000));
    assert!(needs_resync(10_000, 3_000));
}

#[test]
fn wheel_runs_extend_and_reset() {
    let mut s = RotateState::new();
    s.do_step(WheelDirection::Front, 1_000);
    assert_eq!(s.steps, 1);
    assert_eq!(s.begin_timestamp, 1_000);
    s.do_step(WheelDirection::Front, 1_100);
    assert_eq!(s.steps, 2, "same direction within the delay extends the run");
    assert_eq!(s.last_timestamp, 1_100);
    s.do_step(WheelDirection::Front, 2_000);
    assert_eq!(s.steps, 1, "a pause starts a new run");
    s.do_step(WheelDirection::Back, 2_050);
    assert_eq!(s.steps, 1, "a direction change starts a new run");
    assert_eq!(s.wheel_direction, WheelDirection::Back);
}

#[test]
fn event_info_carries_the_subscriber_handle() {
    let info = EventInfo {
        ptr: Some(7),
        rotate_state: None,
    };
    assert_eq!(info.ptr, Some(7));
    assert_eq!(EventType::KeyShort(1), EventType::KeyShort(1));
    assert_ne!(EventType::KeyShort(1), EventType::KeyShort(2));
}

#[test]
fn clock_page_selection_stays_inside_its_bounds() {
    let mut p = ClockPage::new();
    p.decrease();
    assert_eq!(p.choose_index, 0, "cannot go below zero");
    p.increase();
    assert_eq!(p.choose_index, 1);
    p.choose_index = 500;
    p.increase();
    assert_eq!(p.choose_index, 500, "saturates at the top");
    p.back();
    assert!(!p.running);
}

#[test]
fn count_down_page_selection_moves_and_marks_render() {
    let mut p = CountDownPage::new();
    assert!(p.need_render);
    p.need_render = false;
    p.increase();
    assert_eq!(p.choose_index, 1);
    assert!(p.need_render);
    p.decrease();
    assert_eq!(p.choose_index, 0);
    p.back();
    assert!(!p.running);
}

#[test]
fn games_page_boots_the_machine_with_its_rom() {
    let rom = [0x60u8, 0x2a]; // V0 = 42
    let mut p = GamesPage::new(&rom);
    assert!(p.running);
    assert_eq!(p.chip8.get_register_pc(), 0x200);
    p.chip8.execute_cycle();
    assert_eq!(p.chip8.get_register_v()[0], 42);
    p.step_frame();
    p.back();
    assert!(!p.running);
}

#[test]
fn remaining_pages_start_in_their_documented_state() {
    let mut init = InitPage::new();
    assert_eq!(init.top, 0);
    init.advance(16);
    assert_eq!(init.top, 16);
    let q = QrcodePage::new();
    assert!(!q.running && !q.need_render);
    let c = CalendarPage::new();
    assert!(!c.running && !c.need_render);
    let mut t = TimerPage::new();
    assert!(t.running && !t.starting);
    t.toggle_starting();
    assert!(t.starting && t.need_render);
    t.back();
    assert!(!t.running);
}

#[test]
fn timer_log_records_the_interval() {
    let log = TimerLog::finished(WorkItem::Learn, FinishType::Success, 1_000, 2_500);
    assert_eq!(log.interval, 1_500);
    assert!(!log.is_sync);
    assert_eq!(log.work_type, WorkItem::Learn);
    assert_eq!(log.finish_type, FinishType::Success);
}

#[test]
fn month_lengths_follow_the_leap_rule() {
    assert!(is_leap_year(2024));
    assert!(!is_leap_year(2023));
    assert!(!is_leap_year(1900));
    assert!(is_leap_year(2000));
    assert_eq!(days_in_month(2024, 2), 29);
    assert_eq!(days_in_month(2023, 2), 28);
    assert_eq!(days_in_month(2024, 1), 31);
    assert_eq!(days_in_month(2024, 4), 30);
    assert_eq!(days_in_month(2024, 12), 31);
}

#[test]
fn civil_dates_of_known_day_numbers() {
    assert_eq!(civil_from_days(0), (1970, 1, 1));
    assert_eq!(civil_from_days(30), (1970, 1, 31));
    assert_eq!(civil_from_days(31), (1970, 2, 1));
    assert_eq!(civil_from_days(365), (1971, 1, 1));
    // 1972 is the first leap year after the epoch
    assert_eq!(civil_from_days(789), (1972, 2, 29));
    assert_eq!(civil_from_days(790), (1972, 3, 1));
    // 2024-01-01, and the leap day 59 days later
    assert_eq!(civil_from_days(19_723), (2024, 1, 1));
    assert_eq!(civil_from_days(19_723 + 59), (2024, 2, 29));
}

#[test]
fn displayed_date_comes_from_the_local_seconds() {
    // 2023-12-31T16:00:00Z is already 2024-01-01 at UTC+8
    let wall: u64 = 1_704_038_400;
    assert_eq!(date_of_local_secs(local_secs(wall)), (2024, 1, 1));
    assert_eq!(date_of_local_secs(wall), (2023, 12, 31));
}
