use timelapse::calendar::Stamp;
use timelapse::schedule::{
    is_daily_capture_due, is_daily_video_due, is_longterm_capture_due, is_longterm_video_due,
    plan_tick, Config,
};
use timelapse::state::{State, VideoClass};

fn at(y: i32, mo: u32, d: u32, h: u32, mi: u32) -> Stamp {
    Stamp::new(y, mo, d, h, mi, 0, 3600).unwrap()
}

#[test]
fn short_cycle_capture_fires_on_new_interval_minute() {
    let now = at(2024, 1, 5, 10, 4);
    let last = at(2024, 1, 5, 10, 2);
    assert!(is_daily_capture_due(&now, &last, 2));
}

#[test]
fn short_cycle_capture_skips_duplicate_tick() {
    let now = at(2024, 1, 5, 10, 4);
    let last = at(2024, 1, 5, 10, 4);
    assert!(!is_daily_capture_due(&now, &last, 2));
}

#[test]
fn short_cycle_capture_skips_off_interval_minute() {
    let now = at(2024, 1, 5, 10, 5);
    let last = at(2024, 1, 5, 10, 2);
    assert!(!is_daily_capture_due(&now, &last, 2));
}

#[test]
fn long_cycle_capture_fires_once_per_day() {
    let config = Config::standard();
    let mut state = State::default_at(at(2024, 1, 5, 12, 30));
    // The hour passed on the 5th; on the 6th before noon nothing happens.
    let morning = at(2024, 1, 6, 11, 59);
    let plan = plan_tick(&mut state, &morning, &config);
    assert!(plan.longterm_shot.is_none());
    let noon = at(2024, 1, 6, 12, 0);
    let plan = plan_tick(&mut state, &noon, &config);
    assert_eq!(plan.longterm_shot.as_deref(), Some("longterm-2024-01-06.jpg"));
    assert_eq!(state.last_longterm_capture, noon);
    let later = at(2024, 1, 6, 12, 30);
    let plan = plan_tick(&mut state, &later, &config);
    assert!(plan.longterm_shot.is_none());
    assert_eq!(state.last_longterm_capture, noon);
}

#[test]
fn due_rules_for_videos() {
    let a = at(2024, 1, 5, 23, 59);
    let b = at(2024, 1, 6, 0, 0);
    let c = at(2024, 2, 6, 0, 0);
    assert!(is_daily_video_due(&b, &a));
    assert!(!is_daily_video_due(&a, &a));
    assert!(!is_longterm_video_due(&b, &a));
    assert!(is_longterm_video_due(&c, &b));
    assert!(is_longterm_capture_due(&at(2024, 1, 6, 12, 0), &a, 12));
    assert!(!is_longterm_capture_due(&at(2024, 1, 6, 13, 0), &a, 12));
}

#[test]
fn first_tick_of_new_day_compiles_and_enqueues_yesterday() {
    let config = Config::standard();
    let mut state = State::default_at(at(2024, 1, 31, 23, 59));
    let now = at(2024, 2, 1, 0, 0);
    let plan = plan_tick(&mut state, &now, &config);
    assert_eq!(plan.daily_video.as_deref(), Some("daily-2024-01-31.mp4"));
    assert_eq!(plan.longterm_video.as_deref(), Some("longterm-2024-01.mp4"));
    assert_eq!(plan.daily_shot.as_deref(), Some("daily-2024-02-01_0000.jpg"));
    assert!(plan.longterm_shot.is_none());
    assert_eq!(state.daily_vids_to_upload.len(), 1);
    assert_eq!(state.daily_vids_to_upload[0], "daily-2024-01-31.mp4");
    assert_eq!(state.longterm_vids_to_upload[0], "longterm-2024-01.mp4");
    assert_eq!(state.last_daily_video, now);
    assert_eq!(state.last_longterm_video, now);
    assert_eq!(state.last_daily_capture, now);
    assert!(state.has_pending_delivery());
    assert!(state.is_queued(VideoClass::Daily, &"daily-2024-01-31.mp4".to_string()));
    assert!(!state.is_queued(VideoClass::LongTerm, &"daily-2024-01-31.mp4".to_string()));
}

#[test]
fn timers_advance_whatever_the_action_did() {
    // The plan records the new timers before any action runs, so a failed
    // capture or compile cannot make the same boundary fire again.
    let config = Config::standard();
    let mut state = State::default_at(at(2024, 3, 1, 9, 0));
    let now = at(2024, 3, 2, 12, 2);
    let first = plan_tick(&mut state, &now, &config);
    assert!(first.daily_video.is_some());
    assert!(first.daily_shot.is_some());
    assert!(first.longterm_shot.is_some());
    let again = plan_tick(&mut state, &now, &config);
    assert!(again.daily_video.is_none());
    assert!(again.longterm_video.is_none());
    assert!(again.daily_shot.is_none());
    assert!(again.longterm_shot.is_none());
    assert_eq!(state.daily_vids_to_upload.len(), 1);
}

#[test]
fn fresh_state_has_no_pending_delivery() {
    let now = at(2024, 6, 1, 8, 0);
    let state = State::default_at(now);
    assert!(!state.has_pending_delivery());
    assert_eq!(state.last_daily_capture, now);
    assert_eq!(state.last_longterm_video, now);
}

#[test]
fn standard_config_values() {
    let c = Config::standard();
    assert_eq!(c.shot_interval_minutes, 2);
    assert_eq!(c.longterm_shot_hour, 12);
    assert_eq!(c.fps(VideoClass::Daily), 25);
    assert_eq!(c.fps(VideoClass::LongTerm), 15);
    assert_eq!(c.keep_days(VideoClass::Daily), 5);
    assert_eq!(c.keep_days(VideoClass::LongTerm), 31);
}
