use crate::calendar::{prev_date, Date, Stamp};
use crate::naming::{
    daily_shot_filename, daily_shot_name, daily_video_filename, daily_video_name,
    longterm_shot_filename, longterm_shot_name, longterm_video_filename, longterm_video_name,
};
use crate::state::{State, VideoClass};
use vstd::prelude::*;

verus! {

/// Minutes between two short-cycle shots.
pub const DAILY_TIMELAPSE_SHOT_INTERVAL_MINUTES: u32 = 2;

/// Hour of the day at which the long-cycle shot is taken.
pub const LONG_TERM_TIMELAPSE_SHOT_HOUR: u32 = 12;

/// Frame rate of short-cycle videos.
pub const DAILY_TIMELAPSE_FPS: u32 = 25;

/// Frame rate of long-cycle videos.
pub const LONG_TERM_TIMELAPSE_FPS: u32 = 15;

/// Days a delivered short-cycle video is kept.
pub const KEEP_DAILY_TIMELAPSE_VIDEOS_DAYS: u64 = 5;

/// Days a delivered long-cycle video is kept.
pub const KEEP_LONG_TERM_TIMELAPSE_VIDEOS_DAYS: u64 = 31;

/// The tunable constants of the schedule.
#[derive(Clone, Copy, Debug, PartialEq, Eq, Structural)]
pub struct Config {
    pub shot_interval_minutes: u32,
    pub longterm_shot_hour: u32,
    pub daily_fps: u32,
    pub longterm_fps: u32,
    pub daily_keep_days: u64,
    pub longterm_keep_days: u64,
}

impl Config {
    pub open spec fn wf(&self) -> bool {
        self.shot_interval_minutes > 0 && self.longterm_shot_hour < 24
    }

    /// The daemon's standard settings.
    pub fn standard() -> (r: Config)
        ensures
            r.wf(),
            r.shot_interval_minutes == DAILY_TIMELAPSE_SHOT_INTERVAL_MINUTES,
            r.longterm_shot_hour == LONG_TERM_TIMELAPSE_SHOT_HOUR,
            r.daily_fps == DAILY_TIMELAPSE_FPS,
            r.longterm_fps == LONG_TERM_TIMELAPSE_FPS,
            r.daily_keep_days == KEEP_DAILY_TIMELAPSE_VIDEOS_DAYS,
            r.longterm_keep_days == KEEP_LONG_TERM_TIMELAPSE_VIDEOS_DAYS,
    {
        Config {
            shot_interval_minutes: DAILY_TIMELAPSE_SHOT_INTERVAL_MINUTES,
            longterm_shot_hour: LONG_TERM_TIMELAPSE_SHOT_HOUR,
            daily_fps: DAILY_TIMELAPSE_FPS,
            longterm_fps: LONG_TERM_TIMELAPSE_FPS,
            daily_keep_days: KEEP_DAILY_TIMELAPSE_VIDEOS_DAYS,
            longterm_keep_days: KEEP_LONG_TERM_TIMELAPSE_VIDEOS_DAYS,
        }
    }

    pub open spec fn fps_of(&self, class: VideoClass) -> u32 {
        match class {
            VideoClass::Daily => self.daily_fps,
            VideoClass::LongTerm => self.longterm_fps,
        }
    }

    pub open spec fn keep_days_of(&self, class: VideoClass) -> u64 {
        match class {
            VideoClass::Daily => self.daily_keep_days,
            VideoClass::LongTerm => self.longterm_keep_days,
        }
    }

    /// Frame rate of the videos of `class`.
    pub fn fps(&self, class: VideoClass) -> (r: u32)
        ensures
            r == self.fps_of(class),
    {
        match class {
            VideoClass::Daily => self.daily_fps,
            VideoClass::LongTerm => self.longterm_fps,
        }
    }

    /// Retention horizon, in days, of the videos of `class`.
    pub fn keep_days(&self, class: VideoClass) -> (r: u64)
        ensures
            r == self.keep_days_of(class),
    {
        match class {
            VideoClass::Daily => self.daily_keep_days,
            VideoClass::LongTerm => self.longterm_keep_days,
        }
    }
}

/// Short-cycle shot: on a multiple of the interval, once per minute value.
pub open spec fn daily_capture_due(now: Stamp, last: Stamp, interval_minutes: u32) -> bool {
    now.minute % interval_minutes == 0 && last.minute != now.minute
}

/// Long-cycle shot: at the configured hour, once per day of the month.
pub open spec fn longterm_capture_due(now: Stamp, last: Stamp, hour: u32) -> bool {
    now.hour == hour && last.day != now.day
}

/// Short-cycle video: at the first tick of a new day.
pub open spec fn daily_video_due(now: Stamp, last: Stamp) -> bool {
    now.day != last.day
}

/// Long-cycle video: at the first tick of a new month.
pub open spec fn longterm_video_due(now: Stamp, last: Stamp) -> bool {
    now.month != last.month
}

/// The calendar day before the date of `now`.
pub open spec fn yesterday_of(now: Stamp) -> Date {
    let p = prev_date(now.year as int, now.month as int, now.day as int);
    Date { year: p.0 as i32, month: p.1 as u32, day: p.2 as u32 }
}

pub fn is_daily_capture_due(now: &Stamp, last: &Stamp, interval_minutes: u32) -> (r: bool)
    requires
        interval_minutes > 0,
    ensures
        r == daily_capture_due(*now, *last, interval_minutes),
{
    now.minute % interval_minutes == 0 && last.minute != now.minute
}

pub fn is_longterm_capture_due(now: &Stamp, last: &Stamp, hour: u32) -> (r: bool)
    ensures
        r == longterm_capture_due(*now, *last, hour),
{
    now.hour == hour && last.day != now.day
}

pub fn is_daily_video_due(now: &Stamp, last: &Stamp) -> (r: bool)
    ensures
        r == daily_video_due(*now, *last),
{
    now.day != last.day
}

pub fn is_longterm_video_due(now: &Stamp, last: &Stamp) -> (r: bool)
    ensures
        r == longterm_video_due(*now, *last),
{
    now.month != last.month
}

/// What the daemon is to do in one tick, in this order: compile the videos,
/// then take the shots. Each field holds the output file name of its action,
/// or `None` where the action is not due.
pub struct TickPlan {
    pub daily_video: Option<String>,
    pub longterm_video: Option<String>,
    pub daily_shot: Option<String>,
    pub longterm_shot: Option<String>,
}

/// `Some(name)` with the text `text` where `due`, else `None`.
pub open spec fn names(o: Option<String>, due: bool, text: Seq<char>) -> bool {
    match o {
        Some(n) => due && n@ == text,
        None => !due,
    }
}

/// The timer after a tick at `now`: moved to `now` where its action was due.
pub open spec fn advanced(last: Stamp, now: Stamp, due: bool) -> Stamp {
    if due {
        now
    } else {
        last
    }
}

/// The queue after a tick: the new video's name appended where it was due.
pub open spec fn enqueued(q: Seq<String>, o: Option<String>) -> Seq<String> {
    match o {
        Some(n) => q.push(n),
        None => q,
    }
}

/// Decides the actions of the tick at `now` and records them in `state`.
///
/// Every timer whose action is due moves to `now`, whatever becomes of the
/// action itself; the name of every video to compile is appended to its
/// class's queue.
pub fn plan_tick(state: &mut State, now: &Stamp, config: &Config) -> (plan: TickPlan)
    requires
        old(state).wf(),
        now.wf(),
        config.wf(),
    ensures
        final(state).wf(),
        names(
            plan.daily_video,
            daily_video_due(*now, old(state).last_daily_video),
            daily_video_name(yesterday_of(*now)),
        ),
        names(
            plan.longterm_video,
            longterm_video_due(*now, old(state).last_longterm_video),
            longterm_video_name(yesterday_of(*now)),
        ),
        names(
            plan.daily_shot,
            daily_capture_due(*now, old(state).last_daily_capture, config.shot_interval_minutes),
            daily_shot_name(*now),
        ),
        names(
            plan.longterm_shot,
            longterm_capture_due(*now, old(state).last_longterm_capture, config.longterm_shot_hour),
            longterm_shot_name(*now),
        ),
        final(state).last_daily_video == advanced(
            old(state).last_daily_video,
            *now,
            daily_video_due(*now, old(state).last_daily_video),
        ),
        final(state).last_longterm_video == advanced(
            old(state).last_longterm_video,
            *now,
            longterm_video_due(*now, old(state).last_longterm_video),
        ),
        final(state).last_daily_capture == advanced(
            old(state).last_daily_capture,
            *now,
            daily_capture_due(*now, old(state).last_daily_capture, config.shot_interval_minutes),
        ),
        final(state).last_longterm_capture == advanced(
            old(state).last_longterm_capture,
            *now,
            longterm_capture_due(*now, old(state).last_longterm_capture, config.longterm_shot_hour),
        ),
        final(state).daily_vids_to_upload@ == enqueued(
            old(state).daily_vids_to_upload@,
            plan.daily_video,
        ),
        final(state).longterm_vids_to_upload@ == enqueued(
            old(state).longterm_vids_to_upload@,
            plan.longterm_video,
        ),
{
    let yesterday = now.yesterday();
    assert(yesterday == yesterday_of(*now));

    let daily_video = if is_daily_video_due(now, &state.last_daily_video) {
        let name = daily_video_filename(&yesterday);
        state.enqueue(VideoClass::Daily, name.clone());
        state.last_daily_video = *now;
        Some(name)
    } else {
        None
    };

    let longterm_video = if is_longterm_video_due(now, &state.last_longterm_video) {
        let name = longterm_video_filename(&yesterday);
        state.enqueue(VideoClass::LongTerm, name.clone());
        state.last_longterm_video = *now;
        Some(name)
    } else {
        None
    };

    let daily_shot = if is_daily_capture_due(
        now,
        &state.last_daily_capture,
        config.shot_interval_minutes,
    ) {
        state.last_daily_capture = *now;
        Some(daily_shot_filename(now))
    } else {
        None
    };

    let longterm_shot = if is_longterm_capture_due(
        now,
        &state.last_longterm_capture,
        config.longterm_shot_hour,
    ) {
        state.last_longterm_capture = *now;
        Some(longterm_shot_filename(now))
    } else {
        None
    };

    TickPlan { daily_video, longterm_video, daily_shot, longterm_shot }
}

} // verus!
