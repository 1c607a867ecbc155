use std::collections::VecDeque;
use timelapse::retention::{is_removable, retention_victims, VideoFile};

const DAY: u64 = 86400;

fn file(name: &str, age_secs: u64) -> VideoFile {
    VideoFile { name: name.to_string(), age_secs }
}

#[test]
fn queued_file_is_kept_at_any_age() {
    let q: VecDeque<String> = vec!["old.mp4".to_string()].into_iter().collect();
    assert!(!is_removable(&file("old.mp4", 1000 * DAY), &q, 5));
}

#[test]
fn unqueued_file_goes_only_past_the_horizon() {
    let q: VecDeque<String> = VecDeque::new();
    assert!(!is_removable(&file("a.mp4", 5 * DAY), &q, 5));
    assert!(!is_removable(&file("a.mp4", 6 * DAY - 1), &q, 5));
    assert!(is_removable(&file("a.mp4", 6 * DAY), &q, 5));
}

#[test]
fn victims_are_expired_and_unqueued_in_order() {
    let q: VecDeque<String> = vec!["c.mp4".to_string()].into_iter().collect();
    let files = vec![
        file("a.mp4", 40 * DAY),
        file("b.mp4", 2 * DAY),
        file("c.mp4", 90 * DAY),
        file("d.mp4", 32 * DAY),
    ];
    let v = retention_victims(&files, &q, 31);
    assert_eq!(v, vec!["a.mp4".to_string(), "d.mp4".to_string()]);
}

#[test]
fn delivered_video_stays_until_its_horizon() {
    let q: VecDeque<String> = VecDeque::new();
    let young = vec![file("daily-2024-01-01.mp4", DAY)];
    assert!(retention_victims(&young, &q, 5).is_empty());
    let old = vec![file("daily-2024-01-01.mp4", 7 * DAY)];
    assert_eq!(retention_victims(&old, &q, 5), vec!["daily-2024-01-01.mp4".to_string()]);
}
