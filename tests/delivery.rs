use std::collections::VecDeque;
use timelapse::delivery::{Drain, TransferOutcome};
use timelapse::retention::{retention_victims, VideoFile};

fn queue(names: &[&str]) -> VecDeque<String> {
    names.iter().map(|s| s.to_string()).collect()
}

/// Runs one delivery with the given outcomes; returns the names handed out
/// and the queue left behind.
fn run(names: &[&str], outcomes: &[TransferOutcome]) -> (Vec<String>, VecDeque<String>) {
    let mut drain = Drain::new(queue(names));
    let mut handed = Vec::new();
    let mut k = 0;
    while let Some(name) = drain.next_item() {
        handed.push(name);
        drain.report(outcomes[k]);
        k += 1;
    }
    (handed, drain.into_queue())
}

#[test]
fn read_failure_moves_item_behind_the_rest() {
    let (handed, left) = run(&["A", "B", "C"], &[TransferOutcome::ReadFailed]);
    assert_eq!(handed, vec!["A".to_string()]);
    assert_eq!(left, queue(&["B", "C", "A"]));
}

#[test]
fn send_failure_after_success_stops_class() {
    let (handed, left) = run(
        &["A", "B", "C"],
        &[TransferOutcome::Delivered, TransferOutcome::SendFailed],
    );
    assert_eq!(handed, vec!["A".to_string(), "B".to_string()]);
    assert_eq!(left, queue(&["C", "B"]));
}

#[test]
fn write_and_eof_failures_requeue() {
    let (_, left) = run(&["A", "B"], &[TransferOutcome::WriteFailed]);
    assert_eq!(left, queue(&["B", "A"]));
    let (_, left) = run(&["A", "B"], &[TransferOutcome::EofFailed]);
    assert_eq!(left, queue(&["B", "A"]));
}

#[test]
fn close_failure_counts_as_delivered_and_stops() {
    let (handed, left) = run(&["A", "B", "C"], &[TransferOutcome::CloseFailed]);
    assert_eq!(handed, vec!["A".to_string()]);
    assert_eq!(left, queue(&["B", "C"]));
}

#[test]
fn missing_file_is_dropped_and_delivery_goes_on() {
    let (handed, left) = run(
        &["A", "B", "C"],
        &[TransferOutcome::Missing, TransferOutcome::Delivered, TransferOutcome::ReadFailed],
    );
    assert_eq!(handed.len(), 3);
    assert_eq!(left, queue(&["C"]));
}

#[test]
fn single_successful_transfer_empties_queue() {
    let (handed, left) = run(&["daily-2024-01-01.mp4"], &[TransferOutcome::Delivered]);
    assert_eq!(handed, vec!["daily-2024-01-01.mp4".to_string()]);
    assert!(left.is_empty());
}

#[test]
fn empty_queue_hands_out_nothing() {
    let (handed, left) = run(&[], &[]);
    assert!(handed.is_empty());
    assert!(left.is_empty());
}

#[test]
fn outcome_classes() {
    assert!(TransferOutcome::ReadFailed.is_requeued());
    assert!(!TransferOutcome::CloseFailed.is_requeued());
    assert!(TransferOutcome::CloseFailed.is_halting());
    assert!(!TransferOutcome::Missing.is_halting());
    assert!(!TransferOutcome::Delivered.is_halting());
}

#[test]
fn delivered_video_is_kept_until_its_horizon_then_removed() {
    let (_, left) = run(&["daily-2024-01-01.mp4"], &[TransferOutcome::Delivered]);
    assert!(left.is_empty());
    let young = vec![VideoFile { name: "daily-2024-01-01.mp4".to_string(), age_secs: 3600 }];
    assert!(retention_victims(&young, &left, 5).is_empty());
    let old = vec![VideoFile { name: "daily-2024-01-01.mp4".to_string(), age_secs: 6 * 86400 }];
    assert_eq!(retention_victims(&old, &left, 5), vec!["daily-2024-01-01.mp4".to_string()]);
}

#[test]
fn undelivered_video_is_never_removed() {
    let (_, left) = run(&["daily-2024-01-01.mp4"], &[TransferOutcome::WriteFailed]);
    let old = vec![VideoFile { name: "daily-2024-01-01.mp4".to_string(), age_secs: 600 * 86400 }];
    assert!(retention_victims(&old, &left, 5).is_empty());
}
