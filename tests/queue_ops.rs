use musicbot::error::CommandError;
use musicbot::queue::{Track, TrackQueue};

fn track(name: &str) -> Track {
    Track { url: format!("https://example.com/{}", name), name: name.to_string() }
}

fn names(q: &TrackQueue) -> Vec<String> {
    let mut out = Vec::new();
    let mut i = 0;
    while let Some(t) = q.get(i) {
        out.push(t.name.clone());
        i += 1;
    }
    out
}

fn abc() -> TrackQueue {
    let mut q = TrackQueue::new();
    q.queue_track(track("A"));
    q.queue_track(track("B"));
    q.queue_track(track("C"));
    q
}

#[test]
fn queue_track_reports_position() {
    let mut q = TrackQueue::new();
    assert_eq!(q.len(), 0);
    assert_eq!(q.queue_track(track("A")), 1);
    assert_eq!(q.queue_track(track("B")), 2);
    assert_eq!(names(&q), vec!["A", "B"]);
}

#[test]
fn swap_one_two_of_three() {
    let mut q = abc();
    assert_eq!(q.swap_tracks(1, 2), Ok(()));
    assert_eq!(names(&q), vec!["A", "C", "B"]);
    assert_eq!(q.len(), 3);
}

#[test]
fn swap_same_index_is_identity() {
    let mut q = abc();
    assert_eq!(q.swap_tracks(2, 2), Ok(()));
    assert_eq!(names(&q), vec!["A", "B", "C"]);
}

#[test]
fn swap_out_of_range_changes_nothing() {
    let mut q = abc();
    assert_eq!(q.swap_tracks(1, 3), Err(CommandError::IndexOutOfRange));
    assert_eq!(q.swap_tracks(7, 0), Err(CommandError::IndexOutOfRange));
    assert_eq!(names(&q), vec!["A", "B", "C"]);
}

#[test]
fn swap_with_now_playing_is_refused() {
    let mut q = abc();
    assert_eq!(q.swap_tracks(0, 2), Err(CommandError::NowPlayingLocked));
    assert_eq!(q.swap_tracks(1, 0), Err(CommandError::NowPlayingLocked));
    assert_eq!(names(&q), vec!["A", "B", "C"]);
}

#[test]
fn remove_out_of_range_changes_nothing() {
    let mut q = abc();
    assert_eq!(q.remove_track(5), Err(CommandError::IndexOutOfRange));
    assert_eq!(q.remove_track(3), Err(CommandError::IndexOutOfRange));
    assert_eq!(names(&q), vec!["A", "B", "C"]);
}

#[test]
fn remove_pending_splices_it_out() {
    let mut q = abc();
    assert_eq!(q.remove_track(1).map(|t| t.name), Ok("B".to_string()));
    assert_eq!(names(&q), vec!["A", "C"]);
}

#[test]
fn pop_on_empty_is_nothing_playing() {
    let mut q = TrackQueue::new();
    assert_eq!(q.pop_track(), Err(CommandError::NothingPlaying));
    assert_eq!(q.len(), 0);
}

#[test]
fn pop_advances_to_next() {
    let mut q = abc();
    assert_eq!(q.pop_track().map(|t| t.name), Ok("A".to_string()));
    assert_eq!(names(&q), vec!["B", "C"]);
}

#[test]
fn promote_latest_goes_behind_now_playing() {
    let mut q = abc();
    q.queue_track(track("D"));
    q.promote_latest();
    assert_eq!(names(&q), vec!["A", "D", "B", "C"]);
}

#[test]
fn promote_latest_on_short_queues_is_noop() {
    let mut q = TrackQueue::new();
    q.promote_latest();
    assert_eq!(q.len(), 0);
    q.queue_track(track("A"));
    q.promote_latest();
    assert_eq!(names(&q), vec!["A"]);
    q.queue_track(track("B"));
    q.promote_latest();
    assert_eq!(names(&q), vec!["A", "B"]);
}

#[test]
fn lengths_change_only_by_enqueue_remove_skip() {
    let mut q = abc();
    q.swap_tracks(1, 2).unwrap();
    assert_eq!(q.len(), 3);
    q.queue_track(track("D"));
    assert_eq!(q.len(), 4);
    q.promote_latest();
    assert_eq!(q.len(), 4);
    q.remove_track(2).unwrap();
    assert_eq!(q.len(), 3);
    q.pop_track().unwrap();
    assert_eq!(q.len(), 2);
}
