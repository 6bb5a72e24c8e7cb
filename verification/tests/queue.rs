use fubuki::anilist::models::{MediaList, MediaListStatus};
use fubuki::anilist::request::ListUpdateQueue;

fn entry(media_id: i32, progress: i32) -> MediaList {
    MediaList {
        id: 100 + media_id,
        media_id,
        status: Some(MediaListStatus::Current),
        progress: Some(progress),
        progress_volumes: None,
        score_bits: None,
        started_at: None,
        completed_at: None,
        media: None,
    }
}

#[test]
fn queue_delay_runs_from_the_first_enqueue() {
    let mut queue = ListUpdateQueue::default();
    queue.enqueue(entry(5, 1), 0);
    queue.enqueue(entry(5, 2), 3);
    assert_eq!(queue.requests.len(), 1);
    assert!(queue.dequeue(4, 5).is_none());
    let sent = queue.dequeue(6, 5).unwrap();
    assert_eq!(sent.media_id, 5);
    assert_eq!(sent.progress, Some(2));
    assert!(queue.dequeue(100, 5).is_none());
}

#[test]
fn queue_is_first_in_first_out() {
    let mut queue = ListUpdateQueue::default();
    queue.enqueue(entry(1, 1), 10);
    queue.enqueue(entry(2, 1), 11);
    queue.enqueue(entry(1, 7), 12);
    queue.enqueue(entry(3, 1), 13);
    assert_eq!(queue.find_index(1), Some(0));
    assert_eq!(queue.find_index(2), Some(1));
    assert_eq!(queue.find_index(3), Some(2));
    assert_eq!(queue.find_index(4), None);
    assert_eq!(queue.dequeue(15, 5).map(|m| (m.media_id, m.progress)), Some((1, Some(7))));
    // the second entry was queued at 11: it is not due at 15
    assert!(queue.dequeue(15, 5).is_none());
    assert_eq!(queue.dequeue(16, 5).map(|m| m.media_id), Some(2));
    assert_eq!(queue.dequeue(18, 5).map(|m| m.media_id), Some(3));
    assert!(queue.dequeue(18, 0).is_none());
}

#[test]
fn queue_holds_back_while_a_request_is_in_flight() {
    let mut queue = ListUpdateQueue::default();
    assert!(!queue.is_waiting());
    queue.enqueue(entry(1, 1), 0);
    queue.set_waiting(true);
    assert!(queue.is_waiting());
    assert!(queue.dequeue(100, 5).is_none());
    queue.set_waiting(false);
    assert_eq!(queue.dequeue(100, 5).map(|m| m.media_id), Some(1));
}

#[test]
fn queue_delay_of_zero_and_a_clock_that_went_back() {
    let mut queue = ListUpdateQueue::default();
    queue.enqueue(entry(1, 1), 50);
    // the clock reads less than at the enqueue: no time has passed
    assert!(queue.dequeue(40, 1).is_none());
    assert_eq!(queue.dequeue(40, 0).map(|m| m.media_id), Some(1));
    queue.enqueue(entry(2, 1), u64::MAX);
    assert!(queue.dequeue(0, 1).is_none());
    queue.enqueue(entry(3, 1), 0);
    assert_eq!(queue.dequeue(u64::MAX, 0).map(|m| m.media_id), Some(2));
    assert_eq!(queue.dequeue(u64::MAX, u64::MAX).map(|m| m.media_id), Some(3));
}

#[test]
fn queue_remove_cancels_whatever_the_time() {
    let mut queue = ListUpdateQueue::default();
    queue.enqueue(entry(1, 1), 0);
    queue.enqueue(entry(2, 1), 0);
    queue.enqueue(entry(3, 1), 0);
    assert!(queue.remove(3).is_none());
    assert_eq!(queue.remove(1).map(|m| m.media_id), Some(2));
    assert_eq!(queue.find_index(3), Some(1));
    assert_eq!(queue.cancel(1).map(|m| m.media_id), Some(1));
    assert!(queue.cancel(1).is_none());
    assert_eq!(queue.requests.len(), 1);
    assert_eq!(queue.dequeue(0, 0).map(|m| m.media_id), Some(3));
    assert!(queue.remove(0).is_none());
}
