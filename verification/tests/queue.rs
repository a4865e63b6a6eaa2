use detection_filters::detection_queue::DetectionQueue;

#[test]
fn sliding_queue_escalation_scenario() {
    // Capacity 5, threshold 3: pushing [true, false, true, true, false]
    // (oldest to newest) yields count_true() == 3, meeting the threshold.
    let mut queue = DetectionQueue::new();
    for sample in [true, false, true, true, false] {
        queue.push(sample, 5);
    }
    assert_eq!(queue.len(), 5);
    assert_eq!(queue.count_true(), 3);
    assert!(queue.count_true() >= 3);
}

#[test]
fn queue_holds_the_most_recent_samples_in_recency_order() {
    // Capacity 3, five pushes: the queue keeps exactly the three most
    // recent samples, newest at the front.
    let mut queue = DetectionQueue::new();
    for sample in [true, true, false, true, false] {
        queue.push(sample, 3);
    }
    assert_eq!(queue.len(), 3);
    assert!(!queue.get(0)); // newest
    assert!(queue.get(1));
    assert!(!queue.get(2)); // oldest retained
    assert_eq!(queue.count_true(), 1);
}

#[test]
fn queue_length_never_exceeds_capacity() {
    let mut queue = DetectionQueue::new();
    for i in 0..100u32 {
        queue.push(i % 3 == 0, 7);
        assert!(queue.len() <= 7);
    }
    assert_eq!(queue.len(), 7);
}

#[test]
fn capacity_zero_keeps_the_queue_empty() {
    let mut queue = DetectionQueue::new();
    queue.push(true, 0);
    assert_eq!(queue.len(), 0);
    assert_eq!(queue.count_true(), 0);
}

#[test]
fn truncate_drops_the_oldest_entries() {
    let mut queue = DetectionQueue::new();
    for sample in [true, false, false, true] {
        queue.push(sample, 10);
    }
    queue.truncate(2);
    assert_eq!(queue.len(), 2);
    assert!(queue.get(0));
    assert!(!queue.get(1));

    // Truncating to a larger capacity changes nothing.
    queue.truncate(5);
    assert_eq!(queue.len(), 2);
}

#[test]
fn count_true_scans_the_whole_queue() {
    let mut queue = DetectionQueue::with_capacity(4);
    assert_eq!(queue.count_true(), 0);
    queue.push(true, 4);
    queue.push(true, 4);
    assert_eq!(queue.count_true(), 2);
    queue.push(false, 4);
    assert_eq!(queue.count_true(), 2);
}
