use media_bridge::event::MediaControlEvent;
use media_bridge::queue::EventQueue;

#[test]
fn fifo_order_kept() {
    let mut q = EventQueue::new();
    let pushes = vec![
        MediaControlEvent::Play,
        MediaControlEvent::Next,
        MediaControlEvent::Next,
        MediaControlEvent::Pause,
        MediaControlEvent::Previous,
    ];
    for e in &pushes {
        q.push(*e);
    }
    assert_eq!(q.len(), 5);
    let drained = q.try_drain();
    assert_eq!(drained, pushes);
    assert_eq!(q.len(), 0);
}

#[test]
fn drain_of_empty_queue_is_empty() {
    let mut q = EventQueue::new();
    assert_eq!(q.try_drain(), vec![]);
    assert_eq!(q.len(), 0);
}

#[test]
fn deferred_drain_loses_nothing() {
    let mut q = EventQueue::new();
    q.push(MediaControlEvent::Play);
    q.push(MediaControlEvent::Next);

    // The producer is inside its critical section: the drain attempt comes
    // back empty at once, and the queue is left untouched.
    q.hold_producer_lock();
    assert_eq!(q.try_drain(), vec![]);
    assert_eq!(q.len(), 2);

    // Once the producer is out, the same events come out in push order.
    q.release_producer_lock();
    assert_eq!(
        q.try_drain(),
        vec![MediaControlEvent::Play, MediaControlEvent::Next]
    );
    assert_eq!(q.len(), 0);
}

#[test]
fn push_while_producer_holds_lock_still_queues() {
    let mut q = EventQueue::new();
    q.hold_producer_lock();
    q.push(MediaControlEvent::Pause);
    q.release_producer_lock();
    assert_eq!(q.try_drain(), vec![MediaControlEvent::Pause]);
}
