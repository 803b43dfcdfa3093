use fixed_input::events::{
    events_clear, events_clear_flag, take_pending, EventClearFlag, FixedEventReader, FixedEvents,
};

#[test]
fn fresh_queue_is_empty() {
    let q = FixedEvents::default();
    assert_eq!(q.len(), 0);
    let mut r = FixedEventReader::default();
    assert_eq!(r.read_count(&q), 0);
}

#[test]
fn posting_is_counted_and_read_once_per_reader() {
    let mut q = FixedEvents::default();
    q.post();
    q.post();
    assert_eq!(q.len(), 2);
    let mut r = FixedEventReader::default();
    assert_eq!(r.read_count(&q), 2);
    // The same reader is never handed an event twice.
    assert_eq!(r.read_count(&q), 0);
    q.post();
    assert_eq!(r.read_count(&q), 1);
}

#[test]
fn zero_tick_frame_defers_compaction() {
    let mut q = FixedEvents::default();
    let mut flag = EventClearFlag::default();
    // Frame 1: an event is posted; zero ticks run, so the flag stays down and
    // the end-of-frame step compacts nothing.
    q.post();
    events_clear(&mut flag, &mut q);
    assert_eq!(q.len(), 1);
    // Frame 2, still without a tick: the event is still kept.
    events_clear(&mut flag, &mut q);
    assert_eq!(q.len(), 1);
    // Frame 3: a tick finally runs and reads the event.
    events_clear_flag(&mut flag);
    let mut r = FixedEventReader::default();
    assert_eq!(r.read_count(&q), 1);
    events_clear(&mut flag, &mut q);
    // Frame 4 with a tick: only now does the event age out of the queue.
    events_clear_flag(&mut flag);
    events_clear(&mut flag, &mut q);
    assert_eq!(q.len(), 0);
}

#[test]
fn event_posted_with_two_ticks_in_frame() {
    let mut q = FixedEvents::default();
    let mut flag = EventClearFlag::default();
    // Frame 1: the event is posted once; two ticks run in that frame.
    q.post();
    // Tick 1 reads the event.
    events_clear_flag(&mut flag);
    let mut tick_consumer = FixedEventReader::default();
    assert_eq!(tick_consumer.read_count(&q), 1);
    // Tick 2: the event is still there for any consumer that has not read
    // it; the tick-1 consumer is not handed it again.
    events_clear_flag(&mut flag);
    let mut second_consumer = FixedEventReader::default();
    assert_eq!(second_consumer.read_count(&q), 1);
    assert_eq!(tick_consumer.read_count(&q), 0);
    // End of frame 1: the compaction runs once for both ticks.
    events_clear(&mut flag, &mut q);
    // Frame 2: no consumer that read the event is handed it again; the queue
    // retains it for one more frame for late readers, as the double-buffered
    // collaborator does, and drops it at the next tick-marked compaction.
    assert_eq!(tick_consumer.read_count(&q), 0);
    assert_eq!(second_consumer.read_count(&q), 0);
    assert_eq!(q.len(), 1);
    events_clear_flag(&mut flag);
    events_clear(&mut flag, &mut q);
    assert_eq!(q.len(), 0);
}

#[test]
fn marking_is_idempotent_within_a_frame() {
    let mut q = FixedEvents::default();
    let mut flag = EventClearFlag::default();
    q.post();
    // Three ticks in one frame raise the flag three times; the frame still
    // compacts once, so the event survives into the next frame.
    events_clear_flag(&mut flag);
    events_clear_flag(&mut flag);
    events_clear_flag(&mut flag);
    events_clear(&mut flag, &mut q);
    assert_eq!(q.len(), 1);
    // The mark was consumed: a tickless frame compacts nothing further.
    events_clear(&mut flag, &mut q);
    assert_eq!(q.len(), 1);
}

#[test]
fn events_posted_between_ticks_are_read() {
    let mut q = FixedEvents::default();
    let mut flag = EventClearFlag::default();
    q.post();
    q.post();
    events_clear_flag(&mut flag);
    let mut r = FixedEventReader::default();
    assert_eq!(r.read_count(&q), 2);
    // Posted between the frame's ticks: the next tick sees exactly it.
    q.post();
    events_clear_flag(&mut flag);
    assert_eq!(r.read_count(&q), 1);
    events_clear(&mut flag, &mut q);
    assert_eq!(q.len(), 3);
}

#[test]
fn take_pending_consumes_the_mark() {
    let mut flag = EventClearFlag::default();
    assert!(!take_pending(&mut flag));
    events_clear_flag(&mut flag);
    assert!(take_pending(&mut flag));
    assert!(!take_pending(&mut flag));
}
