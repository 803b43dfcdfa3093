//! Deferred event-queue compaction.
//!
//! The underlying event queue keeps an event until the second `update` call
//! after it was posted, so whoever drives the queue decides when events age
//! out. Updating once per frame would drop events before a simulation tick —
//! of which a frame may run zero or many — had the chance to read them.
//! Instead, a tick-rate step raises a flag ([`events_clear_flag`]) and a
//! frame-rate step run after all of the frame's ticks compacts the queue only
//! if the flag is up ([`events_clear`]): the queue is compacted at most once
//! per frame, and never in a frame in which no tick ran.

use vstd::prelude::*;

verus! {

/// How many events of the queue's older buffer are retained: those that had
/// already been in the queue at its last compaction.
pub uninterp spec fn queue_front(q: FixedEvents) -> nat;

/// How many events were posted to the queue since its last compaction.
pub uninterp spec fn queue_back(q: FixedEvents) -> nat;

/// How many events were ever posted to the queue.
pub uninterp spec fn queue_total(q: FixedEvents) -> nat;

/// How many of the queue's events a reader has already been handed.
pub uninterp spec fn reader_cursor(r: FixedEventReader) -> nat;

/// Mathematical model of the double-buffered event queue: how many events
/// survive from before the last compaction, and how many were posted since.
#[verifier::ext_equal]
pub ghost struct QueueModel {
    pub front: nat,
    pub back: nat,
}

/// The queue after posting `n` further events.
pub open spec fn post_model(q: QueueModel, n: nat) -> QueueModel {
    QueueModel { front: q.front, back: q.back + n }
}

/// The queue after one compaction: the older buffer is dropped and the newer
/// buffer takes its place, so an event survives until the second compaction
/// after it was posted.
pub open spec fn compact_model(q: QueueModel) -> QueueModel {
    QueueModel { front: q.back, back: 0 }
}

/// An event queue bridged to the fixed-rate loop. It holds bevy_ecs's
/// `Events` queue; the queue is opaque to the verifier and is spoken of
/// through [`queue_front`], [`queue_back`] and [`queue_total`].
#[verifier::external_body]
pub struct FixedEvents {
    queue: bevy::ecs::event::Events<bevy::app::AppExit>,
}

/// A consumer's cursor into a [`FixedEvents`] queue. It holds bevy_ecs's
/// `ManualEventReader`, opaque to the verifier and spoken of through
/// [`reader_cursor`].
#[verifier::external_body]
pub struct FixedEventReader {
    reader: bevy::ecs::event::ManualEventReader<bevy::app::AppExit>,
}

impl View for FixedEvents {
    type V = QueueModel;

    closed spec fn view(&self) -> QueueModel {
        QueueModel { front: queue_front(*self), back: queue_back(*self) }
    }
}

/// Relies on bevy_ecs's `Events::default`: the queue starts empty.
#[verifier::external_body]
fn new_queue() -> (r: FixedEvents)
    ensures
        queue_front(r) == 0,
        queue_back(r) == 0,
        queue_total(r) == 0,
{
    FixedEvents { queue: bevy::ecs::event::Events::default() }
}

/// Relies on bevy_ecs's `Events::send`: appends one event to the newer
/// buffer.
#[verifier::external_body]
fn queue_send(q: &mut FixedEvents)
    ensures
        queue_front(*final(q)) == queue_front(*old(q)),
        queue_back(*final(q)) == queue_back(*old(q)) + 1,
        queue_total(*final(q)) == queue_total(*old(q)) + 1,
{
    q.queue.send(bevy::app::AppExit);
}

/// Relies on bevy_ecs's `Events::update`: the older buffer's events are
/// dropped, the newer buffer becomes the older one, and the newer buffer is
/// left empty.
#[verifier::external_body]
fn queue_update(q: &mut FixedEvents)
    ensures
        queue_front(*final(q)) == queue_back(*old(q)),
        queue_back(*final(q)) == 0,
        queue_total(*final(q)) == queue_total(*old(q)),
{
    q.queue.update();
}

/// Relies on bevy_ecs's `Events::len`: the events held in both buffers.
#[verifier::external_body]
fn queue_len(q: &FixedEvents) -> (r: usize)
    ensures
        r == queue_front(*q) + queue_back(*q),
{
    q.queue.len()
}

/// Relies on bevy_ecs's `ManualEventReader::default`: a fresh reader that has
/// been handed no event yet.
#[verifier::external_body]
fn new_reader() -> (r: FixedEventReader)
    ensures
        reader_cursor(r) == 0,
{
    FixedEventReader { reader: bevy::ecs::event::ManualEventReader::default() }
}

/// Relies on bevy_ecs's `ManualEventReader::read`: hands the reader every
/// event it has not been handed yet and that the queue still retains, and
/// moves its cursor past everything posted so far.
#[verifier::external_body]
fn queue_read_count(r: &mut FixedEventReader, q: &FixedEvents) -> (n: usize)
    requires
        reader_cursor(*old(r)) <= queue_total(*q),
    ensures
        n as int == (if queue_total(*q) - reader_cursor(*old(r)) <= queue_front(*q)
            + queue_back(*q) {
            queue_total(*q) - reader_cursor(*old(r))
        } else {
            queue_front(*q) + queue_back(*q) as int
        }),
        reader_cursor(*final(r)) == queue_total(*q),
{
    r.reader.read(&q.queue).count()
}

impl Default for FixedEvents {
    /// A fresh queue: empty, with nothing ever posted.
    fn default() -> (r: Self)
        ensures
            r@.front == 0,
            r@.back == 0,
            queue_total(r) == 0,
    {
        new_queue()
    }
}

impl FixedEvents {
    /// Posts one event. Posting is delegated entirely to the queue; the
    /// deferral below only concerns when the queue is compacted.
    pub fn post(&mut self)
        ensures
            final(self)@ == post_model(old(self)@, 1),
            queue_total(*final(self)) == queue_total(*old(self)) + 1,
    {
        queue_send(self);
    }

    /// How many events the queue currently retains.
    pub fn len(&self) -> (r: usize)
        ensures
            r == self@.front + self@.back,
    {
        queue_len(self)
    }
}

impl Default for FixedEventReader {
    /// A fresh reader: it has been handed no event yet.
    fn default() -> (r: Self)
        ensures
            reader_cursor(r) == 0,
    {
        new_reader()
    }
}

impl FixedEventReader {
    /// Reads every event the reader has not seen yet and that the queue still
    /// retains, and returns how many there were. A second read without new
    /// posts in between returns zero: each event is handed to a reader at
    /// most once.
    pub fn read_count(&mut self, events: &FixedEvents) -> (n: usize)
        requires
            reader_cursor(*old(self)) <= queue_total(*events),
        ensures
            n as int == (if queue_total(*events) - reader_cursor(*old(self)) <= events@.front
                + events@.back {
                queue_total(*events) - reader_cursor(*old(self))
            } else {
                events@.front + events@.back as int
            }),
            reader_cursor(*final(self)) == queue_total(*events),
    {
        queue_read_count(self, events)
    }
}

/// Whether the event queue's compaction is owed for the current frame: raised
/// by each simulation tick, consumed by the frame's compaction step.
pub struct EventClearFlag {
    clear: bool,
}

impl EventClearFlag {
    /// Whether a compaction is pending.
    pub closed spec fn pending(&self) -> bool {
        self.clear
    }
}

impl Default for EventClearFlag {
    /// A fresh flag: no tick has run yet, so no compaction is pending.
    fn default() -> (r: Self)
        ensures
            !r.pending(),
    {
        EventClearFlag { clear: false }
    }
}

/// Marks the event queue for compaction. Runs once per simulation tick;
/// running it for several ticks of one frame is idempotent, so the frame's
/// compaction still happens only once, after all of them.
pub fn events_clear_flag(event_clear_flag: &mut EventClearFlag)
    ensures
        final(event_clear_flag).pending(),
{
    event_clear_flag.clear = true;
}

/// Consumes the pending mark: reports whether a compaction is owed now, and
/// lowers the flag either way. For a queue the library does not hold itself,
/// the caller performs the compaction exactly when this returns true.
pub fn take_pending(event_clear_flag: &mut EventClearFlag) -> (r: bool)
    ensures
        r == old(event_clear_flag).pending(),
        !final(event_clear_flag).pending(),
{
    let was = event_clear_flag.clear;
    event_clear_flag.clear = false;
    was
}

/// Compacts the event queue if and only if a simulation tick marked it since
/// the last compaction, and lowers the flag. Runs once per frame-loop
/// iteration, after all of the frame's ticks; in a frame without ticks the
/// queue is left untouched, so its events survive for a tick to read.
pub fn events_clear(event_clear_flag: &mut EventClearFlag, fixed_events: &mut FixedEvents)
    ensures
        !final(event_clear_flag).pending(),
        old(event_clear_flag).pending() ==> final(fixed_events)@ == compact_model(
            old(fixed_events)@,
        ),
        !old(event_clear_flag).pending() ==> *final(fixed_events) == *old(fixed_events),
        queue_total(*final(fixed_events)) == queue_total(*old(fixed_events)),
{
    if event_clear_flag.clear {
        queue_update(fixed_events);
        event_clear_flag.clear = false;
    }
}

/// One frame-loop iteration of the protocol, at the model level: during the
/// frame, producers post `posts` events and `ticks` simulation ticks run,
/// each raising the flag; at the end of the frame the compaction step runs.
/// The result pairs the queue with the flag as the next frame starts.
pub open spec fn frame_model(q: QueueModel, pending: bool, posts: nat, ticks: nat) -> (
    QueueModel,
    bool,
) {
    let marked = pending || ticks > 0;
    let filled = post_model(q, posts);
    if marked {
        (compact_model(filled), false)
    } else {
        (filled, pending)
    }
}

/// In a frame where no simulation tick ran and no mark was left pending, the
/// compaction step compacts nothing and the flag stays down: the frame only
/// adds its own posts.
pub proof fn lemma_no_tick_no_compaction(q: QueueModel, posts: nat)
    ensures
        frame_model(q, false, posts, 0).0 == post_model(q, posts),
        !frame_model(q, false, posts, 0).1,
{
}

/// The compaction step runs exactly when a tick marked the frame (or a mark
/// was still pending); and however many ticks ran, it compacts once, at the
/// frame's end — the flag is down again after every frame. In particular two
/// frames with the same posts and any two positive tick counts leave the
/// queue the same.
pub proof fn lemma_compacts_once_iff_marked(q: QueueModel, pending: bool, posts: nat, ticks: nat)
    ensures
        (pending || ticks > 0) ==> frame_model(q, pending, posts, ticks).0 == compact_model(
            post_model(q, posts),
        ),
        !(pending || ticks > 0) ==> frame_model(q, pending, posts, ticks).0 == post_model(q, posts),
        !frame_model(q, pending, posts, ticks).1,
{
}

/// No event posted during a frame, nor one still waiting in the unobserved
/// back buffer, is dropped by that frame's compaction: a compaction drops
/// only front-buffer events, which were retained across an earlier marked
/// frame, so every tick of the frame in which an event is posted can read
/// it, and an event is never dropped before a tick had the chance to.
pub proof fn lemma_posted_survives_frame(q: QueueModel, pending: bool, posts: nat, ticks: nat)
    ensures
        frame_model(q, pending, posts, ticks).0.front + frame_model(
            q,
            pending,
            posts,
            ticks,
        ).0.back >= q.back + posts,
{
}

/// An event posted during a frame in which no tick ran is still in the
/// unobserved back buffer throughout the following frame, so every tick of
/// that later frame can read it; only that later frame's compaction moves it
/// to the retained front buffer.
pub proof fn lemma_posted_waits_for_tick(q: QueueModel, posts: nat, posts2: nat, ticks2: nat)
    requires
        ticks2 > 0,
    ensures
        frame_model(q, false, posts, 0).0.back == q.back + posts,
        !frame_model(q, false, posts, 0).1,
        frame_model(frame_model(q, false, posts, 0).0, false, posts2, ticks2).0.front >= q.back
            + posts,
{
}

} // verus!
