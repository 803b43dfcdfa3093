//! Fixed-timestep input and event bridging.
//!
//! A variable-rate frame loop samples input devices and posts events once per
//! frame, while a fixed-rate simulation loop may run zero or many ticks per
//! frame. This crate accumulates input transitions and defers event-queue
//! compaction so that each transition and each event delivery is visible to
//! the fixed-rate consumers exactly once, whatever the ratio of the two rates.
//!
//! The input side mirrors a device's per-key state but empties its transient
//! "just pressed" / "just released" sets only once per simulation tick; the
//! event side gates the queue's end-of-life compaction behind a flag that only
//! a simulation tick raises, so events posted in a frame without ticks are
//! kept until a tick has had the chance to read them.

pub mod events;
pub mod input;
