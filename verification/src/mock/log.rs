//! The bounded log of lifecycle events.
//!
//! The log keeps the first `MAX_EVENTS` events: once it is full, a new event
//! is dropped and the ones already held stay.

use vstd::prelude::*;
use crate::bounded::{event_items, events_clear, events_clone, events_new, events_push};
use crate::driver::DevError;
use crate::mock::platform::AxUnifiedPlatform;

verus! {

/// Which lifecycle hook wrote an event.
#[derive(Clone, Copy, Debug, PartialEq, Eq, Structural)]
pub enum Stage {
    PrimaryEarly,
    PrimaryLate,
    SecondaryEarly,
    SecondaryLate,
    Failure,
}

/// One lifecycle event: the hook, the core it ran on, and its argument or
/// error code.
#[derive(Clone, Copy, Debug, PartialEq, Eq, Structural)]
pub struct LogEvent {
    pub stage: Stage,
    pub cpu_id: usize,
    pub payload: usize,
}

/// The most events a log holds.
pub const MAX_EVENTS: usize = 32;

/// A log after `event` is offered to it: appended while there is room,
/// dropped once the log is full.
pub open spec fn log_after(events: Seq<LogEvent>, event: LogEvent) -> Seq<LogEvent> {
    if events.len() < MAX_EVENTS {
        events.push(event)
    } else {
        events
    }
}

/// The event that stands for a failed bring-up on core `cpu_id`.
pub open spec fn failure_event(cpu_id: usize, err: DevError) -> LogEvent {
    LogEvent { stage: Stage::Failure, cpu_id, payload: err.code_spec() }
}

pub struct EventLog {
    events: heapless::Vec<LogEvent, 32>,
}

impl View for EventLog {
    type V = Seq<LogEvent>;

    closed spec fn view(&self) -> Seq<LogEvent> {
        event_items(self.events)
    }
}

impl EventLog {
    pub fn new() -> (log: Self)
        ensures
            log@ == Seq::<LogEvent>::empty(),
    {
        Self { events: events_new() }
    }
}

/// Offers one event to the log.
pub fn record(log: &mut EventLog, stage: Stage, cpu_id: usize, payload: usize)
    ensures
        final(log)@ == log_after(old(log)@, (LogEvent { stage, cpu_id, payload })),
{
    let _ = events_push(&mut log.events, LogEvent { stage, cpu_id, payload });
}

/// Offers a `Failure` event that carries the error's code.
pub fn record_failure(log: &mut EventLog, cpu_id: usize, err: DevError)
    ensures
        final(log)@ == log_after(old(log)@, failure_event(cpu_id, err)),
{
    record(log, Stage::Failure, cpu_id, err.code());
}

/// A copy of the events held, oldest first.
pub fn snapshot(log: &EventLog) -> (events: heapless::Vec<LogEvent, 32>)
    ensures
        event_items(events) == log@,
{
    events_clone(&log.events)
}

/// Empties the log.
pub fn reset(log: &mut EventLog)
    ensures
        final(log)@ == Seq::<LogEvent>::empty(),
{
    events_clear(&mut log.events);
}

/// The platform's lifecycle log.
pub fn platform_log(platform: &AxUnifiedPlatform) -> (log: &EventLog)
    ensures
        log@ == platform@.log,
{
    platform.log_backend()
}

} // verus!
