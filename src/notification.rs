//! Lifecycle events of the engine and their single-consumer delivery.
//!
//! Whichever terminal operation takes the engine drains its event stream one
//! event at a time: `drain_step` decides, for each thing the stream yields,
//! whether to hand the event to the caller's handler, drop it, or stop.
//! `delivered` is the resulting sequence of handler calls.
use vstd::prelude::*;
use crate::error::NotificationError;

verus! {

/// An event emitted by the engine.
#[derive(Debug, Clone, PartialEq, Eq)]
pub enum TapleNotification {
    /// A new subject has been generated.
    NewSubject { subject_id: String },
    /// A new event has been generated.
    NewEvent { sn: u64, subject_id: String },
    /// A subject has been synchronized.
    StateUpdated { sn: u64, subject_id: String },
    /// An approval request has been received.
    ApprovalReceived { id: String, subject_id: String, sn: u64 },
    /// An approval became obsolete: the governance version changed, or the
    /// event was confirmed without it.
    ObsoletedApproval { id: String, subject_id: String, sn: u64 },
    /// The engine hit an error it cannot recover from.
    UnrecoverableError { error: String },
}

/// Receives the events of a drain, one call per event, in emission order.
pub trait NotificationHandlerInterface {
    fn process_notification(&self, notification: TapleNotification);
}

/// How a drain treats the events it takes from the stream.
#[derive(Debug, Clone, Copy, PartialEq, Eq, Structural)]
pub enum DrainMode {
    /// Each event goes to the caller's handler.
    Handle,
    /// Each event is dropped.
    Discard,
}

/// What a drain does with one thing taken from the stream.
#[derive(Debug, Clone, PartialEq, Eq)]
pub enum DrainAction {
    Deliver(TapleNotification),
    Drop,
    /// The stream has ended: the drain is over.
    Finish,
}

pub open spec fn drain_step_spec(mode: DrainMode, next: Option<TapleNotification>) -> DrainAction {
    match next {
        None => DrainAction::Finish,
        Some(n) => match mode {
            DrainMode::Handle => DrainAction::Deliver(n),
            DrainMode::Discard => DrainAction::Drop,
        },
    }
}

/// Decides what to do with what the stream yielded next (`None`: it ended).
pub fn drain_step(mode: DrainMode, next: Option<TapleNotification>) -> (r: DrainAction)
    ensures
        r == drain_step_spec(mode, next),
{
    match next {
        None => DrainAction::Finish,
        Some(n) => match mode {
            DrainMode::Handle => DrainAction::Deliver(n),
            DrainMode::Discard => DrainAction::Drop,
        },
    }
}

/// The events handed to the handler when a drain in `mode` reads `stream`,
/// stopping at the first end-of-stream.
pub open spec fn delivered(mode: DrainMode, stream: Seq<Option<TapleNotification>>) -> Seq<
    TapleNotification,
>
    decreases stream.len(),
{
    if stream.len() == 0 {
        Seq::empty()
    } else {
        let rest = delivered(mode, stream.subrange(1, stream.len() as int));
        match drain_step_spec(mode, stream[0]) {
            DrainAction::Deliver(n) => seq![n] + rest,
            DrainAction::Drop => rest,
            DrainAction::Finish => Seq::empty(),
        }
    }
}

/// The stream that emits `events` and then ends.
pub open spec fn emitted_then_closed(events: Seq<TapleNotification>) -> Seq<
    Option<TapleNotification>,
> {
    events.map_values(|e: TapleNotification| Some(e)).push(None)
}

/// A drain with a handler hands it exactly the emitted events, in the order
/// of emission, each once, and nothing that follows the end of the stream.
pub proof fn lemma_delivery_in_order(events: Seq<TapleNotification>, after: Seq<Option<TapleNotification>>)
    ensures
        delivered(DrainMode::Handle, emitted_then_closed(events) + after) == events,
    decreases events.len(),
{
    let s = emitted_then_closed(events) + after;
    if events.len() == 0 {
        assert(s[0] == None::<TapleNotification>);
        assert(delivered(DrainMode::Handle, s) =~= events);
    } else {
        let tail = events.subrange(1, events.len() as int);
        lemma_delivery_in_order(tail, after);
        assert(s.subrange(1, s.len() as int) =~= emitted_then_closed(tail) + after);
        assert(s[0] == Some(events[0]));
        assert(delivered(DrainMode::Handle, s) =~= events);
    }
}

/// A drain that discards hands nothing to anyone.
pub proof fn lemma_discard_delivers_nothing(stream: Seq<Option<TapleNotification>>)
    ensures
        delivered(DrainMode::Discard, stream) == Seq::<TapleNotification>::empty(),
    decreases stream.len(),
{
    if stream.len() > 0 {
        lemma_discard_delivers_nothing(stream.subrange(1, stream.len() as int));
    }
}

/// The result of a blocking receive: the next event, or `NoConnection` once
/// the stream has ended.
pub fn received(next: Option<TapleNotification>) -> (r: Result<TapleNotification, NotificationError>)
    ensures
        match next {
            Some(n) => r == Ok::<TapleNotification, NotificationError>(n),
            None => r == Err::<TapleNotification, NotificationError>(NotificationError::NoConnection),
        },
{
    match next {
        Some(n) => Ok(n),
        None => Err(NotificationError::NoConnection),
    }
}

} // verus!
