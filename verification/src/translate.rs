//! Translation of the events of a request into the events the engine takes.
//!
//! The translation is field for field. A timestamp arrives as a signed 64-bit
//! number and the engine takes an unsigned one: a negative timestamp is
//! clamped to zero, and every other timestamp is kept as it is. Nothing wraps.

use vstd::prelude::*;
use crate::engine::UserEvent;
use crate::messages::EventMessage;

verus! {

/// The timestamp the engine is given for the timestamp `t` of a request:
/// zero for a negative one, `t` itself otherwise.
pub open spec fn clamped_timestamp(t: i64) -> u64 {
    if t < 0 {
        0
    } else {
        t as u64
    }
}

/// The engine's event for the event `message` of a request.
pub open spec fn translated(message: EventMessage) -> UserEvent {
    UserEvent {
        index: message.partner_id,
        label: message.product_id,
        timestamp: clamped_timestamp(message.timestamp),
        event_type: message.event_type,
    }
}

/// The engine's events for the events of a request, in the same order.
pub open spec fn translated_all(messages: Seq<EventMessage>) -> Seq<UserEvent> {
    messages.map_values(|message: EventMessage| translated(message))
}

/// Translates one event of a request.
pub fn translate_event(message: &EventMessage) -> (event: UserEvent)
    ensures
        event == translated(*message),
{
    let timestamp: u64 = if message.timestamp < 0 {
        0
    } else {
        message.timestamp as u64
    };
    UserEvent {
        index: message.partner_id,
        label: message.product_id,
        timestamp,
        event_type: message.event_type,
    }
}

/// Translates the events of a request, keeping their order.
pub fn translate_events(messages: &Vec<EventMessage>) -> (events: Vec<UserEvent>)
    ensures
        events@ == translated_all(messages@),
{
    let mut events: Vec<UserEvent> = Vec::new();
    let mut i: usize = 0;
    while i < messages.len()
        invariant
            i <= messages.len(),
            events@ == translated_all(messages@.take(i as int)),
        decreases messages.len() - i,
    {
        events.push(translate_event(&messages[i]));
        i = i + 1;
        assert(events@ =~= translated_all(messages@.take(i as int)));
    }
    assert(messages@.take(i as int) =~= messages@);
    events
}

/// A timestamp that is not negative reaches the engine unchanged, and a
/// negative one reaches it as zero: no timestamp wraps around.
pub proof fn lemma_timestamp_never_wraps(t: i64)
    ensures
        t >= 0 ==> clamped_timestamp(t) == t,
        t < 0 ==> clamped_timestamp(t) == 0,
{
}

} // verus!
