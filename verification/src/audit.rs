//! The audit service's subscriber: it connects to the audit channel, keeps
//! reconnecting when the connection fails or ends, and stores every readable
//! message under its type.

use vstd::prelude::*;
use crate::events::{AUDIT_CHANNEL, FRAME_DATA_KEY, FRAME_TYPE_KEY};
use crate::outside::{fresh_uuid, json_member_text, json_string_member, read_member_text, read_string_member};

verus! {

/// Seconds to wait before retrying a failed connection.
pub const RECONNECT_DELAY_SECS: u64 = 5;

/// Seconds to wait before reconnecting after the message stream ended.
pub const RESUBSCRIBE_DELAY_SECS: u64 = 2;

/// The type under which a message without a string `type` member is stored.
pub open spec fn unknown_type_text() -> Seq<char> {
    "UNKNOWN"@
}

/// The type a message is stored under: its `type` member where that is a
/// string, `UNKNOWN` otherwise.
pub open spec fn stored_type(type_field: Option<Seq<char>>) -> Seq<char> {
    match type_field {
        Some(t) => t,
        None => unknown_type_text(),
    }
}

/// The type a message is stored under.
pub fn event_type_of(type_field: Option<String>) -> (res: String)
    ensures
        res@ == stored_type(match type_field { Some(t) => Some(t@), None => None }),
{
    match type_field {
        Some(t) => t,
        None => String::from_str("UNKNOWN"),
    }
}

/// Draws the identifier of a stored audit record: a random version-4 UUID,
/// handed to the subscriber with the message.
pub fn new_record_id() -> (id: uuid::Uuid) {
    fresh_uuid()
}

/// What the subscriber asks for next.
pub enum SubscriberAction {
    /// Create the Redis client.
    OpenClient,
    /// Open a publish/subscribe connection.
    Connect,
    /// Wait this many seconds.
    Sleep { secs: u64 },
    /// Subscribe to a channel.
    Subscribe { channel: String },
    /// Wait for the next message.
    NextMessage,
    /// Store a record: its identifier, its type, and its data as JSON text.
    Persist { id: uuid::Uuid, event_type: String, data_json: String },
    /// Give up for good.
    Stop,
}

/// What the service reports back.
pub enum SubscriberEvent {
    ClientOpened(bool),
    Connected(bool),
    Slept,
    Subscribed(bool),
    /// A message arrived: its payload as text (`None` where it is not text) and
    /// the identifier drawn for its record (`new_record_id`).
    Message { payload: Option<String>, record_id: uuid::Uuid },
    StreamEnded,
    Persisted(bool),
}

/// Where the subscriber stands.
pub enum SubscriberPhase {
    Opening,
    Connecting,
    BackingOff,
    Subscribing,
    Listening,
    Persisting { id: uuid::Uuid, event_type: String, data_json: String },
    Resting,
    Stopped,
}

/// The audit subscriber.
pub struct AuditSubscriber {
    pub phase: SubscriberPhase,
}

impl AuditSubscriber {
    /// The request that the subscriber asks for in its phase.
    pub open spec fn requests(self, a: SubscriberAction) -> bool {
        match self.phase {
            SubscriberPhase::Opening => a is OpenClient,
            SubscriberPhase::Connecting => a is Connect,
            SubscriberPhase::BackingOff => a == SubscriberAction::Sleep { secs: RECONNECT_DELAY_SECS },
            SubscriberPhase::Subscribing => a matches SubscriberAction::Subscribe { channel } && channel@ == AUDIT_CHANNEL@,
            SubscriberPhase::Listening => a is NextMessage,
            SubscriberPhase::Persisting { id, event_type, data_json } =>
                a == SubscriberAction::Persist { id, event_type, data_json },
            SubscriberPhase::Resting => a == SubscriberAction::Sleep { secs: RESUBSCRIBE_DELAY_SECS },
            SubscriberPhase::Stopped => a is Stop,
        }
    }

    /// How an event moves the subscriber. An event that answers no pending request
    /// leaves it where it was.
    pub open spec fn transition(self, event: SubscriberEvent, res: Self) -> bool {
        match (self.phase, event) {
            (SubscriberPhase::Opening, SubscriberEvent::ClientOpened(ok)) =>
                res.phase == if ok { SubscriberPhase::Connecting } else { SubscriberPhase::Stopped },
            (SubscriberPhase::Connecting, SubscriberEvent::Connected(ok)) =>
                res.phase == if ok { SubscriberPhase::Subscribing } else { SubscriberPhase::BackingOff },
            (SubscriberPhase::BackingOff, SubscriberEvent::Slept) => res.phase == SubscriberPhase::Connecting,
            (SubscriberPhase::Subscribing, SubscriberEvent::Subscribed(ok)) =>
                res.phase == if ok { SubscriberPhase::Listening } else { SubscriberPhase::Connecting },
            (SubscriberPhase::Listening, SubscriberEvent::Message { payload, record_id }) => match payload {
                None => res.phase == SubscriberPhase::Listening,
                Some(text) => match (json_string_member(text@, FRAME_TYPE_KEY@), json_member_text(text@, FRAME_DATA_KEY@)) {
                    (Some(type_field), Some(data)) =>
                        res.phase matches SubscriberPhase::Persisting { id, event_type, data_json }
                            && id == record_id
                            && event_type@ == stored_type(type_field)
                            && data_json@ == data,
                    _ => res.phase == SubscriberPhase::Listening,
                },
            },
            (SubscriberPhase::Listening, SubscriberEvent::StreamEnded) => res.phase == SubscriberPhase::Resting,
            (SubscriberPhase::Persisting { .. }, SubscriberEvent::Persisted(_)) => res.phase == SubscriberPhase::Listening,
            (SubscriberPhase::Resting, SubscriberEvent::Slept) => res.phase == SubscriberPhase::Connecting,
            _ => res.phase == self.phase,
        }
    }

    /// A subscriber about to create its client.
    pub fn new() -> (res: Self)
        ensures
            res.phase is Opening,
    {
        AuditSubscriber { phase: SubscriberPhase::Opening }
    }

    /// The pending request.
    pub fn action(&self) -> (a: SubscriberAction)
        ensures
            self.requests(a),
    {
        match &self.phase {
            SubscriberPhase::Opening => SubscriberAction::OpenClient,
            SubscriberPhase::Connecting => SubscriberAction::Connect,
            SubscriberPhase::BackingOff => SubscriberAction::Sleep { secs: RECONNECT_DELAY_SECS },
            SubscriberPhase::Subscribing => SubscriberAction::Subscribe { channel: String::from_str(AUDIT_CHANNEL) },
            SubscriberPhase::Listening => SubscriberAction::NextMessage,
            SubscriberPhase::Persisting { id, event_type, data_json } =>
                SubscriberAction::Persist { id: *id, event_type: event_type.clone(), data_json: data_json.clone() },
            SubscriberPhase::Resting => SubscriberAction::Sleep { secs: RESUBSCRIBE_DELAY_SECS },
            SubscriberPhase::Stopped => SubscriberAction::Stop,
        }
    }

    /// Moves the subscriber by what the service reports. A message is read as
    /// JSON here; one that is not JSON is skipped.
    pub fn advance(self, event: SubscriberEvent) -> (res: Self)
        ensures
            self.transition(event, res),
    {
        let phase = match (self.phase, event) {
            (SubscriberPhase::Opening, SubscriberEvent::ClientOpened(ok)) =>
                if ok { SubscriberPhase::Connecting } else { SubscriberPhase::Stopped },
            (SubscriberPhase::Connecting, SubscriberEvent::Connected(ok)) =>
                if ok { SubscriberPhase::Subscribing } else { SubscriberPhase::BackingOff },
            (SubscriberPhase::BackingOff, SubscriberEvent::Slept) => SubscriberPhase::Connecting,
            (SubscriberPhase::Subscribing, SubscriberEvent::Subscribed(ok)) =>
                if ok { SubscriberPhase::Listening } else { SubscriberPhase::Connecting },
            (SubscriberPhase::Listening, SubscriberEvent::Message { payload, record_id }) => match payload {
                None => SubscriberPhase::Listening,
                Some(text) => {
                    let type_field = read_string_member(text.as_str(), FRAME_TYPE_KEY);
                    let data = read_member_text(text.as_str(), FRAME_DATA_KEY);
                    match (type_field, data) {
                        (Some(t), Some(d)) =>
                            SubscriberPhase::Persisting { id: record_id, event_type: event_type_of(t), data_json: d },
                        _ => SubscriberPhase::Listening,
                    }
                },
            },
            (SubscriberPhase::Listening, SubscriberEvent::StreamEnded) => SubscriberPhase::Resting,
            (SubscriberPhase::Persisting { .. }, SubscriberEvent::Persisted(_)) => SubscriberPhase::Listening,
            (SubscriberPhase::Resting, SubscriberEvent::Slept) => SubscriberPhase::Connecting,
            (phase, _) => phase,
        };
        AuditSubscriber { phase }
    }
}

/// Every message that reads as JSON is stored once, under the drawn identifier,
/// its type or `UNKNOWN`, and its data, and the subscriber then listens again,
/// whether the store succeeded or not.
pub proof fn lemma_parsed_message_stored(
    s: AuditSubscriber,
    text: String,
    record_id: uuid::Uuid,
    r: AuditSubscriber,
    ok: bool,
    r2: AuditSubscriber,
)
    requires
        s.phase is Listening,
        json_string_member(text@, FRAME_TYPE_KEY@) is Some,
        json_member_text(text@, FRAME_DATA_KEY@) is Some,
        s.transition(SubscriberEvent::Message { payload: Some(text), record_id }, r),
        r.transition(SubscriberEvent::Persisted(ok), r2),
    ensures
        r.phase matches SubscriberPhase::Persisting { id, event_type, data_json }
            && id == record_id
            && event_type@ == stored_type(json_string_member(text@, FRAME_TYPE_KEY@)->Some_0)
            && data_json@ == json_member_text(text@, FRAME_DATA_KEY@)->Some_0,
        r2.phase is Listening,
{
}

/// A message that is not text, or not JSON, is skipped: nothing is stored and
/// listening goes on.
pub proof fn lemma_unreadable_message_skipped(s: AuditSubscriber, payload: Option<String>, record_id: uuid::Uuid, r: AuditSubscriber)
    requires
        s.phase is Listening,
        payload is None
            || json_string_member(payload->Some_0@, FRAME_TYPE_KEY@) is None
            || json_member_text(payload->Some_0@, FRAME_DATA_KEY@) is None,
        s.transition(SubscriberEvent::Message { payload, record_id }, r),
    ensures
        r.phase is Listening,
{
}

/// The subscriber never gives up once its client exists: a failed connection is
/// retried after a pause, a failed subscription at once, an ended stream after a
/// shorter pause. Only a client that cannot be created stops it.
pub proof fn lemma_keeps_reconnecting(s: AuditSubscriber, e: SubscriberEvent, r: AuditSubscriber)
    requires
        s.transition(e, r),
        !(s.phase is Opening),
        !(s.phase is Stopped),
    ensures
        !(r.phase is Stopped),
        (s.phase is Connecting && e == SubscriberEvent::Connected(false)) ==> r.phase is BackingOff,
        (s.phase is Subscribing && e == SubscriberEvent::Subscribed(false)) ==> r.phase is Connecting,
        (s.phase is Listening && e is StreamEnded) ==> r.phase is Resting,
{
}

} // verus!
