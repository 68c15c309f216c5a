//! Audit events that the portfolio service publishes and the audit service stores.

use vstd::prelude::*;
use crate::text::join4;

verus! {

/// The member of an audit message that holds the event's type tag.
pub const FRAME_TYPE_KEY: &'static str = "type";

/// The member of an audit message that holds the serialized event.
pub const FRAME_DATA_KEY: &'static str = "data";

/// The Redis channel on which audit events travel.
pub const AUDIT_CHANNEL: &'static str = "audit_events";

/// An order as an audit record shows it; `side` is the side's label.
#[derive(Debug)]
pub struct OrderEventPayload<A> {
    pub order_id: uuid::Uuid,
    pub user_id: uuid::Uuid,
    pub symbol: String,
    pub side: String,
    pub quantity: A,
    pub price: A,
}

/// A rejected order as an audit record shows it, with the reason of the rejection.
#[derive(Debug)]
pub struct OrderRejectedPayload<A> {
    pub order_id: uuid::Uuid,
    pub user_id: uuid::Uuid,
    pub symbol: String,
    pub side: String,
    pub quantity: A,
    pub reason: String,
}

/// What happened to an order.
#[derive(Debug)]
pub enum AuditEvent<A> {
    OrderCreated(OrderEventPayload<A>),
    OrderExecuted(OrderEventPayload<A>),
    OrderRejected(OrderRejectedPayload<A>),
}

/// The type tag of an event.
pub open spec fn event_type_name<A>(e: AuditEvent<A>) -> Seq<char> {
    match e {
        AuditEvent::OrderCreated(_) => "ORDER_CREATED"@,
        AuditEvent::OrderExecuted(_) => "ORDER_EXECUTED"@,
        AuditEvent::OrderRejected(_) => "ORDER_REJECTED"@,
    }
}

/// The message published for an event: a JSON object whose data member is the
/// serialized event and whose type member is its tag.
pub open spec fn audit_frame_text(event_type: Seq<char>, data_json: Seq<char>) -> Seq<char> {
    "{\""@ + FRAME_DATA_KEY@ + "\":"@ + data_json + ",\""@ + FRAME_TYPE_KEY@ + "\":\""@ + event_type + "\"}"@
}

impl<A> AuditEvent<A> {
    /// The type tag: `ORDER_CREATED`, `ORDER_EXECUTED` or `ORDER_REJECTED`.
    pub fn event_type(&self) -> (res: &'static str)
        ensures
            res@ == event_type_name(*self),
    {
        match self {
            AuditEvent::OrderCreated(_) => "ORDER_CREATED",
            AuditEvent::OrderExecuted(_) => "ORDER_EXECUTED",
            AuditEvent::OrderRejected(_) => "ORDER_REJECTED",
        }
    }
}

/// Frames an event for publication, given its serialized form. The tag is one
/// of the three constant tags, so it needs no escaping inside the JSON string.
pub fn audit_frame<A>(event: &AuditEvent<A>, data_json: &str) -> (res: String)
    ensures
        res@ == audit_frame_text(event_type_name(*event), data_json@),
{
    let tag = event.event_type();
    let head = join4("{\"", FRAME_DATA_KEY, "\":", data_json);
    let tail = join4(",\"", FRAME_TYPE_KEY, "\":\"", crate::text::join2(tag, "\"}").as_str());
    crate::text::join2(head.as_str(), tail.as_str())
}

} // verus!
