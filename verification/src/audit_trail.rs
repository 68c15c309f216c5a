//! The audit trail from end to end: what the portfolio service's forwarder
//! publishes and what the audit service's subscriber then stores.

use vstd::prelude::*;
use crate::audit::{AuditSubscriber, SubscriberAction, SubscriberEvent, SubscriberPhase};
use crate::events::{AUDIT_CHANNEL, FRAME_DATA_KEY, FRAME_TYPE_KEY, AuditEvent, audit_frame_text, event_type_name};
use crate::forwarder::{EventForwarder, ForwarderAction, ForwarderEvent, ForwarderPhase};
use crate::outside::{json_member_text, json_string_member};

verus! {

/// The two services meet on one channel: the forwarder publishes on the channel
/// the subscriber subscribes to.
pub proof fn lemma_same_channel(f: EventForwarder, fa: ForwarderAction, s: AuditSubscriber, sa: SubscriberAction)
    requires
        f.phase is Publishing,
        f.requests(fa),
        s.phase is Subscribing,
        s.requests(sa),
    ensures
        fa->Publish_channel@ == sa->Subscribe_channel@,
{
}

/// An event that the connected forwarder publishes is stored by the listening
/// subscriber that receives the published text: under the identifier drawn for
/// it, with the event's own type tag, and with the event's serialized form as its
/// data, provided serde_json reads the frame's type and data members (named by the
/// same constants that the frame is written with) back as the tag and the
/// serialized form.
pub proof fn lemma_audit_trail<A>(
    f: EventForwarder,
    event: AuditEvent<A>,
    data_json: String,
    f2: EventForwarder,
    a: ForwarderAction,
    s: AuditSubscriber,
    record_id: uuid::Uuid,
    s2: AuditSubscriber,
)
    requires
        f.phase == (ForwarderPhase::Forwarding { connected: true }),
        f.transition(ForwarderEvent::Received { event, data_json }, f2),
        f2.requests(a),
        s.phase is Listening,
        s.transition(SubscriberEvent::Message { payload: Some(a->Publish_payload), record_id }, s2),
        json_string_member(audit_frame_text(event_type_name(event), data_json@), FRAME_TYPE_KEY@)
            == Some(Some(event_type_name(event))),
        json_member_text(audit_frame_text(event_type_name(event), data_json@), FRAME_DATA_KEY@)
            == Some(data_json@),
    ensures
        a->Publish_channel@ == AUDIT_CHANNEL@,
        s2.phase matches SubscriberPhase::Persisting { id, event_type, data_json: stored }
            && id == record_id
            && event_type@ == event_type_name(event)
            && stored@ == data_json@,
{
}

} // verus!
