//! The portfolio service's audit forwarder: it connects to Redis where an address
//! is configured, then publishes every audit event it receives on the audit
//! channel, until the event channel closes.

use vstd::prelude::*;
use crate::events::{AUDIT_CHANNEL, AuditEvent, audit_frame, audit_frame_text, event_type_name};

verus! {

/// What the forwarder asks for next.
pub enum ForwarderAction {
    /// Create a Redis client for this address.
    OpenClient { url: String },
    /// Open a connection with the client.
    Connect,
    /// Wait for the next audit event.
    Receive,
    /// Publish a message on a channel; the outcome is ignored.
    Publish { channel: String, payload: String },
    /// The forwarder is done.
    Stop,
}

/// What the service reports back.
pub enum ForwarderEvent<A> {
    ClientOpened(bool),
    Connected(bool),
    /// An audit event and its serialized form.
    Received { event: AuditEvent<A>, data_json: String },
    /// The receiver fell behind and this many events were lost.
    Lagged(u64),
    /// The event channel closed.
    Closed,
    Published,
}

/// Where the forwarder stands. `connected` says whether a Redis connection exists.
pub enum ForwarderPhase {
    Opening { url: String },
    Connecting,
    Forwarding { connected: bool },
    Publishing { payload: String },
    Stopped,
}

/// The audit forwarder.
pub struct EventForwarder {
    pub phase: ForwarderPhase,
}

impl EventForwarder {
    /// The request that the forwarder asks for in its phase.
    pub open spec fn requests(self, a: ForwarderAction) -> bool {
        match self.phase {
            ForwarderPhase::Opening { url } => a == ForwarderAction::OpenClient { url },
            ForwarderPhase::Connecting => a is Connect,
            ForwarderPhase::Forwarding { .. } => a is Receive,
            ForwarderPhase::Publishing { payload } =>
                a matches ForwarderAction::Publish { channel, payload: p } && channel@ == AUDIT_CHANNEL@ && p == payload,
            ForwarderPhase::Stopped => a is Stop,
        }
    }

    /// How an event moves the forwarder. Without a connection, received events
    /// are dropped. An event that answers no pending request leaves it where it was.
    pub open spec fn transition<A>(self, event: ForwarderEvent<A>, res: Self) -> bool {
        match (self.phase, event) {
            (ForwarderPhase::Opening { .. }, ForwarderEvent::ClientOpened(ok)) =>
                res.phase == if ok { ForwarderPhase::Connecting } else { ForwarderPhase::Forwarding { connected: false } },
            (ForwarderPhase::Connecting, ForwarderEvent::Connected(ok)) =>
                res.phase == ForwarderPhase::Forwarding { connected: ok },
            (ForwarderPhase::Forwarding { connected }, ForwarderEvent::Received { event, data_json }) =>
                if connected {
                    res.phase matches ForwarderPhase::Publishing { payload }
                        && payload@ == audit_frame_text(event_type_name(event), data_json@)
                } else {
                    res.phase == ForwarderPhase::Forwarding { connected: false }
                },
            (ForwarderPhase::Forwarding { connected }, ForwarderEvent::Lagged(_)) =>
                res.phase == ForwarderPhase::Forwarding { connected },
            (ForwarderPhase::Forwarding { .. }, ForwarderEvent::Closed) => res.phase == ForwarderPhase::Stopped,
            (ForwarderPhase::Publishing { .. }, ForwarderEvent::Published) =>
                res.phase == ForwarderPhase::Forwarding { connected: true },
            _ => res.phase == self.phase,
        }
    }

    /// A forwarder for a Redis address, or for none: without an address it runs
    /// unconnected from the start.
    pub fn start(redis_url: Option<String>) -> (res: Self)
        ensures
            redis_url matches Some(url) ==> res.phase == (ForwarderPhase::Opening { url }),
            redis_url is None ==> res.phase == (ForwarderPhase::Forwarding { connected: false }),
    {
        match redis_url {
            Some(url) => EventForwarder { phase: ForwarderPhase::Opening { url } },
            None => EventForwarder { phase: ForwarderPhase::Forwarding { connected: false } },
        }
    }

    /// The pending request.
    pub fn action(&self) -> (a: ForwarderAction)
        ensures
            self.requests(a),
    {
        match &self.phase {
            ForwarderPhase::Opening { url } => ForwarderAction::OpenClient { url: url.clone() },
            ForwarderPhase::Connecting => ForwarderAction::Connect,
            ForwarderPhase::Forwarding { .. } => ForwarderAction::Receive,
            ForwarderPhase::Publishing { payload } =>
                ForwarderAction::Publish { channel: String::from_str(AUDIT_CHANNEL), payload: payload.clone() },
            ForwarderPhase::Stopped => ForwarderAction::Stop,
        }
    }

    /// Moves the forwarder by what the service reports.
    pub fn advance<A>(self, event: ForwarderEvent<A>) -> (res: Self)
        ensures
            self.transition(event, res),
    {
        let phase = match (self.phase, event) {
            (ForwarderPhase::Opening { .. }, ForwarderEvent::ClientOpened(ok)) =>
                if ok { ForwarderPhase::Connecting } else { ForwarderPhase::Forwarding { connected: false } },
            (ForwarderPhase::Connecting, ForwarderEvent::Connected(ok)) => ForwarderPhase::Forwarding { connected: ok },
            (ForwarderPhase::Forwarding { connected }, ForwarderEvent::Received { event, data_json }) =>
                if connected {
                    ForwarderPhase::Publishing { payload: audit_frame(&event, data_json.as_str()) }
                } else {
                    ForwarderPhase::Forwarding { connected: false }
                },
            (ForwarderPhase::Forwarding { connected }, ForwarderEvent::Lagged(_)) => ForwarderPhase::Forwarding { connected },
            (ForwarderPhase::Forwarding { .. }, ForwarderEvent::Closed) => ForwarderPhase::Stopped,
            (ForwarderPhase::Publishing { .. }, ForwarderEvent::Published) => ForwarderPhase::Forwarding { connected: true },
            (phase, _) => phase,
        };
        EventForwarder { phase }
    }
}

/// With a connection, every received event is published once, on the audit
/// channel, framed with its own type tag and its serialized form, and forwarding
/// then goes on.
pub proof fn lemma_event_published_with_its_type<A>(
    s: EventForwarder,
    event: AuditEvent<A>,
    data_json: String,
    r: EventForwarder,
    a: ForwarderAction,
    r2: EventForwarder,
)
    requires
        s.phase == (ForwarderPhase::Forwarding { connected: true }),
        s.transition(ForwarderEvent::Received { event, data_json }, r),
        r.requests(a),
        r.transition(ForwarderEvent::<A>::Published, r2),
    ensures
        a matches ForwarderAction::Publish { channel, payload }
            && channel@ == AUDIT_CHANNEL@
            && payload@ == audit_frame_text(event_type_name(event), data_json@),
        r2.phase == (ForwarderPhase::Forwarding { connected: true }),
{
}

/// Without a connection, events are received and dropped; nothing is published.
pub proof fn lemma_unconnected_drops<A>(s: EventForwarder, e: ForwarderEvent<A>, r: EventForwarder)
    requires
        s.phase == (ForwarderPhase::Forwarding { connected: false }),
        s.transition(e, r),
    ensures
        r.phase == (ForwarderPhase::Forwarding { connected: false }) || r.phase is Stopped,
{
}

/// Only the closing of the event channel stops the forwarder; a lag does not.
pub proof fn lemma_stops_only_when_closed<A>(s: EventForwarder, e: ForwarderEvent<A>, r: EventForwarder)
    requires
        s.transition(e, r),
        !(s.phase is Stopped),
        r.phase is Stopped,
    ensures
        e is Closed,
        s.phase is Forwarding,
{
}

/// A lag loses events but not the connection: the forwarder stays as connected as
/// it was, and a connected forwarder publishes the next event it receives.
pub proof fn lemma_lag_keeps_connection<A>(
    f: EventForwarder,
    connected: bool,
    lost: u64,
    r: EventForwarder,
    event: AuditEvent<A>,
    data_json: String,
    r2: EventForwarder,
)
    requires
        f.phase == (ForwarderPhase::Forwarding { connected }),
        f.transition(ForwarderEvent::<A>::Lagged(lost), r),
        r.transition(ForwarderEvent::Received { event, data_json }, r2),
    ensures
        r.phase == (ForwarderPhase::Forwarding { connected }),
        connected ==> (r2.phase matches ForwarderPhase::Publishing { payload }
            && payload@ == audit_frame_text(event_type_name(event), data_json@)),
        !connected ==> r2.phase == (ForwarderPhase::Forwarding { connected: false }),
{
}

} // verus!
