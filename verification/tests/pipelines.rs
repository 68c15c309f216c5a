use mini_exchange::audit::{event_type_of, new_record_id, AuditSubscriber, SubscriberAction, SubscriberEvent};
use mini_exchange::events::{AuditEvent, OrderEventPayload};
use mini_exchange::forwarder::{EventForwarder, ForwarderAction, ForwarderEvent};
use mini_exchange::price::{PriceAction, PriceEvent, PriceLookup};
use uuid::Uuid;

fn created() -> AuditEvent<f64> {
    AuditEvent::OrderCreated(OrderEventPayload {
        order_id: Uuid::nil(),
        user_id: Uuid::nil(),
        symbol: "BTC".into(),
        side: "Buy".into(),
        quantity: 0.1,
        price: 65000.0,
    })
}

#[test]
fn cache_hit_is_served_as_is() {
    let l: PriceLookup<f64, i64> = PriceLookup::start("BTC".into());
    match l.action() {
        PriceAction::ReadCache { key } => assert_eq!(key, "price:BTC"),
        _ => panic!(),
    }
    let l = l.advance(PriceEvent::CacheChecked(Some((100.0, 9))));
    assert!(matches!(l.action(), PriceAction::Finish));
    let p = l.into_outcome().unwrap().unwrap();
    assert_eq!((p.symbol.as_str(), p.price, p.timestamp), ("BTC", 100.0, 9));
}

#[test]
fn cache_miss_drifts_caches_and_serves() {
    let l: PriceLookup<f64, i64> = PriceLookup::start("ETH".into());
    let l = l.advance(PriceEvent::CacheChecked(None));
    match l.action() {
        PriceAction::DriftBase { symbol } => assert_eq!(symbol, "ETH"),
        _ => panic!(),
    }
    let l = l.advance(PriceEvent::Drifted(Some(3501.5)));
    match l.action() {
        PriceAction::WriteCache { key, price, ttl_secs } => {
            assert_eq!((key.as_str(), price, ttl_secs), ("price:ETH", 3501.5, 5))
        }
        _ => panic!(),
    }
    let l = l.advance(PriceEvent::CacheWritten { at: 11 });
    let p = l.into_outcome().unwrap().unwrap();
    assert_eq!((p.price, p.timestamp), (3501.5, 11));
}

#[test]
fn unknown_symbol_has_no_price() {
    let l: PriceLookup<f64, i64> = PriceLookup::start("DOGE".into());
    let l = l.advance(PriceEvent::CacheChecked(None));
    assert!(matches!(l.action(), PriceAction::Finish));
    assert!(l.into_outcome().unwrap().is_none());
    let cached: PriceLookup<f64, i64> = PriceLookup::start("DOGE".into());
    let cached = cached.advance(PriceEvent::CacheChecked(Some((0.5, 3))));
    assert_eq!(cached.into_outcome().unwrap().unwrap().price, 0.5);
    assert!(mini_exchange::price::is_listed(&"USDT".to_string()));
    assert!(!mini_exchange::price::is_listed(&"btc".to_string()));
}

#[test]
fn unreadable_base_price_gives_none() {
    let l: PriceLookup<f64, i64> = PriceLookup::start("BTC".into());
    let l = l.advance(PriceEvent::CacheChecked(None));
    assert!(matches!(l.action(), PriceAction::DriftBase { .. }));
    let l = l.advance(PriceEvent::Drifted(None));
    assert!(l.into_outcome().unwrap().is_none());
}

#[test]
fn running_lookup_has_no_outcome_yet() {
    let l: PriceLookup<f64, i64> = PriceLookup::start("BTC".into());
    assert!(l.into_outcome().is_none());
}

#[test]
fn subscriber_reconnects_and_stores_messages() {
    let s = AuditSubscriber::new();
    assert!(matches!(s.action(), SubscriberAction::OpenClient));
    let s = s.advance(SubscriberEvent::ClientOpened(true));
    assert!(matches!(s.action(), SubscriberAction::Connect));
    let s = s.advance(SubscriberEvent::Connected(false));
    assert!(matches!(s.action(), SubscriberAction::Sleep { secs: 5 }));
    let s = s.advance(SubscriberEvent::Slept);
    let s = s.advance(SubscriberEvent::Connected(true));
    match s.action() {
        SubscriberAction::Subscribe { channel } => assert_eq!(channel, "audit_events"),
        _ => panic!(),
    }
    let s = s.advance(SubscriberEvent::Subscribed(false));
    assert!(matches!(s.action(), SubscriberAction::Connect));
    let s = s.advance(SubscriberEvent::Connected(true));
    let s = s.advance(SubscriberEvent::Subscribed(true));
    assert!(matches!(s.action(), SubscriberAction::NextMessage));
    let s = s.advance(SubscriberEvent::Message { payload: Some("not json".into()), record_id: new_record_id() });
    assert!(matches!(s.action(), SubscriberAction::NextMessage));
    let s = s.advance(SubscriberEvent::Message { payload: None, record_id: new_record_id() });
    assert!(matches!(s.action(), SubscriberAction::NextMessage));
    let first = new_record_id();
    let frame = "{\"data\":{\"payload\":{\"x\":1},\"type\":\"OrderCreated\"},\"type\":\"ORDER_CREATED\"}";
    let s = s.advance(SubscriberEvent::Message { payload: Some(frame.into()), record_id: first });
    match s.action() {
        SubscriberAction::Persist { id, event_type, data_json } => {
            assert_eq!(id, first);
            assert_eq!(event_type, "ORDER_CREATED");
            assert_eq!(data_json, "{\"payload\":{\"x\":1},\"type\":\"OrderCreated\"}");
        }
        _ => panic!(),
    }
    let s = s.advance(SubscriberEvent::Persisted(false));
    let second = new_record_id();
    assert_ne!(first, second);
    let s = s.advance(SubscriberEvent::Message { payload: Some("{\"type\":7}".into()), record_id: second });
    match s.action() {
        SubscriberAction::Persist { id, event_type, data_json } => {
            assert_eq!(id, second);
            assert_eq!(event_type, "UNKNOWN");
            assert_eq!(data_json, "null");
        }
        _ => panic!(),
    }
    let s = s.advance(SubscriberEvent::Persisted(true));
    let s = s.advance(SubscriberEvent::StreamEnded);
    assert!(matches!(s.action(), SubscriberAction::Sleep { secs: 2 }));
    let s = s.advance(SubscriberEvent::Slept);
    assert!(matches!(s.action(), SubscriberAction::Connect));
}

#[test]
fn subscriber_stops_without_client() {
    let s = AuditSubscriber::new().advance(SubscriberEvent::ClientOpened(false));
    assert!(matches!(s.action(), SubscriberAction::Stop));
    let s = s.advance(SubscriberEvent::Slept);
    assert!(matches!(s.action(), SubscriberAction::Stop));
}

#[test]
fn stored_type_defaults_to_unknown() {
    assert_eq!(event_type_of(Some("ORDER_EXECUTED".into())), "ORDER_EXECUTED");
    assert_eq!(event_type_of(None), "UNKNOWN");
}

#[test]
fn forwarder_publishes_when_connected() {
    let f = EventForwarder::start(Some("redis://r".into()));
    match f.action() {
        ForwarderAction::OpenClient { url } => assert_eq!(url, "redis://r"),
        _ => panic!(),
    }
    let f = f.advance::<f64>(ForwarderEvent::ClientOpened(true));
    assert!(matches!(f.action(), ForwarderAction::Connect));
    let f = f.advance::<f64>(ForwarderEvent::Connected(true));
    assert!(matches!(f.action(), ForwarderAction::Receive));
    let f = f.advance(ForwarderEvent::Received { event: created(), data_json: "{}".into() });
    match f.action() {
        ForwarderAction::Publish { channel, payload } => {
            assert_eq!(channel, "audit_events");
            assert_eq!(payload, "{\"data\":{},\"type\":\"ORDER_CREATED\"}");
            let s = AuditSubscriber { phase: mini_exchange::audit::SubscriberPhase::Listening };
            let id = new_record_id();
            let s = s.advance(SubscriberEvent::Message { payload: Some(payload), record_id: id });
            match s.action() {
                SubscriberAction::Persist { id: got, event_type, data_json } => {
                    assert_eq!((got, event_type.as_str(), data_json.as_str()), (id, "ORDER_CREATED", "{}"));
                }
                _ => panic!(),
            }
        }
        _ => panic!(),
    }
    let f = f.advance::<f64>(ForwarderEvent::Published);
    let f = f.advance::<f64>(ForwarderEvent::Lagged(3));
    assert!(matches!(f.action(), ForwarderAction::Receive));
    let f = f.advance::<f64>(ForwarderEvent::Closed);
    assert!(matches!(f.action(), ForwarderAction::Stop));
}

#[test]
fn forwarder_without_redis_drops_events() {
    let f = EventForwarder::start(None);
    assert!(matches!(f.action(), ForwarderAction::Receive));
    let f = f.advance(ForwarderEvent::Received { event: created(), data_json: "{}".into() });
    assert!(matches!(f.action(), ForwarderAction::Receive));
    let g = EventForwarder::start(Some("bad".into())).advance::<f64>(ForwarderEvent::ClientOpened(false));
    assert!(matches!(g.action(), ForwarderAction::Receive));
    let h = EventForwarder::start(Some("x".into()))
        .advance::<f64>(ForwarderEvent::ClientOpened(true))
        .advance::<f64>(ForwarderEvent::Connected(false));
    let h = h.advance(ForwarderEvent::Received { event: created(), data_json: "{}".into() });
    assert!(matches!(h.action(), ForwarderAction::Receive));
}
