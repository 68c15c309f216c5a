use mini_exchange::errors::{AppError, MarketError, PortfolioError};
use mini_exchange::events::{audit_frame, AuditEvent, OrderEventPayload, OrderRejectedPayload, AUDIT_CHANNEL};
use mini_exchange::market::{check_reply_status, normalize_base_url, price_url, read_reply_body, unreachable_market, ReplyBody};
use mini_exchange::models::OrderSide;
use mini_exchange::price::{cache_key, collect_prices, default_symbols, normalize_symbol, price_or_not_found, PRICE_CACHE_TTL_SECS};
use uuid::Uuid;

#[test]
fn market_errors_map_to_status_and_message() {
    let (code, msg) = MarketError::SymbolNotFound("DOGE".into()).reply();
    assert_eq!((code, msg.as_str()), (404, "Symbol not found: DOGE"));
    let (code, msg) = MarketError::Redis("down".into()).reply();
    assert_eq!((code, msg.as_str()), (500, "Redis error: down"));
    let (code, msg) = MarketError::Internal("oops".into()).reply();
    assert_eq!((code, msg.as_str()), (500, "Internal error: oops"));
}

#[test]
fn portfolio_errors_map_to_status_and_text() {
    let cases: Vec<(PortfolioError<f64>, u16, &str)> = vec![
        (PortfolioError::App(AppError::NotFound("User x not found".into())), 404, "Not found: User x not found"),
        (
            PortfolioError::App(AppError::InsufficientBalance { required: 10.0, available: 1.0 }),
            422,
            "Insufficient balance: required 10.00, available 1.00",
        ),
        (PortfolioError::App(AppError::InvalidRequest("bad".into())), 422, "Invalid request: bad"),
        (
            PortfolioError::App(AppError::MarketServiceUnavailable("gone".into())),
            503,
            "Market service unavailable: gone",
        ),
        (PortfolioError::App(AppError::Database("disk".into())), 500, "Internal server error"),
        (PortfolioError::App(AppError::Internal("bug".into())), 500, "Internal server error"),
        (PortfolioError::Serde("eof".into()), 500, "Internal server error"),
    ];
    for (e, code, text) in cases {
        let (c, t) = e.reply("10.00", "1.00");
        assert_eq!(c, code);
        assert_eq!(t, text);
    }
    let holdings: PortfolioError<f64> = PortfolioError::App(AppError::InsufficientHoldings {
        symbol: "ETH".into(),
        required: 2.0,
        available: 0.5,
    });
    assert_eq!(holdings.status_code(), 422);
    assert_eq!(
        holdings.message("2.0000", "0.5000"),
        "Insufficient holdings: required 2.0000 ETH, available 0.5000"
    );
    assert_eq!(PortfolioError::<f64>::Serde("eof".into()).message("", ""), "Serialization error: eof");
}

#[test]
fn app_error_messages_and_decimals() {
    assert_eq!(AppError::<f64>::Database("x".into()).message("", ""), "Database error: x");
    assert_eq!(AppError::<f64>::Internal("y".into()).message("", ""), "Internal error: y");
    assert_eq!(AppError::<f64>::InsufficientBalance { required: 1.0, available: 0.0 }.decimals(), 2);
    let h = AppError::<f64>::InsufficientHoldings { symbol: "B".into(), required: 1.0, available: 0.0 };
    assert_eq!(h.decimals(), 4);
    match AppError::<f64>::not_found("Order", "1234") {
        AppError::NotFound(m) => assert_eq!(m, "Order 1234 not found"),
        _ => panic!("wrong variant"),
    }
}

#[test]
fn side_labels() {
    assert_eq!(OrderSide::Buy.label(), "Buy");
    assert_eq!(OrderSide::Sell.label(), "Sell");
}

#[test]
fn event_types_and_frame() {
    let id = Uuid::nil();
    let p = |side: &str| OrderEventPayload {
        order_id: id,
        user_id: id,
        symbol: "BTC".to_string(),
        side: side.to_string(),
        quantity: 1.0f64,
        price: 2.0,
    };
    assert_eq!(AuditEvent::OrderCreated(p("Buy")).event_type(), "ORDER_CREATED");
    assert_eq!(AuditEvent::OrderExecuted(p("Buy")).event_type(), "ORDER_EXECUTED");
    let rejected = AuditEvent::OrderRejected(OrderRejectedPayload {
        order_id: id,
        user_id: id,
        symbol: "BTC".to_string(),
        side: "Sell".to_string(),
        quantity: 1.0f64,
        reason: "no".to_string(),
    });
    assert_eq!(rejected.event_type(), "ORDER_REJECTED");
    assert_eq!(
        audit_frame(&AuditEvent::OrderCreated(p("Buy")), "{\"a\":1}"),
        "{\"data\":{\"a\":1},\"type\":\"ORDER_CREATED\"}"
    );
    assert_eq!(
        audit_frame(&rejected, "{}"),
        "{\"data\":{},\"type\":\"ORDER_REJECTED\"}"
    );
    assert_eq!(AUDIT_CHANNEL, "audit_events");
}

#[test]
fn frame_matches_serde_json_rendering() {
    let mut inner = serde_json::Map::new();
    inner.insert("x".to_string(), serde_json::Value::from(1));
    let mut body = serde_json::Map::new();
    body.insert("type".to_string(), serde_json::Value::from("OrderCreated"));
    body.insert("payload".to_string(), serde_json::Value::Object(inner));
    let data = serde_json::Value::Object(body);
    let mut outer = serde_json::Map::new();
    outer.insert("type".to_string(), serde_json::Value::from("ORDER_CREATED"));
    outer.insert("data".to_string(), data.clone());
    let expected = serde_json::Value::Object(outer).to_string();
    let event = AuditEvent::OrderCreated(OrderEventPayload {
        order_id: Uuid::nil(),
        user_id: Uuid::nil(),
        symbol: "BTC".to_string(),
        side: "Buy".to_string(),
        quantity: 1.0f64,
        price: 2.0,
    });
    assert_eq!(audit_frame(&event, &data.to_string()), expected);
}

#[test]
fn base_url_loses_trailing_slashes() {
    assert_eq!(normalize_base_url("http://market:8080/"), "http://market:8080");
    assert_eq!(normalize_base_url("http://market:8080///"), "http://market:8080");
    assert_eq!(normalize_base_url("http://market:8080"), "http://market:8080");
    assert_eq!(normalize_base_url("///"), "");
    assert_eq!(normalize_base_url(""), "");
    assert_eq!(price_url("http://market:8080", "BTC"), "http://market:8080/prices/BTC");
}

#[test]
fn reply_status_checks() {
    assert!(check_reply_status::<f64>("BTC", 200).is_ok());
    match check_reply_status::<f64>("DOGE", 404) {
        Err(AppError::NotFound(m)) => assert_eq!(m, "Symbol DOGE not found"),
        _ => panic!("expected not found"),
    }
    match check_reply_status::<f64>("BTC", 500) {
        Err(AppError::MarketServiceUnavailable(m)) => {
            assert_eq!(m, "Market returned status 500 Internal Server Error")
        }
        _ => panic!("expected unavailable"),
    }
    match check_reply_status::<f64>("BTC", 302) {
        Err(AppError::MarketServiceUnavailable(m)) => assert_eq!(m, "Market returned status 302 Found"),
        _ => panic!("expected unavailable"),
    }
}

#[test]
fn reply_body_reading() {
    let p = read_reply_body::<f64, i64>("BTC", ReplyBody::Parsed(Some(65000.5)), 7).unwrap();
    assert_eq!((p.symbol.as_str(), p.price, p.timestamp), ("BTC", 65000.5, 7));
    match read_reply_body::<f64, i64>("BTC", ReplyBody::Parsed(None), 7) {
        Err(AppError::MarketServiceUnavailable(m)) => assert_eq!(m, "Missing price field"),
        _ => panic!(),
    }
    match read_reply_body::<f64, i64>("BTC", ReplyBody::Unparsable("eof".into()), 7) {
        Err(AppError::MarketServiceUnavailable(m)) => assert_eq!(m, "Invalid response: eof"),
        _ => panic!(),
    }
    match unreachable_market::<f64>("timeout") {
        AppError::MarketServiceUnavailable(m) => assert_eq!(m, "timeout"),
        _ => panic!(),
    }
}

#[test]
fn listed_symbols_in_order() {
    let s = default_symbols();
    let pairs: Vec<(String, String)> = s.into_iter().map(|x| (x.symbol, x.name)).collect();
    let expected = [("BTC", "Bitcoin"), ("ETH", "Ethereum"), ("SOL", "Solana"), ("BNB", "BNB"), ("USDT", "Tether")];
    assert_eq!(pairs.len(), expected.len());
    for (got, want) in pairs.iter().zip(expected.iter()) {
        assert_eq!((got.0.as_str(), got.1.as_str()), *want);
    }
}

#[test]
fn symbol_lookup_helpers() {
    assert_eq!(normalize_symbol("btc"), "BTC");
    assert_eq!(normalize_symbol("Eth"), "ETH");
    assert_eq!(cache_key("SOL"), "price:SOL");
    assert_eq!(PRICE_CACHE_TTL_SECS, 5);
    assert_eq!(price_or_not_found("BTC".to_string(), Some(3)).unwrap(), 3);
    match price_or_not_found::<i32>("XYZ".to_string(), None) {
        Err(e) => {
            let (code, msg) = e.reply();
            assert_eq!((code, msg.as_str()), (404, "Symbol not found: XYZ"));
        }
        Ok(_) => panic!(),
    }
    assert_eq!(collect_prices(vec![Some(1), None, Some(3), None]), vec![1, 3]);
    assert_eq!(collect_prices::<i32>(vec![]), Vec::<i32>::new());
}
