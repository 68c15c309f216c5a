use mini_exchange::errors::{AppError, PortfolioError};
use mini_exchange::events::AuditEvent;
use mini_exchange::models::{CreateOrderRequest, Order, OrderSide, OrderStatus};
use mini_exchange::order::{
    new_order_id, BalanceCheck, HoldingChange, HoldingCheck, OrderAction, OrderEvent,
    OrderExecution,
};
use std::collections::HashMap;
use uuid::Uuid;

/// An in-memory stand-in for the market and the database, with a transaction that
/// is applied on commit only.
struct World {
    price: Result<f64, AppError<f64>>,
    cash: HashMap<Uuid, f64>,
    holdings: HashMap<(Uuid, String), f64>,
    orders: HashMap<Uuid, (OrderStatus, Option<String>)>,
    // pending transaction
    tx_cash: HashMap<Uuid, f64>,
    tx_holdings: HashMap<(Uuid, String), f64>,
    tx_orders: HashMap<Uuid, (OrderStatus, Option<String>)>,
    fail_on: Option<&'static str>,
    log: Vec<String>,
    events: Vec<String>,
    reasons: Vec<String>,
    reply: u16,
}

impl World {
    fn new(price: Result<f64, AppError<f64>>) -> World {
        World {
            price,
            cash: HashMap::new(),
            holdings: HashMap::new(),
            orders: HashMap::new(),
            tx_cash: HashMap::new(),
            tx_holdings: HashMap::new(),
            tx_orders: HashMap::new(),
            fail_on: None,
            log: Vec::new(),
            events: Vec::new(),
            reasons: Vec::new(),
            reply: 0,
        }
    }

    fn step(&mut self, name: &'static str) -> Result<(), AppError<f64>> {
        self.log.push(name.to_string());
        if self.fail_on == Some(name) {
            Err(AppError::Database(format!("{} failed", name)))
        } else {
            Ok(())
        }
    }

    fn run(&mut self, req: CreateOrderRequest<f64>) -> Result<Order<f64, i64>, AppError<f64>> {
        let positive = !(req.quantity <= 0.0);
        let quantity = req.quantity;
        let mut exec: OrderExecution<f64, i64> = OrderExecution::start(req, positive);
        let mut total_cost = 0.0;
        loop {
            let event = match exec.action() {
                OrderAction::FetchPrice { .. } => {
                    self.log.push("fetch".into());
                    match &self.price {
                        Ok(p) => {
                            total_cost = quantity * p;
                            OrderEvent::Quoted { price: *p, total_cost, created_at: 42, order_id: new_order_id() }
                        }
                        Err(AppError::MarketServiceUnavailable(m)) => {
                            OrderEvent::QuoteFailed(AppError::MarketServiceUnavailable(m.clone()))
                        }
                        Err(_) => OrderEvent::QuoteFailed(AppError::Internal("x".into())),
                    }
                }
                OrderAction::Emit(ev) => {
                    match ev {
                        AuditEvent::OrderCreated(p) => {
                            assert_eq!(p.price * quantity, total_cost);
                            self.events.push(format!("ORDER_CREATED {}", p.side))
                        }
                        AuditEvent::OrderExecuted(p) => self.events.push(format!("ORDER_EXECUTED {}", p.side)),
                        AuditEvent::OrderRejected(p) => {
                            self.events.push(format!("ORDER_REJECTED {}", p.side));
                            self.reasons.push(p.reason.clone());
                        }
                    }
                    OrderEvent::Emitted
                }
                OrderAction::BeginTransaction => {
                    self.tx_cash = self.cash.clone();
                    self.tx_holdings = self.holdings.clone();
                    self.tx_orders = self.orders.clone();
                    OrderEvent::Done(self.step("begin"))
                }
                OrderAction::InsertOrder(o) => {
                    let r = self.step("insert");
                    if r.is_ok() {
                        assert_eq!(o.status, OrderStatus::Pending);
                        self.tx_orders.insert(o.id, (o.status, o.reject_reason.clone()));
                    }
                    OrderEvent::Done(r)
                }
                OrderAction::LockBalance { user_id } => {
                    let r = self.step("lock");
                    OrderEvent::BalanceLocked(r.and_then(|_| match self.tx_cash.get(&user_id) {
                        Some(b) => Ok(BalanceCheck { available: *b, covers_cost: !(*b < total_cost) }),
                        None => Err(AppError::NotFound(format!("User {} not found", user_id))),
                    }))
                }
                OrderAction::DeductCash { user_id, amount } => {
                    let r = self.step("deduct");
                    if r.is_ok() {
                        *self.tx_cash.get_mut(&user_id).unwrap() -= amount;
                    }
                    OrderEvent::Done(r)
                }
                OrderAction::AddCash { user_id, amount } => {
                    let r = self.step("credit");
                    if r.is_ok() {
                        *self.tx_cash.get_mut(&user_id).unwrap() += amount;
                    }
                    OrderEvent::Done(r)
                }
                OrderAction::ReadHolding { user_id, symbol } => {
                    let r = self.step("read_holding");
                    let held = self.tx_holdings.get(&(user_id, symbol)).copied().unwrap_or(0.0);
                    OrderEvent::HoldingRead(r.map(|_| HoldingCheck {
                        available: held,
                        covers_quantity: !(held < quantity),
                    }))
                }
                OrderAction::UpsertHolding { user_id, symbol, change, .. } => {
                    let r = self.step("upsert");
                    if r.is_ok() {
                        let delta = match change {
                            HoldingChange::Increase(q) => q,
                            HoldingChange::Decrease(q) => -q,
                        };
                        *self.tx_holdings.entry((user_id, symbol)).or_insert(0.0) += delta;
                    }
                    OrderEvent::Done(r)
                }
                OrderAction::RenderAmounts { required, available, decimals } => {
                    let d = decimals as usize;
                    OrderEvent::AmountsRendered {
                        required: format!("{:.*}", d, required),
                        available: format!("{:.*}", d, available),
                    }
                }
                OrderAction::UpdateStatus { order_id, status, reject_reason } => {
                    let r = self.step("update");
                    if r.is_ok() {
                        self.tx_orders.insert(order_id, (status, reject_reason));
                    }
                    OrderEvent::Done(r)
                }
                OrderAction::Commit => {
                    let r = self.step("commit");
                    if r.is_ok() {
                        self.cash = self.tx_cash.clone();
                        self.holdings = self.tx_holdings.clone();
                        self.orders = self.tx_orders.clone();
                    }
                    OrderEvent::Done(r)
                }
                OrderAction::Finish => break,
            };
            exec = exec.advance(event);
        }
        self.reply = exec.reply_status();
        exec.into_outcome().unwrap()
    }
}

fn alice() -> Uuid {
    Uuid::parse_str("a0000000-0000-0000-0000-000000000001").unwrap()
}

fn bob() -> Uuid {
    Uuid::parse_str("b0000000-0000-0000-0000-000000000002").unwrap()
}

fn request(user: Uuid, side: OrderSide, quantity: f64) -> CreateOrderRequest<f64> {
    CreateOrderRequest { user_id: user, symbol: "BTC".to_string(), side, quantity }
}

fn seeded(price: f64) -> World {
    let mut w = World::new(Ok(price));
    w.cash.insert(alice(), 100_000.0);
    w.cash.insert(bob(), 500.0);
    w
}

#[test]
fn successful_buy_executes_and_moves_cash_and_holding() {
    let mut w = seeded(65_000.0);
    let order = w.run(request(alice(), OrderSide::Buy, 0.1)).unwrap();
    assert_eq!(order.status, OrderStatus::Executed);
    assert_eq!(order.reject_reason, None);
    assert_eq!(order.price, 65_000.0);
    assert_eq!(order.quantity, 0.1);
    assert_eq!(order.user_id, alice());
    assert_eq!(order.symbol, "BTC");
    assert_eq!(order.created_at, 42);
    assert!(w.orders.contains_key(&order.id));
    assert_eq!(w.cash[&alice()], 100_000.0 - 0.1 * 65_000.0);
    assert_eq!(w.holdings[&(alice(), "BTC".to_string())], 0.1);
    assert_eq!(w.events, vec!["ORDER_CREATED Buy", "ORDER_EXECUTED Buy"]);
    assert_eq!(w.log, vec!["fetch", "begin", "insert", "lock", "deduct", "upsert", "update", "commit"]);
    assert_eq!(w.orders[&order.id], (OrderStatus::Executed, None));
    assert_eq!(w.reply, 200);
}

#[test]
fn successful_sell_after_buy_credits_cash() {
    let mut w = seeded(65_000.0);
    w.run(request(alice(), OrderSide::Buy, 0.1)).unwrap();
    let cash_after_buy = w.cash[&alice()];
    let order = w.run(request(alice(), OrderSide::Sell, 0.05)).unwrap();
    assert_eq!(order.status, OrderStatus::Executed);
    assert_eq!(w.cash[&alice()], cash_after_buy + 0.05 * 65_000.0);
    assert_eq!(w.holdings[&(alice(), "BTC".to_string())], 0.1 - 0.05);
    assert_eq!(&w.events[2..], &["ORDER_CREATED Sell", "ORDER_EXECUTED Sell"]);
}

#[test]
fn insufficient_balance_rejects_with_reason_and_422() {
    let mut w = seeded(65_000.0);
    let order = w.run(request(bob(), OrderSide::Buy, 1.0)).unwrap();
    assert_eq!(order.status, OrderStatus::Rejected);
    let reason = order.reject_reason.clone().unwrap();
    assert_eq!(reason, "Insufficient balance: required 65000.00, available 500.00");
    assert!(reason.contains("Insufficient balance"));
    assert_eq!(w.cash[&bob()], 500.0);
    assert!(w.holdings.is_empty());
    assert_eq!(w.events, vec!["ORDER_CREATED Buy", "ORDER_REJECTED Buy"]);
    assert_eq!(w.reasons, vec![reason.clone()]);
    assert_eq!(w.orders[&order.id], (OrderStatus::Rejected, Some(reason)));
    assert_eq!(w.reply, 422);
    assert!(!w.log.contains(&"deduct".to_string()));
}

#[test]
fn insufficient_holdings_rejects_sale() {
    let mut w = seeded(65_000.0);
    let order = w.run(request(bob(), OrderSide::Sell, 1.0)).unwrap();
    assert_eq!(order.status, OrderStatus::Rejected);
    assert_eq!(
        order.reject_reason.as_deref(),
        Some("Insufficient holdings: required 1.0000 BTC, available 0.0000")
    );
    assert_eq!(w.cash[&bob()], 500.0);
    assert!(!w.log.contains(&"upsert".to_string()));
    assert!(!w.log.contains(&"credit".to_string()));
    assert_eq!(w.reply, 200);
}

#[test]
fn market_failure_is_service_unavailable() {
    let mut w = World::new(Err(AppError::MarketServiceUnavailable("connection refused".into())));
    w.cash.insert(alice(), 100_000.0);
    let err = w.run(request(alice(), OrderSide::Buy, 1.0)).unwrap_err();
    assert!(matches!(err, AppError::MarketServiceUnavailable(_)));
    assert!(w.events.is_empty());
    assert_eq!(w.log, vec!["fetch"]);
    let (code, text) = PortfolioError::App(err).reply("", "");
    assert_eq!(code, 503);
    assert_eq!(text, "Market service unavailable: connection refused");
}

#[test]
fn non_positive_quantity_is_invalid() {
    for q in [0.0, -1.0] {
        let mut w = seeded(65_000.0);
        let err = w.run(request(alice(), OrderSide::Buy, q)).unwrap_err();
        match &err {
            AppError::InvalidRequest(m) => assert_eq!(m, "Quantity must be positive"),
            _ => panic!("unexpected error"),
        }
        assert!(w.log.is_empty());
        let (code, text) = PortfolioError::App(err).reply("", "");
        assert_eq!(code, 422);
        assert_eq!(text, "Invalid request: Quantity must be positive");
    }
}

#[test]
fn failure_to_begin_is_internal_error() {
    let mut w = seeded(65_000.0);
    w.fail_on = Some("begin");
    let err = w.run(request(alice(), OrderSide::Buy, 0.1)).unwrap_err();
    assert!(matches!(err, AppError::Database(_)));
    assert_eq!(w.events, vec!["ORDER_CREATED Buy"]);
    assert_eq!(w.cash[&alice()], 100_000.0);
    let (code, text) = PortfolioError::App(err).reply("", "");
    assert_eq!(code, 500);
    assert_eq!(text, "Internal server error");
}

#[test]
fn database_error_during_buy_rejects_with_its_message() {
    let mut w = seeded(65_000.0);
    w.fail_on = Some("upsert");
    let order = w.run(request(alice(), OrderSide::Buy, 0.1)).unwrap();
    assert_eq!(order.status, OrderStatus::Rejected);
    assert_eq!(order.reject_reason.as_deref(), Some("Database error: upsert failed"));
    assert_eq!(w.reply, 200);
    assert_eq!(w.events, vec!["ORDER_CREATED Buy", "ORDER_REJECTED Buy"]);
}

#[test]
fn unknown_user_buy_is_rejected_as_not_found() {
    let mut w = seeded(65_000.0);
    let stranger = Uuid::parse_str("c0000000-0000-0000-0000-000000000009").unwrap();
    let order = w.run(request(stranger, OrderSide::Buy, 0.1)).unwrap();
    assert_eq!(order.status, OrderStatus::Rejected);
    assert_eq!(
        order.reject_reason.as_deref(),
        Some("Not found: User c0000000-0000-0000-0000-000000000009 not found")
    );
    assert_eq!(w.reply, 200);
}

#[test]
fn failed_commit_returns_error_and_announces_nothing_more() {
    let mut w = seeded(65_000.0);
    w.fail_on = Some("commit");
    let err = w.run(request(alice(), OrderSide::Buy, 0.1)).unwrap_err();
    assert!(matches!(err, AppError::Database(_)));
    assert_eq!(w.events, vec!["ORDER_CREATED Buy"]);
    assert_eq!(w.cash[&alice()], 100_000.0);
    assert!(w.orders.is_empty());
}

#[test]
fn stray_event_leaves_execution_unchanged() {
    let exec: OrderExecution<f64, i64> = OrderExecution::start(request(alice(), OrderSide::Buy, 1.0), true);
    let exec = exec.advance(OrderEvent::Emitted);
    assert!(matches!(exec.action(), OrderAction::FetchPrice { .. }));
}

#[test]
fn quoted_order_takes_the_drawn_id() {
    let exec: OrderExecution<f64, i64> = OrderExecution::start(request(alice(), OrderSide::Buy, 1.0), true);
    let id = new_order_id();
    assert_ne!(id, new_order_id());
    let exec = exec.advance(OrderEvent::Quoted { price: 2.0, total_cost: 2.0, created_at: 1, order_id: id });
    match exec.action() {
        OrderAction::Emit(AuditEvent::OrderCreated(p)) => {
            assert_eq!(p.order_id, id);
            assert_eq!(p.user_id, alice());
        }
        _ => panic!("expected the creation event"),
    }
}
