//! Execution of a buy or sell order, as a state machine.
//!
//! The service asks the machine for its pending request (`action`), carries it out
//! (a price lookup, a statement in the order's database transaction, publishing an
//! audit event, rendering amounts as text) and hands the outcome back (`advance`).
//! The machine decides everything else: whether the order is valid, which
//! statements run and in which order, whether the order executes or is rejected
//! and why, what is committed, what is announced, and what the caller gets back.

use vstd::prelude::*;
use crate::models::{CreateOrderRequest, Order, OrderSide, OrderStatus, side_label_text};
use crate::errors::{AppError, app_error_has_amounts, app_error_message, amount_decimals};
use crate::events::{AuditEvent, OrderEventPayload, OrderRejectedPayload};

verus! {

/// Whether a holding grows or shrinks by a quantity.
pub enum HoldingChange<A> {
    Increase(A),
    Decrease(A),
}

/// The cash balance of a user, read under a row lock, and whether it covers the
/// cost of the order (the balance is not below the cost).
pub struct BalanceCheck<A> {
    pub available: A,
    pub covers_cost: bool,
}

/// The quantity of a symbol a user holds (zero where there is no holding), and
/// whether it covers the quantity of the order (it is not below it).
pub struct HoldingCheck<A> {
    pub available: A,
    pub covers_quantity: bool,
}

/// What the machine asks the service to do next.
pub enum OrderAction<A, T> {
    /// Look up the current price of the symbol.
    FetchPrice { symbol: String },
    /// Publish an audit event; publishing cannot fail.
    Emit(AuditEvent<A>),
    /// Open the database transaction of the order.
    BeginTransaction,
    /// Store the order.
    InsertOrder(Order<A, T>),
    /// Read the user's cash balance, locking the row.
    LockBalance { user_id: uuid::Uuid },
    /// Take an amount from the user's cash.
    DeductCash { user_id: uuid::Uuid, amount: A },
    /// Read the user's holding of a symbol, locking the row.
    ReadHolding { user_id: uuid::Uuid, symbol: String },
    /// Add to or take from a holding, creating it where missing, and set its cost.
    UpsertHolding { user_id: uuid::Uuid, symbol: String, change: HoldingChange<A>, avg_cost: A },
    /// Add an amount to the user's cash.
    AddCash { user_id: uuid::Uuid, amount: A },
    /// Render two amounts as text with the given number of decimals.
    RenderAmounts { required: A, available: A, decimals: u8 },
    /// Set the order's status and rejection reason.
    UpdateStatus { order_id: uuid::Uuid, status: OrderStatus, reject_reason: Option<String> },
    /// Commit the transaction.
    Commit,
    /// Nothing is left to do: the outcome is ready.
    Finish,
}

/// What the service reports back.
pub enum OrderEvent<A, T> {
    /// The price was found. `total_cost` is the quantity times the price; the
    /// proceeds of a sale are the same product. `created_at` is the current time
    /// and `order_id` the identifier drawn for the new order (`new_order_id`).
    Quoted { price: A, total_cost: A, created_at: T, order_id: uuid::Uuid },
    /// The price lookup failed.
    QuoteFailed(AppError<A>),
    /// The audit event was handed to the publisher.
    Emitted,
    /// A statement or the commit finished.
    Done(Result<(), AppError<A>>),
    /// The balance was read.
    BalanceLocked(Result<BalanceCheck<A>, AppError<A>>),
    /// The holding was read.
    HoldingRead(Result<HoldingCheck<A>, AppError<A>>),
    /// The amounts were rendered.
    AmountsRendered { required: String, available: String },
}

/// Where an execution stands. `rejection` is `None` for an order that executes and
/// the reason of the rejection otherwise.
pub enum OrderPhase<A, T> {
    AwaitingQuote,
    AnnouncingCreation { order: Order<A, T>, total_cost: A },
    Beginning { order: Order<A, T>, total_cost: A },
    Inserting { order: Order<A, T>, total_cost: A },
    LockingBalance { order: Order<A, T>, total_cost: A },
    Deducting { order: Order<A, T>, total_cost: A },
    AddingHolding { order: Order<A, T> },
    ReadingHolding { order: Order<A, T>, total_cost: A },
    RemovingHolding { order: Order<A, T>, total_cost: A },
    Crediting { order: Order<A, T>, total_cost: A },
    RenderingReason { order: Order<A, T>, error: AppError<A>, required: A, available: A },
    Recording { order: Order<A, T>, rejection: Option<String> },
    Committing { order: Order<A, T>, rejection: Option<String> },
    Announcing { order: Order<A, T>, rejection: Option<String> },
    Finished(Result<Order<A, T>, AppError<A>>),
}

/// One order's execution: the request and where it stands.
pub struct OrderExecution<A, T> {
    pub request: CreateOrderRequest<A>,
    pub phase: OrderPhase<A, T>,
    /// Whether the order was rejected because the user's cash did not cover it.
    pub short_of_cash: bool,
}

// ---------------------------------------------------------------------------
// Specification
// ---------------------------------------------------------------------------

/// The order created for a request once its price is known: pending, with no
/// rejection reason.
pub open spec fn pending_order<A, T>(req: CreateOrderRequest<A>, id: uuid::Uuid, price: A, created_at: T) -> Order<A, T> {
    Order {
        id,
        user_id: req.user_id,
        symbol: req.symbol,
        side: req.side,
        quantity: req.quantity,
        price,
        status: OrderStatus::Pending,
        reject_reason: None,
        created_at,
    }
}

/// The order as returned at the end: executed, or rejected with its reason.
pub open spec fn settled_order<A, T>(order: Order<A, T>, rejection: Option<String>) -> Order<A, T> {
    match rejection {
        None => Order { status: OrderStatus::Executed, ..order },
        Some(r) => Order { status: OrderStatus::Rejected, reject_reason: Some(r), ..order },
    }
}

/// The amount an error says was required (meaningful for the two `Insufficient` errors).
pub open spec fn error_required<A>(e: AppError<A>) -> A {
    match e {
        AppError::InsufficientBalance { required, .. } => required,
        AppError::InsufficientHoldings { required, .. } => required,
        _ => arbitrary(),
    }
}

/// The amount an error says was available (meaningful for the two `Insufficient` errors).
pub open spec fn error_available<A>(e: AppError<A>) -> A {
    match e {
        AppError::InsufficientBalance { available, .. } => available,
        AppError::InsufficientHoldings { available, .. } => available,
        _ => arbitrary(),
    }
}

/// Where a failed buy or sell goes: an error that shows amounts waits for their
/// rendering; any other is recorded at once with its message as the reason.
pub open spec fn rejects_to<A, T>(order: Order<A, T>, e: AppError<A>, p: OrderPhase<A, T>) -> bool {
    if app_error_has_amounts(e) {
        p == OrderPhase::RenderingReason {
            order,
            error: e,
            required: error_required(e),
            available: error_available(e),
        }
    } else {
        p matches OrderPhase::Recording { order: o, rejection: Some(r) }
            && o == order && r@ == app_error_message(e, Seq::empty(), Seq::empty())
    }
}

/// The audit payload of an order.
pub open spec fn describes_order<A, T>(p: OrderEventPayload<A>, order: Order<A, T>) -> bool {
    &&& p.order_id == order.id
    &&& p.user_id == order.user_id
    &&& p.symbol == order.symbol
    &&& p.side@ == side_label_text(order.side)
    &&& p.quantity == order.quantity
    &&& p.price == order.price
}

/// The audit payload of a rejected order.
pub open spec fn describes_rejection<A, T>(p: OrderRejectedPayload<A>, order: Order<A, T>, reason: String) -> bool {
    &&& p.order_id == order.id
    &&& p.user_id == order.user_id
    &&& p.symbol == order.symbol
    &&& p.side@ == side_label_text(order.side)
    &&& p.quantity == order.quantity
    &&& p.reason == reason
}

/// The message of the error for an order whose quantity is not positive.
pub open spec fn invalid_quantity_text() -> Seq<char> {
    "Quantity must be positive"@
}

/// An order that still carries what was asked: same user, symbol, side and quantity.
pub open spec fn follows_request<A, T>(order: Order<A, T>, req: CreateOrderRequest<A>) -> bool {
    &&& order.user_id == req.user_id
    &&& order.symbol == req.symbol
    &&& order.side == req.side
    &&& order.quantity == req.quantity
}

/// An order not yet settled: pending, with no rejection reason.
pub open spec fn is_pending<A, T>(order: Order<A, T>) -> bool {
    order.status == OrderStatus::Pending && order.reject_reason is None
}

/// A settled order: executed with no reason, or rejected with one.
pub open spec fn is_settled<A, T>(order: Order<A, T>) -> bool {
    ||| order.status == OrderStatus::Executed && order.reject_reason is None
    ||| order.status == OrderStatus::Rejected && order.reject_reason is Some
}

impl<A, T> OrderExecution<A, T> {
    /// What holds of every state an execution goes through: its order carries the
    /// request and stays pending until it is settled, the buy steps belong to buy
    /// orders and the sell steps to sell orders, a reason waiting for its amounts
    /// comes from an error that shows them, and a finished order is settled. An
    /// execution is short of cash exactly when its rejection is for insufficient
    /// balance: from then on it only settles that rejection.
    pub open spec fn wf(self) -> bool {
        &&& self.phase_wf()
        &&& (self.short_of_cash ==> match self.phase {
            OrderPhase::RenderingReason { error, .. } => error is InsufficientBalance,
            OrderPhase::Recording { rejection, .. } => rejection is Some,
            OrderPhase::Committing { rejection, .. } => rejection is Some,
            OrderPhase::Announcing { rejection, .. } => rejection is Some,
            OrderPhase::Finished(r) => r is Ok ==> r->Ok_0.status == OrderStatus::Rejected,
            _ => false,
        })
        &&& (!self.short_of_cash ==> !(self.phase matches OrderPhase::RenderingReason { error, .. }
            && error is InsufficientBalance))
    }

    /// The part of `wf` about the phase alone.
    pub open spec fn phase_wf(self) -> bool {
        let req = self.request;
        match self.phase {
            OrderPhase::AwaitingQuote => true,
            OrderPhase::AnnouncingCreation { order, .. } => follows_request(order, req) && is_pending(order),
            OrderPhase::Beginning { order, .. } => follows_request(order, req) && is_pending(order),
            OrderPhase::Inserting { order, .. } => follows_request(order, req) && is_pending(order),
            OrderPhase::LockingBalance { order, .. } =>
                follows_request(order, req) && is_pending(order) && order.side == OrderSide::Buy,
            OrderPhase::Deducting { order, .. } =>
                follows_request(order, req) && is_pending(order) && order.side == OrderSide::Buy,
            OrderPhase::AddingHolding { order } =>
                follows_request(order, req) && is_pending(order) && order.side == OrderSide::Buy,
            OrderPhase::ReadingHolding { order, .. } =>
                follows_request(order, req) && is_pending(order) && order.side == OrderSide::Sell,
            OrderPhase::RemovingHolding { order, .. } =>
                follows_request(order, req) && is_pending(order) && order.side == OrderSide::Sell,
            OrderPhase::Crediting { order, .. } =>
                follows_request(order, req) && is_pending(order) && order.side == OrderSide::Sell,
            OrderPhase::RenderingReason { order, error, required, available } => {
                &&& follows_request(order, req)
                &&& is_pending(order)
                &&& app_error_has_amounts(error)
                &&& required == error_required(error)
                &&& available == error_available(error)
            },
            OrderPhase::Recording { order, .. } => follows_request(order, req) && is_pending(order),
            OrderPhase::Committing { order, .. } => follows_request(order, req) && is_pending(order),
            OrderPhase::Announcing { order, .. } => follows_request(order, req) && is_pending(order),
            OrderPhase::Finished(r) => match r {
                Ok(order) => follows_request(order, req) && is_settled(order),
                Err(_) => true,
            },
        }
    }

    /// The HTTP status with which a placed order that came back is answered:
    /// 422 (unprocessable) where it was rejected for insufficient balance, 200
    /// otherwise.
    pub open spec fn reply_code(self) -> u16 {
        if self.short_of_cash { 422 } else { 200 }
    }

    /// The request that the execution asks for in its phase.
    pub open spec fn requests(self, a: OrderAction<A, T>) -> bool {
        match self.phase {
            OrderPhase::AwaitingQuote => a == OrderAction::<A, T>::FetchPrice { symbol: self.request.symbol },
            OrderPhase::AnnouncingCreation { order, .. } =>
                a matches OrderAction::Emit(AuditEvent::OrderCreated(p)) && describes_order(p, order),
            OrderPhase::Beginning { .. } => a is BeginTransaction,
            OrderPhase::Inserting { order, .. } => a == OrderAction::InsertOrder(order),
            OrderPhase::LockingBalance { order, .. } =>
                a == OrderAction::<A, T>::LockBalance { user_id: order.user_id },
            OrderPhase::Deducting { order, total_cost } =>
                a == OrderAction::<A, T>::DeductCash { user_id: order.user_id, amount: total_cost },
            OrderPhase::AddingHolding { order } =>
                a == OrderAction::<A, T>::UpsertHolding {
                    user_id: order.user_id,
                    symbol: order.symbol,
                    change: HoldingChange::Increase(order.quantity),
                    avg_cost: order.price,
                },
            OrderPhase::ReadingHolding { order, .. } =>
                a == OrderAction::<A, T>::ReadHolding { user_id: order.user_id, symbol: order.symbol },
            OrderPhase::RemovingHolding { order, .. } =>
                a == OrderAction::<A, T>::UpsertHolding {
                    user_id: order.user_id,
                    symbol: order.symbol,
                    change: HoldingChange::Decrease(order.quantity),
                    avg_cost: order.price,
                },
            OrderPhase::Crediting { order, total_cost } =>
                a == OrderAction::<A, T>::AddCash { user_id: order.user_id, amount: total_cost },
            OrderPhase::RenderingReason { error, required, available, .. } =>
                a == OrderAction::<A, T>::RenderAmounts { required, available, decimals: amount_decimals(error) },
            OrderPhase::Recording { order, rejection } =>
                a == OrderAction::<A, T>::UpdateStatus {
                    order_id: order.id,
                    status: if rejection is Some { OrderStatus::Rejected } else { OrderStatus::Executed },
                    reject_reason: rejection,
                },
            OrderPhase::Committing { .. } => a is Commit,
            OrderPhase::Announcing { order, rejection } => match rejection {
                None => a matches OrderAction::Emit(AuditEvent::OrderExecuted(p)) && describes_order(p, order),
                Some(r) => a matches OrderAction::Emit(AuditEvent::OrderRejected(p)) && describes_rejection(p, order, r),
            },
            OrderPhase::Finished(_) => a is Finish,
        }
    }

    /// How an event moves an execution. An event that answers no pending request
    /// leaves it where it was.
    pub open spec fn transition(self, event: OrderEvent<A, T>, res: Self) -> bool {
        &&& res.request == self.request
        &&& res.short_of_cash == (self.short_of_cash || (res.phase matches OrderPhase::RenderingReason { error, .. }
            && error is InsufficientBalance))
        &&& match (self.phase, event) {
            (OrderPhase::AwaitingQuote, OrderEvent::Quoted { price, total_cost, created_at, order_id }) =>
                res.phase == OrderPhase::AnnouncingCreation {
                    order: pending_order(self.request, order_id, price, created_at),
                    total_cost,
                },
            (OrderPhase::AwaitingQuote, OrderEvent::QuoteFailed(e)) =>
                res.phase == OrderPhase::<A, T>::Finished(Err(e)),
            (OrderPhase::AnnouncingCreation { order, total_cost }, OrderEvent::Emitted) =>
                res.phase == OrderPhase::Beginning { order, total_cost },
            (OrderPhase::Beginning { order, total_cost }, OrderEvent::Done(r)) => match r {
                Ok(_) => res.phase == OrderPhase::Inserting { order, total_cost },
                Err(e) => res.phase == OrderPhase::<A, T>::Finished(Err(e)),
            },
            (OrderPhase::Inserting { order, total_cost }, OrderEvent::Done(r)) => match r {
                Ok(_) => match order.side {
                    OrderSide::Buy => res.phase == OrderPhase::LockingBalance { order, total_cost },
                    OrderSide::Sell => res.phase == OrderPhase::ReadingHolding { order, total_cost },
                },
                Err(e) => res.phase == OrderPhase::<A, T>::Finished(Err(e)),
            },
            (OrderPhase::LockingBalance { order, total_cost }, OrderEvent::BalanceLocked(r)) => match r {
                Ok(c) => if c.covers_cost {
                    res.phase == OrderPhase::Deducting { order, total_cost }
                } else {
                    rejects_to(order, AppError::InsufficientBalance { required: total_cost, available: c.available }, res.phase)
                },
                Err(e) => rejects_to(order, e, res.phase),
            },
            (OrderPhase::Deducting { order, .. }, OrderEvent::Done(r)) => match r {
                Ok(_) => res.phase == OrderPhase::AddingHolding { order },
                Err(e) => rejects_to(order, e, res.phase),
            },
            (OrderPhase::AddingHolding { order }, OrderEvent::Done(r)) => match r {
                Ok(_) => res.phase == OrderPhase::<A, T>::Recording { order, rejection: None },
                Err(e) => rejects_to(order, e, res.phase),
            },
            (OrderPhase::ReadingHolding { order, total_cost }, OrderEvent::HoldingRead(r)) => match r {
                Ok(c) => if c.covers_quantity {
                    res.phase == OrderPhase::RemovingHolding { order, total_cost }
                } else {
                    rejects_to(
                        order,
                        AppError::InsufficientHoldings { symbol: order.symbol, required: order.quantity, available: c.available },
                        res.phase,
                    )
                },
                Err(e) => rejects_to(order, e, res.phase),
            },
            (OrderPhase::RemovingHolding { order, total_cost }, OrderEvent::Done(r)) => match r {
                Ok(_) => res.phase == OrderPhase::Crediting { order, total_cost },
                Err(e) => rejects_to(order, e, res.phase),
            },
            (OrderPhase::Crediting { order, .. }, OrderEvent::Done(r)) => match r {
                Ok(_) => res.phase == OrderPhase::<A, T>::Recording { order, rejection: None },
                Err(e) => rejects_to(order, e, res.phase),
            },
            (OrderPhase::RenderingReason { order, error, .. }, OrderEvent::AmountsRendered { required, available }) =>
                res.phase matches OrderPhase::Recording { order: o, rejection: Some(r) }
                    && o == order && r@ == app_error_message(error, required@, available@),
            (OrderPhase::Recording { order, rejection }, OrderEvent::Done(r)) => match r {
                Ok(_) => res.phase == OrderPhase::Committing { order, rejection },
                Err(e) => res.phase == OrderPhase::<A, T>::Finished(Err(e)),
            },
            (OrderPhase::Committing { order, rejection }, OrderEvent::Done(r)) => match r {
                Ok(_) => res.phase == OrderPhase::Announcing { order, rejection },
                Err(e) => res.phase == OrderPhase::<A, T>::Finished(Err(e)),
            },
            (OrderPhase::Announcing { order, rejection }, OrderEvent::Emitted) =>
                res.phase == OrderPhase::<A, T>::Finished(Ok(settled_order(order, rejection))),
            _ => res.phase == self.phase,
        }
    }
}

// ---------------------------------------------------------------------------
// Implementation
// ---------------------------------------------------------------------------

/// The phase a failed buy or sell moves to.
fn reject<A: Copy, T: Copy>(order: Order<A, T>, e: AppError<A>) -> (p: OrderPhase<A, T>)
    ensures
        rejects_to(order, e, p),
{
    match e {
        AppError::InsufficientBalance { required, available } => OrderPhase::RenderingReason {
            order,
            error: AppError::InsufficientBalance { required, available },
            required,
            available,
        },
        AppError::InsufficientHoldings { symbol, required, available } => OrderPhase::RenderingReason {
            order,
            error: AppError::InsufficientHoldings { symbol, required, available },
            required,
            available,
        },
        other => {
            let reason = other.message("", "");
            proof {
                assert(""@ =~= Seq::<char>::empty()) by { reveal_strlit(""); }
            }
            OrderPhase::Recording { order, rejection: Some(reason) }
        },
    }
}

/// The audit payload of an order.
fn order_payload<A: Copy, T: Copy>(order: &Order<A, T>) -> (p: OrderEventPayload<A>)
    ensures
        describes_order(p, *order),
{
    OrderEventPayload {
        order_id: order.id,
        user_id: order.user_id,
        symbol: order.symbol.clone(),
        side: order.side.label(),
        quantity: order.quantity,
        price: order.price,
    }
}

/// Draws the identifier of a new order: a random version-4 UUID, handed to the
/// execution with the quote.
pub fn new_order_id() -> (id: uuid::Uuid) {
    crate::outside::fresh_uuid()
}

impl<A: Copy, T: Copy> OrderExecution<A, T> {
    /// Starts executing a request. `quantity_positive` says whether the quantity
    /// passed the check that it is not zero or below; an order that failed it is
    /// refused at once with an invalid-request error, before any price is looked up.
    pub fn start(request: CreateOrderRequest<A>, quantity_positive: bool) -> (res: Self)
        ensures
            res.request == request,
            !res.short_of_cash,
            res.wf(),
            quantity_positive ==> res.phase is AwaitingQuote,
            !quantity_positive ==> (res.phase matches OrderPhase::Finished(Err(AppError::InvalidRequest(m)))
                && m@ == invalid_quantity_text()),
    {
        if quantity_positive {
            OrderExecution { request, phase: OrderPhase::AwaitingQuote, short_of_cash: false }
        } else {
            OrderExecution {
                request,
                phase: OrderPhase::Finished(Err(AppError::InvalidRequest(String::from_str("Quantity must be positive")))),
                short_of_cash: false,
            }
        }
    }

    /// The pending request.
    pub fn action(&self) -> (a: OrderAction<A, T>)
        ensures
            self.requests(a),
    {
        match &self.phase {
            OrderPhase::AwaitingQuote => OrderAction::FetchPrice { symbol: self.request.symbol.clone() },
            OrderPhase::AnnouncingCreation { order, .. } =>
                OrderAction::Emit(AuditEvent::OrderCreated(order_payload(order))),
            OrderPhase::Beginning { .. } => OrderAction::BeginTransaction,
            OrderPhase::Inserting { order, .. } => OrderAction::InsertOrder(order.duplicate()),
            OrderPhase::LockingBalance { order, .. } => OrderAction::LockBalance { user_id: order.user_id },
            OrderPhase::Deducting { order, total_cost } =>
                OrderAction::DeductCash { user_id: order.user_id, amount: *total_cost },
            OrderPhase::AddingHolding { order } => OrderAction::UpsertHolding {
                user_id: order.user_id,
                symbol: order.symbol.clone(),
                change: HoldingChange::Increase(order.quantity),
                avg_cost: order.price,
            },
            OrderPhase::ReadingHolding { order, .. } =>
                OrderAction::ReadHolding { user_id: order.user_id, symbol: order.symbol.clone() },
            OrderPhase::RemovingHolding { order, .. } => OrderAction::UpsertHolding {
                user_id: order.user_id,
                symbol: order.symbol.clone(),
                change: HoldingChange::Decrease(order.quantity),
                avg_cost: order.price,
            },
            OrderPhase::Crediting { order, total_cost } =>
                OrderAction::AddCash { user_id: order.user_id, amount: *total_cost },
            OrderPhase::RenderingReason { error, required, available, .. } =>
                OrderAction::RenderAmounts { required: *required, available: *available, decimals: error.decimals() },
            OrderPhase::Recording { order, rejection } => OrderAction::UpdateStatus {
                order_id: order.id,
                status: if rejection.is_some() { OrderStatus::Rejected } else { OrderStatus::Executed },
                reject_reason: crate::text::copy_opt_string(rejection),
            },
            OrderPhase::Committing { .. } => OrderAction::Commit,
            OrderPhase::Announcing { order, rejection } => match rejection {
                None => OrderAction::Emit(AuditEvent::OrderExecuted(order_payload(order))),
                Some(r) => OrderAction::Emit(AuditEvent::OrderRejected(OrderRejectedPayload {
                    order_id: order.id,
                    user_id: order.user_id,
                    symbol: order.symbol.clone(),
                    side: order.side.label(),
                    quantity: order.quantity,
                    reason: r.clone(),
                })),
            },
            OrderPhase::Finished(_) => OrderAction::Finish,
        }
    }

    /// Moves the execution by what the service reports.
    pub fn advance(self, event: OrderEvent<A, T>) -> (res: Self)
        ensures
            self.transition(event, res),
    {
        let request = self.request;
        let was_short = self.short_of_cash;
        let phase = match (self.phase, event) {
            (OrderPhase::AwaitingQuote, OrderEvent::Quoted { price, total_cost, created_at, order_id }) => {
                let order = Order {
                    id: order_id,
                    user_id: request.user_id,
                    symbol: request.symbol.clone(),
                    side: request.side,
                    quantity: request.quantity,
                    price,
                    status: OrderStatus::Pending,
                    reject_reason: None,
                    created_at,
                };
                OrderPhase::AnnouncingCreation { order, total_cost }
            },
            (OrderPhase::AwaitingQuote, OrderEvent::QuoteFailed(e)) => OrderPhase::Finished(Err(e)),
            (OrderPhase::AnnouncingCreation { order, total_cost }, OrderEvent::Emitted) =>
                OrderPhase::Beginning { order, total_cost },
            (OrderPhase::Beginning { order, total_cost }, OrderEvent::Done(r)) => match r {
                Ok(_) => OrderPhase::Inserting { order, total_cost },
                Err(e) => OrderPhase::Finished(Err(e)),
            },
            (OrderPhase::Inserting { order, total_cost }, OrderEvent::Done(r)) => match r {
                Ok(_) => match order.side {
                    OrderSide::Buy => OrderPhase::LockingBalance { order, total_cost },
                    OrderSide::Sell => OrderPhase::ReadingHolding { order, total_cost },
                },
                Err(e) => OrderPhase::Finished(Err(e)),
            },
            (OrderPhase::LockingBalance { order, total_cost }, OrderEvent::BalanceLocked(r)) => match r {
                Ok(c) => if c.covers_cost {
                    OrderPhase::Deducting { order, total_cost }
                } else {
                    reject(order, AppError::InsufficientBalance { required: total_cost, available: c.available })
                },
                Err(e) => reject(order, e),
            },
            (OrderPhase::Deducting { order, .. }, OrderEvent::Done(r)) => match r {
                Ok(_) => OrderPhase::AddingHolding { order },
                Err(e) => reject(order, e),
            },
            (OrderPhase::AddingHolding { order }, OrderEvent::Done(r)) => match r {
                Ok(_) => OrderPhase::Recording { order, rejection: None },
                Err(e) => reject(order, e),
            },
            (OrderPhase::ReadingHolding { order, total_cost }, OrderEvent::HoldingRead(r)) => match r {
                Ok(c) => if c.covers_quantity {
                    OrderPhase::RemovingHolding { order, total_cost }
                } else {
                    let symbol = order.symbol.clone();
                    let required = order.quantity;
                    reject(order, AppError::InsufficientHoldings { symbol, required, available: c.available })
                },
                Err(e) => reject(order, e),
            },
            (OrderPhase::RemovingHolding { order, total_cost }, OrderEvent::Done(r)) => match r {
                Ok(_) => OrderPhase::Crediting { order, total_cost },
                Err(e) => reject(order, e),
            },
            (OrderPhase::Crediting { order, .. }, OrderEvent::Done(r)) => match r {
                Ok(_) => OrderPhase::Recording { order, rejection: None },
                Err(e) => reject(order, e),
            },
            (OrderPhase::RenderingReason { order, error, .. }, OrderEvent::AmountsRendered { required, available }) => {
                let reason = error.message(required.as_str(), available.as_str());
                OrderPhase::Recording { order, rejection: Some(reason) }
            },
            (OrderPhase::Recording { order, rejection }, OrderEvent::Done(r)) => match r {
                Ok(_) => OrderPhase::Committing { order, rejection },
                Err(e) => OrderPhase::Finished(Err(e)),
            },
            (OrderPhase::Committing { order, rejection }, OrderEvent::Done(r)) => match r {
                Ok(_) => OrderPhase::Announcing { order, rejection },
                Err(e) => OrderPhase::Finished(Err(e)),
            },
            (OrderPhase::Announcing { order, rejection }, OrderEvent::Emitted) => match rejection {
                None => OrderPhase::Finished(Ok(Order { status: OrderStatus::Executed, ..order })),
                Some(r) => OrderPhase::Finished(Ok(Order {
                    status: OrderStatus::Rejected,
                    reject_reason: Some(r),
                    ..order
                })),
            },
            (phase, _) => phase,
        };
        let short_of_cash = was_short || matches!(
            phase,
            OrderPhase::RenderingReason { error: AppError::InsufficientBalance { .. }, .. }
        );
        OrderExecution { request, phase, short_of_cash }
    }

    /// The HTTP status with which the order is answered, once it came back.
    pub fn reply_status(&self) -> (res: u16)
        ensures
            res == self.reply_code(),
    {
        if self.short_of_cash { 422 } else { 200 }
    }

    /// The outcome of a finished execution: the order as it ended, or the error
    /// that stopped it. `None` while it is still running.
    pub fn into_outcome(self) -> (res: Option<Result<Order<A, T>, AppError<A>>>)
        ensures
            self.phase matches OrderPhase::Finished(r) ==> res == Some(r),
            !(self.phase is Finished) ==> res is None,
    {
        match self.phase {
            OrderPhase::Finished(r) => Some(r),
            _ => None,
        }
    }
}

} // verus!
