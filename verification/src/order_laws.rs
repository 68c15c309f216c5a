//! What holds of every order execution, proved from the machine's transition relation.

use vstd::prelude::*;
use crate::models::{Order, OrderSide, OrderStatus};
use crate::errors::{AppError, app_error_message};
use crate::events::AuditEvent;
use crate::order::{
    BalanceCheck, HoldingChange, HoldingCheck, OrderAction, OrderEvent, OrderExecution, OrderPhase, follows_request, is_settled,
    rejects_to, settled_order,
};

verus! {

/// Every step keeps the execution well formed: the order keeps the user, symbol,
/// side and quantity of the request, stays pending until it is settled, and a
/// finished order is executed without a reason or rejected with one.
pub proof fn lemma_step_keeps_wf<A, T>(s: OrderExecution<A, T>, e: OrderEvent<A, T>, r: OrderExecution<A, T>)
    requires
        s.wf(),
        s.transition(e, r),
    ensures
        r.wf(),
{
}

/// The order an execution ends with carries what was asked and is settled.
pub proof fn lemma_outcome_follows_request<A, T>(s: OrderExecution<A, T>)
    requires
        s.wf(),
        s.phase is Finished,
        s.phase->Finished_0 is Ok,
    ensures
        follows_request(s.phase->Finished_0->Ok_0, s.request),
        is_settled(s.phase->Finished_0->Ok_0),
{
}

/// Cash is taken only from a balance read under lock that covers the order's cost,
/// and exactly that cost is taken.
pub proof fn lemma_debit_needs_cover<A, T>(s: OrderExecution<A, T>, e: OrderEvent<A, T>, r: OrderExecution<A, T>)
    requires
        s.transition(e, r),
        r.phase is Deducting,
        !(s.phase is Deducting),
    ensures
        s.phase is LockingBalance,
        e matches OrderEvent::BalanceLocked(Ok(c)) && c.covers_cost,
        r.phase->Deducting_total_cost == s.phase->LockingBalance_total_cost,
        r.phase->Deducting_order == s.phase->LockingBalance_order,
{
}

/// A holding is reduced only when the holding read under lock covers the quantity.
pub proof fn lemma_sale_needs_holding<A, T>(s: OrderExecution<A, T>, e: OrderEvent<A, T>, r: OrderExecution<A, T>)
    requires
        s.transition(e, r),
        r.phase is RemovingHolding,
        !(s.phase is RemovingHolding),
    ensures
        s.phase is ReadingHolding,
        e matches OrderEvent::HoldingRead(Ok(c)) && c.covers_quantity,
{
}

/// A buy whose balance does not cover its cost is rejected for insufficient
/// balance, naming the cost and the balance, and no cash moves.
pub proof fn lemma_uncovered_buy_rejected<A, T>(s: OrderExecution<A, T>, e: OrderEvent<A, T>, r: OrderExecution<A, T>)
    requires
        s.transition(e, r),
        s.phase is LockingBalance,
        e matches OrderEvent::BalanceLocked(Ok(c)) && !c.covers_cost,
    ensures
        rejects_to(
            s.phase->LockingBalance_order,
            AppError::InsufficientBalance {
                required: s.phase->LockingBalance_total_cost,
                available: e->BalanceLocked_0->Ok_0.available,
            },
            r.phase,
        ),
        r.phase is RenderingReason,
        r.short_of_cash,
        r.reply_code() == 422,
{
}

/// A sale of more than is held is rejected for insufficient holdings, naming the
/// symbol, the quantity and the holding, and nothing moves.
pub proof fn lemma_uncovered_sale_rejected<A, T>(s: OrderExecution<A, T>, e: OrderEvent<A, T>, r: OrderExecution<A, T>)
    requires
        s.transition(e, r),
        s.phase is ReadingHolding,
        e matches OrderEvent::HoldingRead(Ok(c)) && !c.covers_quantity,
    ensures
        rejects_to(
            s.phase->ReadingHolding_order,
            AppError::InsufficientHoldings {
                symbol: s.phase->ReadingHolding_order.symbol,
                required: s.phase->ReadingHolding_order.quantity,
                available: e->HoldingRead_0->Ok_0.available,
            },
            r.phase,
        ),
        r.phase is RenderingReason,
        r.short_of_cash == s.short_of_cash,
{
}

/// The transaction is opened only after the creation of the order was announced.
pub proof fn lemma_creation_announced_first<A, T>(s: OrderExecution<A, T>, e: OrderEvent<A, T>, r: OrderExecution<A, T>)
    requires
        s.transition(e, r),
        r.phase is Beginning,
        !(s.phase is Beginning),
    ensures
        s.phase is AnnouncingCreation,
        e is Emitted,
{
}

/// The transaction is committed only after the order's final status was written.
pub proof fn lemma_commit_after_status<A, T>(s: OrderExecution<A, T>, e: OrderEvent<A, T>, r: OrderExecution<A, T>)
    requires
        s.transition(e, r),
        r.phase is Committing,
        !(s.phase is Committing),
    ensures
        s.phase is Recording,
        e matches OrderEvent::Done(res) && res is Ok,
        r.phase->Committing_order == s.phase->Recording_order,
        r.phase->Committing_rejection == s.phase->Recording_rejection,
{
}

/// The outcome is announced only once the transaction committed.
pub proof fn lemma_announce_after_commit<A, T>(s: OrderExecution<A, T>, e: OrderEvent<A, T>, r: OrderExecution<A, T>)
    requires
        s.transition(e, r),
        r.phase is Announcing,
        !(s.phase is Announcing),
    ensures
        s.phase is Committing,
        e matches OrderEvent::Done(res) && res is Ok,
        r.phase->Announcing_order == s.phase->Committing_order,
        r.phase->Announcing_rejection == s.phase->Committing_rejection,
{
}

/// A rejection reason is the same string wherever it goes: in the status update,
/// in the announced event, and in the order handed back.
pub proof fn lemma_reason_consistent<A, T>(
    s: OrderExecution<A, T>,
    a: OrderAction<A, T>,
    r: OrderExecution<A, T>,
)
    requires
        s.wf(),
        s.requests(a),
    ensures
        s.phase matches OrderPhase::Recording { rejection, .. } ==>
            a matches OrderAction::UpdateStatus { reject_reason, status, .. }
                && reject_reason == rejection
                && (status == OrderStatus::Rejected <==> rejection is Some),
        s.phase matches OrderPhase::Announcing { rejection: Some(reason), .. } ==>
            a matches OrderAction::Emit(AuditEvent::OrderRejected(p)) && p.reason == reason,
        s.phase matches OrderPhase::Announcing { order, rejection } ==>
            (s.transition(OrderEvent::Emitted, r) ==>
                r.phase == OrderPhase::<A, T>::Finished(Ok(settled_order(order, rejection)))
                && settled_order(order, rejection).reject_reason == rejection),
{
}

/// A failed price lookup ends the execution with that error: no order is stored
/// and no event is announced.
pub proof fn lemma_quote_failure_stops<A, T>(s: OrderExecution<A, T>, err: AppError<A>, r: OrderExecution<A, T>)
    requires
        s.phase is AwaitingQuote,
        s.transition(OrderEvent::QuoteFailed(err), r),
    ensures
        r.phase == OrderPhase::<A, T>::Finished(Err(err)),
{
}

/// A finished execution no longer moves.
pub proof fn lemma_finished_is_final<A, T>(s: OrderExecution<A, T>, e: OrderEvent<A, T>, r: OrderExecution<A, T>)
    requires
        s.phase is Finished,
        s.transition(e, r),
    ensures
        r == s,
{
}

/// Buy orders debit cash and never touch the sell steps; sell orders the other way round.
pub proof fn lemma_side_decides_path<A, T>(s: OrderExecution<A, T>, e: OrderEvent<A, T>, r: OrderExecution<A, T>)
    requires
        s.wf(),
        s.transition(e, r),
    ensures
        (r.phase is LockingBalance || r.phase is Deducting || r.phase is AddingHolding) ==>
            s.request.side == OrderSide::Buy,
        (r.phase is ReadingHolding || r.phase is RemovingHolding || r.phase is Crediting) ==>
            s.request.side == OrderSide::Sell,
{
    lemma_step_keeps_wf(s, e, r);
}

/// Once an order's fate is decided (its reason is being rendered, its status
/// written, the transaction committed or the outcome announced), no step moves
/// cash or holdings any more.
pub proof fn lemma_decided_order_moves_nothing<A, T>(s: OrderExecution<A, T>, e: OrderEvent<A, T>, r: OrderExecution<A, T>)
    requires
        s.transition(e, r),
        s.phase is RenderingReason || s.phase is Recording || s.phase is Committing || s.phase is Announcing
            || s.phase is Finished,
    ensures
        !(r.phase is Deducting),
        !(r.phase is AddingHolding),
        !(r.phase is RemovingHolding),
        !(r.phase is Crediting),
        !(r.phase is LockingBalance),
        !(r.phase is ReadingHolding),
{
}

/// A buy whose balance covers its cost, with every statement succeeding, runs the
/// whole protocol and ends executed, at the quoted price, with no reason.
pub proof fn lemma_covered_buy_executes<A, T>(
    s0: OrderExecution<A, T>, s1: OrderExecution<A, T>, s2: OrderExecution<A, T>,
    s3: OrderExecution<A, T>, s4: OrderExecution<A, T>, s5: OrderExecution<A, T>,
    s6: OrderExecution<A, T>, s7: OrderExecution<A, T>, s8: OrderExecution<A, T>,
    s9: OrderExecution<A, T>, s10: OrderExecution<A, T>,
    price: A, total_cost: A, created_at: T, order_id: uuid::Uuid, balance: A,
)
    requires
        s0.phase is AwaitingQuote,
        !s0.short_of_cash,
        s0.request.side == OrderSide::Buy,
        s0.transition(OrderEvent::Quoted { price, total_cost, created_at, order_id }, s1),
        s1.transition(OrderEvent::Emitted, s2),
        s2.transition(OrderEvent::Done(Ok(())), s3),
        s3.transition(OrderEvent::Done(Ok(())), s4),
        s4.transition(OrderEvent::BalanceLocked(Ok(BalanceCheck { available: balance, covers_cost: true })), s5),
        s5.transition(OrderEvent::Done(Ok(())), s6),
        s6.transition(OrderEvent::Done(Ok(())), s7),
        s7.transition(OrderEvent::Done(Ok(())), s8),
        s8.transition(OrderEvent::Done(Ok(())), s9),
        s9.transition(OrderEvent::Emitted, s10),
    ensures
        s4.phase is LockingBalance,
        s5.phase == (OrderPhase::Deducting { order: s4.phase->LockingBalance_order, total_cost }),
        s6.phase is AddingHolding,
        s10.phase is Finished,
        s10.phase->Finished_0 is Ok,
        s10.phase->Finished_0->Ok_0.status == OrderStatus::Executed,
        s10.phase->Finished_0->Ok_0.reject_reason is None,
        s10.phase->Finished_0->Ok_0.price == price,
        s10.phase->Finished_0->Ok_0.created_at == created_at,
        s10.phase->Finished_0->Ok_0.id == order_id,
        s10.reply_code() == 200,
        follows_request(s10.phase->Finished_0->Ok_0, s0.request),
{
}

/// A buy whose balance falls short ends rejected, with the message that names the
/// cost and the balance as rendered, and no cash or holding ever moves.
pub proof fn lemma_uncovered_buy_ends_rejected<A, T>(
    s0: OrderExecution<A, T>, s1: OrderExecution<A, T>, s2: OrderExecution<A, T>,
    s3: OrderExecution<A, T>, s4: OrderExecution<A, T>, s5: OrderExecution<A, T>,
    s6: OrderExecution<A, T>, s7: OrderExecution<A, T>, s8: OrderExecution<A, T>,
    s9: OrderExecution<A, T>,
    price: A, total_cost: A, created_at: T, order_id: uuid::Uuid, balance: A, required_text: String, available_text: String,
)
    requires
        s0.phase is AwaitingQuote,
        s0.request.side == OrderSide::Buy,
        s0.transition(OrderEvent::Quoted { price, total_cost, created_at, order_id }, s1),
        s1.transition(OrderEvent::Emitted, s2),
        s2.transition(OrderEvent::Done(Ok(())), s3),
        s3.transition(OrderEvent::Done(Ok(())), s4),
        s4.transition(OrderEvent::BalanceLocked(Ok(BalanceCheck { available: balance, covers_cost: false })), s5),
        s5.transition(OrderEvent::AmountsRendered { required: required_text, available: available_text }, s6),
        s6.transition(OrderEvent::Done(Ok(())), s7),
        s7.transition(OrderEvent::Done(Ok(())), s8),
        s8.transition(OrderEvent::Emitted, s9),
    ensures
        s5.phase is RenderingReason,
        s5.phase->RenderingReason_required == total_cost,
        s5.phase->RenderingReason_available == balance,
        s9.phase is Finished,
        s9.phase->Finished_0 is Ok,
        s9.phase->Finished_0->Ok_0.status == OrderStatus::Rejected,
        s9.phase->Finished_0->Ok_0.reject_reason is Some,
        s9.phase->Finished_0->Ok_0.id == order_id,
        s9.reply_code() == 422,
        s9.phase->Finished_0->Ok_0.reject_reason->Some_0@ == app_error_message(
            AppError::<A>::InsufficientBalance { required: total_cost, available: balance },
            required_text@,
            available_text@,
        ),
        follows_request(s9.phase->Finished_0->Ok_0, s0.request),
{
}

/// A sale that the holding covers, with every statement succeeding, reduces the
/// holding by the quantity, credits the proceeds, and ends executed.
pub proof fn lemma_covered_sale_executes<A, T>(
    s0: OrderExecution<A, T>, s1: OrderExecution<A, T>, s2: OrderExecution<A, T>,
    s3: OrderExecution<A, T>, s4: OrderExecution<A, T>, s5: OrderExecution<A, T>,
    s6: OrderExecution<A, T>, s7: OrderExecution<A, T>, s8: OrderExecution<A, T>,
    s9: OrderExecution<A, T>, s10: OrderExecution<A, T>,
    price: A, total_cost: A, created_at: T, order_id: uuid::Uuid, held: A,
)
    requires
        s0.phase is AwaitingQuote,
        !s0.short_of_cash,
        s0.request.side == OrderSide::Sell,
        s0.transition(OrderEvent::Quoted { price, total_cost, created_at, order_id }, s1),
        s1.transition(OrderEvent::Emitted, s2),
        s2.transition(OrderEvent::Done(Ok(())), s3),
        s3.transition(OrderEvent::Done(Ok(())), s4),
        s4.transition(OrderEvent::HoldingRead(Ok(HoldingCheck { available: held, covers_quantity: true })), s5),
        s5.transition(OrderEvent::Done(Ok(())), s6),
        s6.transition(OrderEvent::Done(Ok(())), s7),
        s7.transition(OrderEvent::Done(Ok(())), s8),
        s8.transition(OrderEvent::Done(Ok(())), s9),
        s9.transition(OrderEvent::Emitted, s10),
    ensures
        s4.phase is ReadingHolding,
        s5.phase is RemovingHolding,
        s5.phase->RemovingHolding_order.quantity == s0.request.quantity,
        s6.phase is Crediting,
        s6.phase->Crediting_total_cost == total_cost,
        s10.phase is Finished,
        s10.phase->Finished_0 is Ok,
        s10.phase->Finished_0->Ok_0.status == OrderStatus::Executed,
        s10.phase->Finished_0->Ok_0.price == price,
        s10.phase->Finished_0->Ok_0.id == order_id,
        s10.reply_code() == 200,
        follows_request(s10.phase->Finished_0->Ok_0, s0.request),
{
}

/// A placed order that comes back is answered 422 only when it was rejected, and
/// a settled order that is not short of cash (executed, or rejected for any other
/// reason than the balance) is answered 200.
pub proof fn lemma_reply_status<A, T>(s: OrderExecution<A, T>)
    requires
        s.wf(),
        s.phase is Finished,
        s.phase->Finished_0 is Ok,
    ensures
        s.reply_code() == 422 ==> s.phase->Finished_0->Ok_0.status == OrderStatus::Rejected,
        s.phase->Finished_0->Ok_0.status == OrderStatus::Executed ==> s.reply_code() == 200,
        !s.short_of_cash ==> s.reply_code() == 200,
{
}

/// An execution becomes short of cash only by a rejection for insufficient
/// balance, and stays so.
pub proof fn lemma_short_of_cash_only_for_balance<A, T>(s: OrderExecution<A, T>, e: OrderEvent<A, T>, r: OrderExecution<A, T>)
    requires
        s.transition(e, r),
    ensures
        s.short_of_cash ==> r.short_of_cash,
        (!s.short_of_cash && r.short_of_cash) ==>
            (r.phase matches OrderPhase::RenderingReason { error, .. } && error is InsufficientBalance),
{
}

/// What a covered buy asks of the services, step by step, in terms of the request
/// and the quote alone: it announces the order with the requested quantity at the
/// quoted price, stores it pending under the drawn identifier, locks the user's
/// balance, takes exactly the quoted cost, adds the requested quantity to the
/// holding at the quoted price, writes the executed status, and announces the
/// execution with the same details.
pub proof fn lemma_buy_requests<A, T>(
    s0: OrderExecution<A, T>, s1: OrderExecution<A, T>, s2: OrderExecution<A, T>,
    s3: OrderExecution<A, T>, s4: OrderExecution<A, T>, s5: OrderExecution<A, T>,
    s6: OrderExecution<A, T>, s7: OrderExecution<A, T>, s8: OrderExecution<A, T>,
    s9: OrderExecution<A, T>,
    a1: OrderAction<A, T>, a3: OrderAction<A, T>, a4: OrderAction<A, T>, a5: OrderAction<A, T>,
    a6: OrderAction<A, T>, a7: OrderAction<A, T>, a9: OrderAction<A, T>,
    price: A, total_cost: A, created_at: T, order_id: uuid::Uuid, balance: A,
)
    requires
        s0.phase is AwaitingQuote,
        s0.transition(OrderEvent::Quoted { price, total_cost, created_at, order_id }, s1),
        s1.transition(OrderEvent::Emitted, s2),
        s2.transition(OrderEvent::Done(Ok(())), s3),
        s3.transition(OrderEvent::Done(Ok(())), s4),
        s0.request.side == OrderSide::Buy,
        s4.transition(OrderEvent::BalanceLocked(Ok(BalanceCheck { available: balance, covers_cost: true })), s5),
        s5.transition(OrderEvent::Done(Ok(())), s6),
        s6.transition(OrderEvent::Done(Ok(())), s7),
        s7.transition(OrderEvent::Done(Ok(())), s8),
        s8.transition(OrderEvent::Done(Ok(())), s9),
        s1.requests(a1),
        s3.requests(a3),
        s4.requests(a4),
        s5.requests(a5),
        s6.requests(a6),
        s7.requests(a7),
        s9.requests(a9),
    ensures
        a1 matches OrderAction::Emit(AuditEvent::OrderCreated(p))
            && p.order_id == order_id
            && p.user_id == s0.request.user_id
            && p.symbol == s0.request.symbol
            && p.side@ == "Buy"@
            && p.quantity == s0.request.quantity
            && p.price == price,
        a3 == OrderAction::<A, T>::InsertOrder(Order {
            id: order_id,
            user_id: s0.request.user_id,
            symbol: s0.request.symbol,
            side: OrderSide::Buy,
            quantity: s0.request.quantity,
            price,
            status: OrderStatus::Pending,
            reject_reason: None,
            created_at,
        }),
        a4 == (OrderAction::<A, T>::LockBalance { user_id: s0.request.user_id }),
        a5 == (OrderAction::<A, T>::DeductCash { user_id: s0.request.user_id, amount: total_cost }),
        a6 == (OrderAction::<A, T>::UpsertHolding {
            user_id: s0.request.user_id,
            symbol: s0.request.symbol,
            change: HoldingChange::Increase(s0.request.quantity),
            avg_cost: price,
        }),
        a7 == (OrderAction::<A, T>::UpdateStatus { order_id, status: OrderStatus::Executed, reject_reason: None }),
        a9 matches OrderAction::Emit(AuditEvent::OrderExecuted(p))
            && p.order_id == order_id
            && p.user_id == s0.request.user_id
            && p.symbol == s0.request.symbol
            && p.side@ == "Buy"@
            && p.quantity == s0.request.quantity
            && p.price == price,
{
}

/// What a covered sale asks of the services, in terms of the request and the
/// quote alone: it reads the user's holding of the symbol, takes the requested
/// quantity from it at the quoted price, credits exactly the quoted proceeds,
/// writes the executed status, and announces the execution with the requested
/// quantity at the quoted price.
pub proof fn lemma_sale_requests<A, T>(
    s0: OrderExecution<A, T>, s1: OrderExecution<A, T>, s2: OrderExecution<A, T>,
    s3: OrderExecution<A, T>, s4: OrderExecution<A, T>, s5: OrderExecution<A, T>,
    s6: OrderExecution<A, T>, s7: OrderExecution<A, T>, s8: OrderExecution<A, T>,
    s9: OrderExecution<A, T>,
    a1: OrderAction<A, T>, a4: OrderAction<A, T>, a5: OrderAction<A, T>, a6: OrderAction<A, T>,
    a7: OrderAction<A, T>, a9: OrderAction<A, T>,
    price: A, total_cost: A, created_at: T, order_id: uuid::Uuid, held: A,
)
    requires
        s0.phase is AwaitingQuote,
        s0.transition(OrderEvent::Quoted { price, total_cost, created_at, order_id }, s1),
        s1.transition(OrderEvent::Emitted, s2),
        s2.transition(OrderEvent::Done(Ok(())), s3),
        s3.transition(OrderEvent::Done(Ok(())), s4),
        s0.request.side == OrderSide::Sell,
        s4.transition(OrderEvent::HoldingRead(Ok(HoldingCheck { available: held, covers_quantity: true })), s5),
        s5.transition(OrderEvent::Done(Ok(())), s6),
        s6.transition(OrderEvent::Done(Ok(())), s7),
        s7.transition(OrderEvent::Done(Ok(())), s8),
        s8.transition(OrderEvent::Done(Ok(())), s9),
        s1.requests(a1),
        s4.requests(a4),
        s5.requests(a5),
        s6.requests(a6),
        s7.requests(a7),
        s9.requests(a9),
    ensures
        a1 matches OrderAction::Emit(AuditEvent::OrderCreated(p))
            && p.order_id == order_id
            && p.side@ == "Sell"@
            && p.quantity == s0.request.quantity
            && p.price == price,
        a4 == (OrderAction::<A, T>::ReadHolding { user_id: s0.request.user_id, symbol: s0.request.symbol }),
        a5 == (OrderAction::<A, T>::UpsertHolding {
            user_id: s0.request.user_id,
            symbol: s0.request.symbol,
            change: HoldingChange::Decrease(s0.request.quantity),
            avg_cost: price,
        }),
        a6 == (OrderAction::<A, T>::AddCash { user_id: s0.request.user_id, amount: total_cost }),
        a7 == (OrderAction::<A, T>::UpdateStatus { order_id, status: OrderStatus::Executed, reject_reason: None }),
        a9 matches OrderAction::Emit(AuditEvent::OrderExecuted(p))
            && p.order_id == order_id
            && p.user_id == s0.request.user_id
            && p.symbol == s0.request.symbol
            && p.side@ == "Sell"@
            && p.quantity == s0.request.quantity
            && p.price == price,
{
}

/// A rejected buy announces its rejection with the requested quantity and the very
/// reason that the order comes back with.
pub proof fn lemma_rejection_announced_with_reason<A, T>(
    s0: OrderExecution<A, T>, s1: OrderExecution<A, T>, s2: OrderExecution<A, T>,
    s3: OrderExecution<A, T>, s4: OrderExecution<A, T>, s5: OrderExecution<A, T>,
    s6: OrderExecution<A, T>, s7: OrderExecution<A, T>, s8: OrderExecution<A, T>,
    s9: OrderExecution<A, T>, a8: OrderAction<A, T>,
    price: A, total_cost: A, created_at: T, order_id: uuid::Uuid, balance: A,
    required_text: String, available_text: String,
)
    requires
        s0.phase is AwaitingQuote,
        s0.transition(OrderEvent::Quoted { price, total_cost, created_at, order_id }, s1),
        s1.transition(OrderEvent::Emitted, s2),
        s2.transition(OrderEvent::Done(Ok(())), s3),
        s3.transition(OrderEvent::Done(Ok(())), s4),
        s0.request.side == OrderSide::Buy,
        s4.transition(OrderEvent::BalanceLocked(Ok(BalanceCheck { available: balance, covers_cost: false })), s5),
        s5.transition(OrderEvent::AmountsRendered { required: required_text, available: available_text }, s6),
        s6.transition(OrderEvent::Done(Ok(())), s7),
        s7.transition(OrderEvent::Done(Ok(())), s8),
        s8.transition(OrderEvent::Emitted, s9),
        s8.requests(a8),
    ensures
        a8 matches OrderAction::Emit(AuditEvent::OrderRejected(p))
            && p.order_id == order_id
            && p.user_id == s0.request.user_id
            && p.symbol == s0.request.symbol
            && p.side@ == "Buy"@
            && p.quantity == s0.request.quantity
            && s9.phase == OrderPhase::<A, T>::Finished(Ok(Order {
                status: OrderStatus::Rejected,
                reject_reason: Some(p.reason),
                ..s8.phase->Announcing_order
            })),
{
}

} // verus!
