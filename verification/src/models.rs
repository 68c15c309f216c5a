//! The data model shared by the services.
//!
//! Amounts (quantities, prices, cash) are a type parameter `A` and timestamps a
//! type parameter `T`: the library carries them unchanged and never computes on
//! them, so every value that reaches a reply or an event is the one that came in.

use vstd::prelude::*;

verus! {

/// A tradeable instrument: its ticker and display name.
#[derive(Debug)]
pub struct Symbol {
    pub symbol: String,
    pub name: String,
}

/// Whether an order buys or sells.
#[derive(Clone, Copy, Debug, PartialEq, Eq, Structural)]
pub enum OrderSide {
    Buy,
    Sell,
}

/// The life cycle of an order: created pending, then executed or rejected.
#[derive(Clone, Copy, Debug, PartialEq, Eq, Structural)]
pub enum OrderStatus {
    Pending,
    Executed,
    Rejected,
}

/// The label of a side as the debug rendering writes it: the variant's name.
pub open spec fn side_label_text(side: OrderSide) -> Seq<char> {
    match side {
        OrderSide::Buy => "Buy"@,
        OrderSide::Sell => "Sell"@,
    }
}

impl OrderSide {
    /// The label used in audit payloads: `Buy` or `Sell`.
    pub fn label(&self) -> (res: String)
        ensures
            res@ == side_label_text(*self),
    {
        match self {
            OrderSide::Buy => String::from_str("Buy"),
            OrderSide::Sell => String::from_str("Sell"),
        }
    }
}


/// A request to buy or sell `quantity` units of `symbol` for a user.
#[derive(Debug)]
pub struct CreateOrderRequest<A> {
    pub user_id: uuid::Uuid,
    pub symbol: String,
    pub side: OrderSide,
    pub quantity: A,
}

/// An order as stored and returned: what was asked, at which price, and how it ended.
#[derive(Debug)]
pub struct Order<A, T> {
    pub id: uuid::Uuid,
    pub user_id: uuid::Uuid,
    pub symbol: String,
    pub side: OrderSide,
    pub quantity: A,
    pub price: A,
    pub status: OrderStatus,
    pub reject_reason: Option<String>,
    pub created_at: T,
}

impl<A: Copy, T: Copy> Order<A, T> {
    /// A field-by-field copy.
    pub fn duplicate(&self) -> (res: Order<A, T>)
        ensures
            res == *self,
    {
        Order {
            id: self.id,
            user_id: self.user_id,
            symbol: self.symbol.clone(),
            side: self.side,
            quantity: self.quantity,
            price: self.price,
            status: self.status,
            reject_reason: crate::text::copy_opt_string(&self.reject_reason),
            created_at: self.created_at,
        }
    }
}

/// A quoted price of a symbol at a moment.
#[derive(Debug)]
pub struct Price<A, T> {
    pub symbol: String,
    pub price: A,
    pub timestamp: T,
}

} // verus!
