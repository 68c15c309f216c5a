//! Errors of the services, their messages, and the HTTP status each one is
//! answered with.

use vstd::prelude::*;
use crate::text::{join2, join4};

verus! {

/// Errors of the order flow. Amounts are the type parameter `A`; a database error
/// carries the text of the driver's error.
#[derive(Debug)]
pub enum AppError<A> {
    NotFound(String),
    InsufficientBalance { required: A, available: A },
    InsufficientHoldings { symbol: String, required: A, available: A },
    MarketServiceUnavailable(String),
    InvalidRequest(String),
    Database(String),
    Internal(String),
}

/// The message of an application error. `required` and `available` are the
/// renderings of the two amounts, which only the two `Insufficient` variants use.
pub open spec fn app_error_message<A>(e: AppError<A>, required: Seq<char>, available: Seq<char>) -> Seq<char> {
    match e {
        AppError::NotFound(s) => "Not found: "@ + s@,
        AppError::InsufficientBalance { .. } =>
            "Insufficient balance: required "@ + required + ", available "@ + available,
        AppError::InsufficientHoldings { symbol, .. } =>
            "Insufficient holdings: required "@ + required + " "@ + symbol@ + ", available "@ + available,
        AppError::MarketServiceUnavailable(s) => "Market service unavailable: "@ + s@,
        AppError::InvalidRequest(s) => "Invalid request: "@ + s@,
        AppError::Database(s) => "Database error: "@ + s@,
        AppError::Internal(s) => "Internal error: "@ + s@,
    }
}

/// Whether an application error carries amounts that its message shows.
pub open spec fn app_error_has_amounts<A>(e: AppError<A>) -> bool {
    e is InsufficientBalance || e is InsufficientHoldings
}

/// The number of decimals with which the amounts of an error are shown:
/// two for cash, four for holdings.
pub open spec fn amount_decimals<A>(e: AppError<A>) -> u8 {
    if e is InsufficientHoldings { 4 } else { 2 }
}

/// The message of a record that does not exist: its kind, its identifier, and
/// that it was not found.
pub open spec fn not_found_text(kind: Seq<char>, id: Seq<char>) -> Seq<char> {
    kind + " "@ + id + " not found"@
}

impl<A> AppError<A> {
    /// The error for a record of some kind (`User`, `Order`) that does not exist,
    /// given its identifier as text.
    pub fn not_found(kind: &str, id: &str) -> (res: AppError<A>)
        ensures
            res matches AppError::NotFound(m) && m@ == not_found_text(kind@, id@),
    {
        AppError::NotFound(join4(kind, " ", id, " not found"))
    }

    /// The error's message, from the renderings of its amounts.
    pub fn message(&self, required: &str, available: &str) -> (res: String)
        ensures
            res@ == app_error_message(*self, required@, available@),
    {
        match self {
            AppError::NotFound(s) => join2("Not found: ", s.as_str()),
            AppError::InsufficientBalance { .. } => {
                let head = join2("Insufficient balance: required ", required);
                join2(head.as_str(), join2(", available ", available).as_str())
            },
            AppError::InsufficientHoldings { symbol, .. } => {
                let head = join4("Insufficient holdings: required ", required, " ", symbol.as_str());
                join2(head.as_str(), join2(", available ", available).as_str())
            },
            AppError::MarketServiceUnavailable(s) => join2("Market service unavailable: ", s.as_str()),
            AppError::InvalidRequest(s) => join2("Invalid request: ", s.as_str()),
            AppError::Database(s) => join2("Database error: ", s.as_str()),
            AppError::Internal(s) => join2("Internal error: ", s.as_str()),
        }
    }

    /// The decimals with which the amounts are shown.
    pub fn decimals(&self) -> (res: u8)
        ensures
            res == amount_decimals(*self),
    {
        match self {
            AppError::InsufficientHoldings { .. } => 4,
            _ => 2,
        }
    }
}

/// Errors of the market service.
#[derive(Debug)]
pub enum MarketError {
    SymbolNotFound(String),
    Redis(String),
    Internal(String),
}

/// The message of a market error.
pub open spec fn market_error_message(e: MarketError) -> Seq<char> {
    match e {
        MarketError::SymbolNotFound(s) => "Symbol not found: "@ + s@,
        MarketError::Redis(s) => "Redis error: "@ + s@,
        MarketError::Internal(s) => "Internal error: "@ + s@,
    }
}

/// The HTTP status of a market error: 404 for an unknown symbol, 500 otherwise.
pub open spec fn market_error_status(e: MarketError) -> u16 {
    match e {
        MarketError::SymbolNotFound(_) => 404,
        _ => 500,
    }
}

impl MarketError {
    /// The error's message.
    pub fn message(&self) -> (res: String)
        ensures
            res@ == market_error_message(*self),
    {
        match self {
            MarketError::SymbolNotFound(s) => join2("Symbol not found: ", s.as_str()),
            MarketError::Redis(s) => join2("Redis error: ", s.as_str()),
            MarketError::Internal(s) => join2("Internal error: ", s.as_str()),
        }
    }

    /// The HTTP status the error is answered with.
    pub fn status_code(&self) -> (res: u16)
        ensures
            res == market_error_status(*self),
    {
        match self {
            MarketError::SymbolNotFound(_) => 404,
            _ => 500,
        }
    }

    /// The status and the message of the error reply, whose body is
    /// `{"error": message}`.
    pub fn reply(&self) -> (res: (u16, String))
        ensures
            res.0 == market_error_status(*self),
            res.1@ == market_error_message(*self),
    {
        (self.status_code(), self.message())
    }
}

/// Errors of the portfolio service's handlers.
#[derive(Debug)]
pub enum PortfolioError<A> {
    App(AppError<A>),
    Serde(String),
}

/// The message of a portfolio error: an application error shows its own message,
/// a serialization error its prefix and the serializer's text.
pub open spec fn portfolio_error_message<A>(e: PortfolioError<A>, required: Seq<char>, available: Seq<char>) -> Seq<char> {
    match e {
        PortfolioError::App(a) => app_error_message(a, required, available),
        PortfolioError::Serde(s) => "Serialization error: "@ + s@,
    }
}

/// The HTTP status of a portfolio error: 404 for a missing record, 422 for a
/// request that cannot be carried out, 503 when the market is unreachable, and
/// 500 for everything else.
pub open spec fn portfolio_error_status<A>(e: PortfolioError<A>) -> u16 {
    match e {
        PortfolioError::App(AppError::NotFound(_)) => 404,
        PortfolioError::App(AppError::InsufficientBalance { .. }) => 422,
        PortfolioError::App(AppError::InsufficientHoldings { .. }) => 422,
        PortfolioError::App(AppError::InvalidRequest(_)) => 422,
        PortfolioError::App(AppError::MarketServiceUnavailable(_)) => 503,
        _ => 500,
    }
}

/// The text a client is shown for a portfolio error: the message itself, except
/// for a 500, which shows only that an internal error happened.
pub open spec fn portfolio_error_client_text<A>(e: PortfolioError<A>, required: Seq<char>, available: Seq<char>) -> Seq<char> {
    if portfolio_error_status(e) == 500 {
        "Internal server error"@
    } else {
        portfolio_error_message(e, required, available)
    }
}

impl<A> PortfolioError<A> {
    /// The error's message, from the renderings of the amounts it may show.
    pub fn message(&self, required: &str, available: &str) -> (res: String)
        ensures
            res@ == portfolio_error_message(*self, required@, available@),
    {
        match self {
            PortfolioError::App(a) => a.message(required, available),
            PortfolioError::Serde(s) => join2("Serialization error: ", s.as_str()),
        }
    }

    /// The HTTP status the error is answered with.
    pub fn status_code(&self) -> (res: u16)
        ensures
            res == portfolio_error_status(*self),
    {
        match self {
            PortfolioError::App(AppError::NotFound(_)) => 404,
            PortfolioError::App(AppError::InsufficientBalance { .. }) => 422,
            PortfolioError::App(AppError::InsufficientHoldings { .. }) => 422,
            PortfolioError::App(AppError::InvalidRequest(_)) => 422,
            PortfolioError::App(AppError::MarketServiceUnavailable(_)) => 503,
            _ => 500,
        }
    }

    /// The status and the text of the error reply, whose body is `{"error": text}`.
    pub fn reply(&self, required: &str, available: &str) -> (res: (u16, String))
        ensures
            res.0 == portfolio_error_status(*self),
            res.1@ == portfolio_error_client_text(*self, required@, available@),
    {
        let status = self.status_code();
        if status == 500 {
            (status, String::from_str("Internal server error"))
        } else {
            (status, self.message(required, available))
        }
    }
}

} // verus!
