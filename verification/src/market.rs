//! How the portfolio service talks to the market service: the base address, the
//! price address, and how a reply becomes a price or an error.

use vstd::prelude::*;
use crate::errors::AppError;
use crate::models::Price;
use crate::outside::{render_status, status_line};
use crate::text::{join2, join3};

verus! {

/// A string without the slashes at its end.
pub open spec fn without_trailing_slashes(s: Seq<char>) -> Seq<char>
    decreases s.len(),
{
    if s.len() > 0 && s.last() == '/' {
        without_trailing_slashes(s.drop_last())
    } else {
        s
    }
}

/// The base address of the market service as given, less its trailing slashes.
pub fn normalize_base_url(base: &str) -> (res: String)
    ensures
        res@ == without_trailing_slashes(base@),
{
    let n = base.unicode_len();
    let mut k: usize = n;
    assert(base@.take(n as int) =~= base@);
    while k > 0 && base.get_char(k - 1) == '/'
        invariant
            n == base@.len(),
            k <= n,
            without_trailing_slashes(base@.take(k as int)) == without_trailing_slashes(base@),
        decreases k,
    {
        assert(base@.take(k as int).drop_last() =~= base@.take(k - 1));
        assert(base@.take(k as int).last() == base@[k - 1]);
        k = k - 1;
    }
    assert(without_trailing_slashes(base@.take(k as int)) == base@.take(k as int));
    let kept = base.substring_char(0, k);
    proof {
        assert(base@.subrange(0, k as int) =~= base@.take(k as int));
    }
    String::from_str(kept)
}

/// Trimming leaves a prefix of the address that does not end in a slash, keeps
/// everything before the trailing slashes, and trimming again changes nothing.
pub proof fn lemma_trim_trailing_slashes(s: Seq<char>)
    ensures
        without_trailing_slashes(s).len() <= s.len(),
        without_trailing_slashes(s) == s.take(without_trailing_slashes(s).len() as int),
        without_trailing_slashes(s).len() > 0 ==> without_trailing_slashes(s).last() != '/',
        forall|i: int| without_trailing_slashes(s).len() <= i < s.len() ==> s[i] == '/',
        without_trailing_slashes(without_trailing_slashes(s)) == without_trailing_slashes(s),
    decreases s.len(),
{
    if s.len() > 0 && s.last() == '/' {
        lemma_trim_trailing_slashes(s.drop_last());
        let t = without_trailing_slashes(s.drop_last());
        assert(s.drop_last().take(t.len() as int) =~= s.take(t.len() as int));
        assert forall|i: int| t.len() <= i < s.len() implies s[i] == '/' by {
            if i < s.len() - 1 {
                assert(s.drop_last()[i] == s[i]);
            }
        }
    } else {
        assert(s.take(s.len() as int) =~= s);
    }
}

/// The address of a symbol's price.
pub open spec fn price_url_text(base: Seq<char>, symbol: Seq<char>) -> Seq<char> {
    base + "/prices/"@ + symbol
}

/// The address of a symbol's price at a normalized base.
pub fn price_url(base: &str, symbol: &str) -> (res: String)
    ensures
        res@ == price_url_text(base@, symbol@),
{
    join3(base, "/prices/", symbol)
}

/// Whether a status code is a success (200 to 299).
pub open spec fn is_success_code(code: u16) -> bool {
    200 <= code < 300
}

/// What a reply's status says: a missing symbol, a failing market, or go on.
pub open spec fn status_outcome<A>(symbol: Seq<char>, code: u16, e: Result<(), AppError<A>>) -> bool {
    if code == 404 {
        e matches Err(AppError::NotFound(m)) && m@ == "Symbol "@ + symbol + " not found"@
    } else if !is_success_code(code) {
        e matches Err(AppError::MarketServiceUnavailable(m)) && m@ == "Market returned status "@ + status_line(code)
    } else {
        e is Ok
    }
}

/// Judges the status of the market's reply to a price request for `symbol`.
pub fn check_reply_status<A>(symbol: &str, code: u16) -> (res: Result<(), AppError<A>>)
    requires
        100 <= code <= 999,
    ensures
        status_outcome(symbol@, code, res),
{
    if code == 404 {
        return Err(AppError::NotFound(join3("Symbol ", symbol, " not found")));
    }
    if !(200 <= code && code < 300) {
        let line = render_status(code);
        return Err(AppError::MarketServiceUnavailable(join2("Market returned status ", line.as_str())));
    }
    Ok(())
}

/// The market's reply body: not valid JSON (with the parser's message), or valid
/// JSON with the number at `price.price` where there is one.
pub enum ReplyBody<A> {
    Unparsable(String),
    Parsed(Option<A>),
}

/// What a reply body gives: the price, or the error that the market is not usable.
pub open spec fn body_outcome<A, T>(symbol: Seq<char>, body: ReplyBody<A>, now: T, res: Result<Price<A, T>, AppError<A>>) -> bool {
    match body {
        ReplyBody::Unparsable(detail) =>
            res matches Err(AppError::MarketServiceUnavailable(m)) && m@ == "Invalid response: "@ + detail@,
        ReplyBody::Parsed(None) =>
            res matches Err(AppError::MarketServiceUnavailable(m)) && m@ == "Missing price field"@,
        ReplyBody::Parsed(Some(p)) =>
            res matches Ok(q) && q.symbol@ == symbol && q.price == p && q.timestamp == now,
    }
}

/// Reads the price out of a successful reply for `symbol`, stamped with `now`.
pub fn read_reply_body<A, T>(symbol: &str, body: ReplyBody<A>, now: T) -> (res: Result<Price<A, T>, AppError<A>>)
    ensures
        body_outcome(symbol@, body, now, res),
{
    match body {
        ReplyBody::Unparsable(detail) =>
            Err(AppError::MarketServiceUnavailable(join2("Invalid response: ", detail.as_str()))),
        ReplyBody::Parsed(None) => Err(AppError::MarketServiceUnavailable(String::from_str("Missing price field"))),
        ReplyBody::Parsed(Some(p)) => Ok(Price { symbol: String::from_str(symbol), price: p, timestamp: now }),
    }
}

/// The error for a market that could not be reached, with the transport's message.
pub fn unreachable_market<A>(detail: &str) -> (res: AppError<A>)
    ensures
        res matches AppError::MarketServiceUnavailable(m) && m@ == detail@,
{
    AppError::MarketServiceUnavailable(String::from_str(detail))
}

} // verus!
