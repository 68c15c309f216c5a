//! The market service's price store: the instruments it lists, and how a price is
//! served from the cache or from the drifting base price.

use vstd::prelude::*;
use crate::errors::MarketError;
use crate::models::{Price, Symbol};
use crate::outside::{to_uppercase, unicode_uppercase};
use crate::text::join2;

verus! {

/// How long a served price stays in the cache, in seconds.
pub const PRICE_CACHE_TTL_SECS: u64 = 5;

/// The instruments the market lists, in order: ticker and name.
pub open spec fn listed_symbols() -> Seq<(Seq<char>, Seq<char>)> {
    seq![
        ("BTC"@, "Bitcoin"@),
        ("ETH"@, "Ethereum"@),
        ("SOL"@, "Solana"@),
        ("BNB"@, "BNB"@),
        ("USDT"@, "Tether"@),
    ]
}

fn listed(symbol: &str, name: &str) -> (res: Symbol)
    ensures
        res.symbol@ == symbol@,
        res.name@ == name@,
{
    Symbol { symbol: String::from_str(symbol), name: String::from_str(name) }
}

/// The listed instruments, in the order of `listed_symbols`.
pub fn default_symbols() -> (res: Vec<Symbol>)
    ensures
        res@.len() == listed_symbols().len(),
        forall|i: int| 0 <= i < res@.len() ==>
            (#[trigger] res@[i]).symbol@ == listed_symbols()[i].0 && res@[i].name@ == listed_symbols()[i].1,
{
    let mut v: Vec<Symbol> = Vec::new();
    v.push(listed("BTC", "Bitcoin"));
    v.push(listed("ETH", "Ethereum"));
    v.push(listed("SOL", "Solana"));
    v.push(listed("BNB", "BNB"));
    v.push(listed("USDT", "Tether"));
    v
}

/// Whether the market lists a ticker.
pub open spec fn is_listed_symbol(symbol: Seq<char>) -> bool {
    exists|i: int| 0 <= i < listed_symbols().len() && #[trigger] listed_symbols()[i].0 == symbol
}

/// Whether the market lists a ticker (the store keeps base prices for exactly these).
pub fn is_listed(symbol: &String) -> (res: bool)
    ensures
        res == is_listed_symbol(symbol@),
{
    let listed = default_symbols();
    let mut i: usize = 0;
    while i < listed.len()
        invariant
            i <= listed@.len(),
            listed@.len() == listed_symbols().len(),
            forall|j: int| 0 <= j < listed@.len() ==> (#[trigger] listed@[j]).symbol@ == listed_symbols()[j].0,
            forall|j: int| 0 <= j < i ==> listed_symbols()[j].0 != symbol@,
        decreases listed@.len() - i,
    {
        if listed[i].symbol == *symbol {
            assert(listed_symbols()[i as int].0 == symbol@);
            return true;
        }
        i = i + 1;
    }
    false
}

/// The cache key of a symbol's price.
pub open spec fn cache_key_text(symbol: Seq<char>) -> Seq<char> {
    "price:"@ + symbol
}

/// The cache key of a symbol's price.
pub fn cache_key(symbol: &str) -> (res: String)
    ensures
        res@ == cache_key_text(symbol@),
{
    join2("price:", symbol)
}

/// The symbol as a price request names it, in upper case.
pub fn normalize_symbol(raw: &str) -> (res: String)
    ensures
        res@ == unicode_uppercase(raw@),
{
    to_uppercase(raw)
}

/// The reply to a request for one symbol's price: the price if the store has one,
/// and otherwise a not-found error naming the symbol.
pub fn price_or_not_found<P>(symbol: String, found: Option<P>) -> (res: Result<P, MarketError>)
    ensures
        found matches Some(p) ==> res == Ok::<P, MarketError>(p),
        found is None ==> res == Err::<P, MarketError>(MarketError::SymbolNotFound(symbol)),
{
    match found {
        Some(p) => Ok(p),
        None => Err(MarketError::SymbolNotFound(symbol)),
    }
}

/// The prices that were found, in order, leaving out the symbols without one.
pub open spec fn found_prices<P>(looked_up: Seq<Option<P>>) -> Seq<P>
    decreases looked_up.len(),
{
    if looked_up.len() == 0 {
        Seq::empty()
    } else {
        let rest = found_prices(looked_up.drop_first());
        match looked_up[0] {
            Some(p) => seq![p] + rest,
            None => rest,
        }
    }
}

/// The gathered prices are exactly the found ones, in order: there are increasing
/// positions of the lookups, one per gathered price, at which the lookup found
/// that price, and every lookup that found a price is among them. So no found
/// price is dropped, none is added, and the order is kept.
pub proof fn lemma_found_prices_are_the_found_ones<P>(looked_up: Seq<Option<P>>) -> (at: Seq<int>)
    ensures
        at.len() == found_prices(looked_up).len(),
        forall|k: int| 0 <= k < at.len() ==>
            0 <= #[trigger] at[k] < looked_up.len() && looked_up[at[k]] == Some(found_prices(looked_up)[k]),
        forall|k: int, l: int| 0 <= k < l < at.len() ==> #[trigger] at[k] < #[trigger] at[l],
        forall|i: int| 0 <= i < looked_up.len() && (#[trigger] looked_up[i]) is Some ==> at.contains(i),
    decreases looked_up.len(),
{
    if looked_up.len() == 0 {
        Seq::empty()
    } else {
        let tail = looked_up.drop_first();
        let rest_at = lemma_found_prices_are_the_found_ones(tail);
        let shifted = rest_at.map_values(|k: int| k + 1);
        assert forall|i: int| 1 <= i < looked_up.len() && (#[trigger] looked_up[i]) is Some implies shifted.contains(i) by {
            assert(tail[i - 1] == looked_up[i]);
            let k = choose|k: int| 0 <= k < rest_at.len() && rest_at[k] == i - 1;
            assert(shifted[k] == i);
        }
        match looked_up[0] {
            Some(p) => {
                let at = seq![0int] + shifted;
                assert forall|i: int| 0 <= i < looked_up.len() && (#[trigger] looked_up[i]) is Some implies at.contains(i) by {
                    if i == 0 {
                        assert(at[0] == 0);
                    } else {
                        let k = choose|k: int| 0 <= k < shifted.len() && shifted[k] == i;
                        assert(at[k + 1] == i);
                    }
                }
                assert forall|k: int| 0 <= k < at.len() implies
                    0 <= #[trigger] at[k] < looked_up.len() && looked_up[at[k]] == Some(found_prices(looked_up)[k]) by {
                    if k > 0 {
                        assert(at[k] == rest_at[k - 1] + 1);
                        assert(tail[rest_at[k - 1]] == looked_up[at[k]]);
                    }
                }
                assert forall|k: int, l: int| 0 <= k < l < at.len() implies #[trigger] at[k] < #[trigger] at[l] by {
                    if k > 0 {
                        assert(at[k] == rest_at[k - 1] + 1);
                    }
                    assert(at[l] == rest_at[l - 1] + 1);
                }
                at
            },
            None => {
                assert forall|k: int| 0 <= k < shifted.len() implies
                    0 <= #[trigger] shifted[k] < looked_up.len() && looked_up[shifted[k]] == Some(found_prices(looked_up)[k]) by {
                    assert(tail[rest_at[k]] == looked_up[shifted[k]]);
                }
                assert forall|k: int, l: int| 0 <= k < l < shifted.len() implies #[trigger] shifted[k] < #[trigger] shifted[l] by {
                    assert(shifted[k] == rest_at[k] + 1);
                    assert(shifted[l] == rest_at[l] + 1);
                }
                shifted
            },
        }
    }
}

/// Every found price is gathered, and when every symbol has a price, the gathered
/// prices are the found ones position for position.
pub proof fn lemma_no_found_price_dropped<P>(looked_up: Seq<Option<P>>)
    ensures
        forall|i: int| 0 <= i < looked_up.len() && (#[trigger] looked_up[i]) is Some ==>
            found_prices(looked_up).contains(looked_up[i]->Some_0),
        found_prices(looked_up).len() <= looked_up.len(),
        (forall|i: int| 0 <= i < looked_up.len() ==> (#[trigger] looked_up[i]) is Some) ==> {
            &&& found_prices(looked_up).len() == looked_up.len()
            &&& forall|i: int| 0 <= i < looked_up.len() ==> found_prices(looked_up)[i] == looked_up[i]->Some_0
        },
{
    let at = lemma_found_prices_are_the_found_ones(looked_up);
    assert forall|i: int| 0 <= i < looked_up.len() && (#[trigger] looked_up[i]) is Some implies
        found_prices(looked_up).contains(looked_up[i]->Some_0) by {
        let k = choose|k: int| 0 <= k < at.len() && at[k] == i;
        assert(found_prices(looked_up)[k] == looked_up[i]->Some_0);
    }
    lemma_increasing_positions_bounded(at, looked_up.len() as int);
    if forall|i: int| 0 <= i < looked_up.len() ==> (#[trigger] looked_up[i]) is Some {
        assert forall|i: int| 0 <= i < looked_up.len() implies at.contains(i) by {
            assert(looked_up[i] is Some);
        }
        lemma_increasing_positions_cover(at, looked_up.len() as int);
        assert forall|i: int| 0 <= i < looked_up.len() implies found_prices(looked_up)[i] == looked_up[i]->Some_0 by {
            assert(at[i] == i);
        }
    }
}

/// Strictly increasing positions below `n` number at most `n`, and the `k`-th is
/// at least `k`.
proof fn lemma_increasing_positions_bounded(at: Seq<int>, n: int)
    requires
        0 <= n,
        forall|k: int| 0 <= k < at.len() ==> 0 <= #[trigger] at[k] < n,
        forall|k: int, l: int| 0 <= k < l < at.len() ==> #[trigger] at[k] < #[trigger] at[l],
    ensures
        at.len() <= n,
        forall|k: int| 0 <= k < at.len() ==> k <= #[trigger] at[k],
    decreases at.len(),
{
    if at.len() > 0 {
        let init = at.drop_last();
        assert forall|k: int, l: int| 0 <= k < l < init.len() implies #[trigger] init[k] < #[trigger] init[l] by {
            assert(init[k] == at[k] && init[l] == at[l]);
        }
        assert forall|k: int| 0 <= k < init.len() implies 0 <= #[trigger] init[k] < n by {
            assert(init[k] == at[k]);
        }
        lemma_increasing_positions_bounded(init, n);
        let m = at.len() - 1;
        if m > 0 {
            assert(init[m - 1] == at[m - 1]);
            assert(at[m - 1] < at[m]);
        }
        assert forall|k: int| 0 <= k < at.len() implies k <= #[trigger] at[k] by {
            if k < m {
                assert(init[k] == at[k]);
            }
        }
        assert(m <= at[m]);
    }
}

/// Under the conditions of `lemma_increasing_positions_cover`, the first `k + 1`
/// positions are `0..=k`.
proof fn lemma_increasing_positions_prefix(at: Seq<int>, n: int, k: int)
    requires
        0 <= n,
        0 <= k < at.len(),
        forall|k: int| 0 <= k < at.len() ==> 0 <= #[trigger] at[k] < n,
        forall|k: int, l: int| 0 <= k < l < at.len() ==> #[trigger] at[k] < #[trigger] at[l],
        forall|i: int| 0 <= i < n ==> at.contains(i),
    ensures
        forall|i: int| 0 <= i <= k ==> #[trigger] at[i] == i,
    decreases k,
{
    lemma_increasing_positions_bounded(at, n);
    if k > 0 {
        lemma_increasing_positions_prefix(at, n, k - 1);
    }
    assert(k <= at[k]);
    assert(k < n);
    assert(at.contains(k));
    let j = choose|j: int| 0 <= j < at.len() && at[j] == k;
    if j < k {
        assert(at[j] == j);
    } else if j > k {
        assert(at[k] < at[j]);
    }
}

/// Strictly increasing positions below `n` that take every position below `n` are
/// exactly the positions `0..n`.
proof fn lemma_increasing_positions_cover(at: Seq<int>, n: int)
    requires
        0 <= n,
        forall|k: int| 0 <= k < at.len() ==> 0 <= #[trigger] at[k] < n,
        forall|k: int, l: int| 0 <= k < l < at.len() ==> #[trigger] at[k] < #[trigger] at[l],
        forall|i: int| 0 <= i < n ==> at.contains(i),
    ensures
        at.len() == n,
        forall|k: int| 0 <= k < n ==> #[trigger] at[k] == k,
{
    lemma_increasing_positions_bounded(at, n);
    if at.len() > 0 {
        lemma_increasing_positions_prefix(at, n, at.len() - 1);
    }
    if at.len() < n {
        assert(at.contains(n - 1));
        let j = choose|j: int| 0 <= j < at.len() && at[j] == n - 1;
        assert(at[j] == j);
    }
}

/// Gathers the prices of all symbols from the lookups, in order, leaving out the
/// symbols without one.
pub fn collect_prices<P>(looked_up: Vec<Option<P>>) -> (res: Vec<P>)
    ensures
        res@ == found_prices(looked_up@),
{
    let mut out: Vec<P> = Vec::new();
    let mut rest = looked_up;
    while rest.len() > 0
        invariant
            found_prices(looked_up@) == out@ + found_prices(rest@),
        decreases rest@.len(),
    {
        let ghost before = rest@;
        let x = rest.remove(0);
        proof {
            assert(rest@ =~= before.drop_first());
        }
        match x {
            Some(p) => {
                let ghost o = out@;
                out.push(p);
                proof {
                    assert(o + (seq![p] + found_prices(rest@)) =~= o.push(p) + found_prices(rest@));
                }
            },
            None => {},
        }
    }
    proof {
        assert(out@ + found_prices(rest@) =~= out@);
    }
    out
}

/// What the price lookup asks for next.
pub enum PriceAction<A> {
    /// Read a cached price under this key (a miss where there is no cache).
    ReadCache { key: String },
    /// Move the symbol's base price by a random drift and report the new price,
    /// or report that the store has no such symbol.
    DriftBase { symbol: String },
    /// Cache a price under this key for this many seconds, where there is a cache.
    WriteCache { key: String, price: A, ttl_secs: u64 },
    /// The lookup is over.
    Finish,
}

/// What the service reports back to a price lookup.
pub enum PriceEvent<A, T> {
    /// The cache held a price (with the current time), or did not.
    CacheChecked(Option<(A, T)>),
    /// The drifted base price, or `None` for an unknown symbol.
    Drifted(Option<A>),
    /// The price was cached (or there was no cache); the current time.
    CacheWritten { at: T },
}

/// Where a price lookup stands.
pub enum PricePhase<A, T> {
    ReadingCache,
    Drifting,
    WritingCache { price: A },
    Finished(Option<Price<A, T>>),
}

/// One lookup of a symbol's price.
pub struct PriceLookup<A, T> {
    pub symbol: String,
    pub phase: PricePhase<A, T>,
}

impl<A, T> PriceLookup<A, T> {
    /// The request that the lookup asks for in its phase.
    pub open spec fn requests(self, a: PriceAction<A>) -> bool {
        match self.phase {
            PricePhase::ReadingCache => a matches PriceAction::ReadCache { key } && key@ == cache_key_text(self.symbol@),
            PricePhase::Drifting => a == PriceAction::<A>::DriftBase { symbol: self.symbol },
            PricePhase::WritingCache { price } =>
                a matches PriceAction::WriteCache { key, price: p, ttl_secs }
                    && key@ == cache_key_text(self.symbol@) && p == price && ttl_secs == PRICE_CACHE_TTL_SECS,
            PricePhase::Finished(_) => a is Finish,
        }
    }

    /// How an event moves a lookup: a cached price is served as it is; on a miss a
    /// listed symbol's base price drifts, is cached, and is served; a symbol the
    /// market does not list has no price, and neither has one whose base price
    /// could not be read.
    /// An event that answers no pending request leaves the lookup where it was.
    pub open spec fn transition(self, event: PriceEvent<A, T>, res: Self) -> bool {
        &&& res.symbol == self.symbol
        &&& match (self.phase, event) {
            (PricePhase::ReadingCache, PriceEvent::CacheChecked(Some((p, at)))) =>
                res.phase == PricePhase::Finished(Some(Price { symbol: self.symbol, price: p, timestamp: at })),
            (PricePhase::ReadingCache, PriceEvent::CacheChecked(None)) =>
                res.phase == if is_listed_symbol(self.symbol@) {
                    PricePhase::<A, T>::Drifting
                } else {
                    PricePhase::<A, T>::Finished(None)
                },
            (PricePhase::Drifting, PriceEvent::Drifted(None)) => res.phase == PricePhase::<A, T>::Finished(None),
            (PricePhase::Drifting, PriceEvent::Drifted(Some(p))) =>
                res.phase == PricePhase::<A, T>::WritingCache { price: p },
            (PricePhase::WritingCache { price }, PriceEvent::CacheWritten { at }) =>
                res.phase == PricePhase::Finished(Some(Price { symbol: self.symbol, price, timestamp: at })),
            _ => res.phase == self.phase,
        }
    }
}

impl<A: Copy, T> PriceLookup<A, T> {
    /// Starts looking up a symbol's price, at the cache.
    pub fn start(symbol: String) -> (res: Self)
        ensures
            res.symbol == symbol,
            res.phase is ReadingCache,
    {
        PriceLookup { symbol, phase: PricePhase::ReadingCache }
    }

    /// The pending request.
    pub fn action(&self) -> (a: PriceAction<A>)
        ensures
            self.requests(a),
    {
        match &self.phase {
            PricePhase::ReadingCache => PriceAction::ReadCache { key: cache_key(self.symbol.as_str()) },
            PricePhase::Drifting => PriceAction::DriftBase { symbol: self.symbol.clone() },
            PricePhase::WritingCache { price } => PriceAction::WriteCache {
                key: cache_key(self.symbol.as_str()),
                price: *price,
                ttl_secs: PRICE_CACHE_TTL_SECS,
            },
            PricePhase::Finished(_) => PriceAction::Finish,
        }
    }

    /// Moves the lookup by what the service reports.
    pub fn advance(self, event: PriceEvent<A, T>) -> (res: Self)
        ensures
            self.transition(event, res),
    {
        let symbol = self.symbol;
        let phase = match (self.phase, event) {
            (PricePhase::ReadingCache, PriceEvent::CacheChecked(Some((p, at)))) =>
                PricePhase::Finished(Some(Price { symbol: symbol.clone(), price: p, timestamp: at })),
            (PricePhase::ReadingCache, PriceEvent::CacheChecked(None)) =>
                if is_listed(&symbol) { PricePhase::Drifting } else { PricePhase::Finished(None) },
            (PricePhase::Drifting, PriceEvent::Drifted(None)) => PricePhase::Finished(None),
            (PricePhase::Drifting, PriceEvent::Drifted(Some(p))) => PricePhase::WritingCache { price: p },
            (PricePhase::WritingCache { price }, PriceEvent::CacheWritten { at }) =>
                PricePhase::Finished(Some(Price { symbol: symbol.clone(), price, timestamp: at })),
            (phase, _) => phase,
        };
        PriceLookup { symbol, phase }
    }

    /// The price found, once the lookup is over; `None` inside while it runs.
    pub fn into_outcome(self) -> (res: Option<Option<Price<A, T>>>)
        ensures
            self.phase matches PricePhase::Finished(r) ==> res == Some(r),
            !(self.phase is Finished) ==> res is None,
    {
        match self.phase {
            PricePhase::Finished(r) => Some(r),
            _ => None,
        }
    }
}

/// A price served from the cache is the cached one, and the base price is not moved.
pub proof fn lemma_cache_hit_served<A, T>(s: PriceLookup<A, T>, p: A, at: T, r: PriceLookup<A, T>)
    requires
        s.phase is ReadingCache,
        s.transition(PriceEvent::CacheChecked(Some((p, at))), r),
    ensures
        r.phase matches PricePhase::Finished(Some(q)) && q.price == p && q.symbol == s.symbol,
{
}

/// A drifted base price is cached, for the cache's lifetime, before it is served,
/// and it is served unchanged.
pub proof fn lemma_drifted_price_cached_then_served<A, T>(s: PriceLookup<A, T>, p: A, at: T, a: PriceAction<A>)
    requires
        s.phase is Drifting,
    ensures
        forall|r: PriceLookup<A, T>| #[trigger] s.transition(PriceEvent::Drifted(Some(p)), r) ==> {
            &&& r.phase == PricePhase::<A, T>::WritingCache { price: p }
            &&& (r.requests(a) ==> (a matches PriceAction::WriteCache { price: q, ttl_secs, .. }
                    && q == p && ttl_secs == PRICE_CACHE_TTL_SECS))
            &&& forall|r2: PriceLookup<A, T>| #[trigger] r.transition(PriceEvent::CacheWritten { at }, r2) ==>
                    (r2.phase matches PricePhase::Finished(Some(q)) && q.price == p && q.timestamp == at)
        },
{
}

/// A symbol the market does not list has no price on a cache miss: no base price
/// is moved and nothing is cached.
pub proof fn lemma_unlisted_symbol_has_no_price<A, T>(s: PriceLookup<A, T>, r: PriceLookup<A, T>)
    requires
        s.phase is ReadingCache,
        !is_listed_symbol(s.symbol@),
        s.transition(PriceEvent::CacheChecked(None), r),
    ensures
        r.phase == PricePhase::<A, T>::Finished(None),
{
}

/// A base price that cannot be read gives no price, and nothing is cached.
pub proof fn lemma_unknown_symbol_has_no_price<A, T>(s: PriceLookup<A, T>, r: PriceLookup<A, T>)
    requires
        s.phase is Drifting,
        s.transition(PriceEvent::Drifted(None), r),
    ensures
        r.phase == PricePhase::<A, T>::Finished(None),
{
}

/// A lookup caches its price under the key that a later lookup of the same symbol
/// reads, for the cache's lifetime; when the cache gives that price back, the
/// later lookup serves it as it is, without moving the base price.
pub proof fn lemma_cached_price_found_again<A, T>(
    first: PriceLookup<A, T>,
    write: PriceAction<A>,
    second: PriceLookup<A, T>,
    read: PriceAction<A>,
    at: T,
    r: PriceLookup<A, T>,
)
    requires
        first.phase is WritingCache,
        first.requests(write),
        second.symbol == first.symbol,
        second.phase is ReadingCache,
        second.requests(read),
        second.transition(PriceEvent::CacheChecked(Some((first.phase->WritingCache_price, at))), r),
    ensures
        write->WriteCache_key@ == read->ReadCache_key@,
        write->WriteCache_ttl_secs == PRICE_CACHE_TTL_SECS,
        r.phase matches PricePhase::Finished(Some(q)) && q.price == first.phase->WritingCache_price,
{
}

/// Every ticker that the market lists (the ones `default_symbols` returns) counts
/// as listed, with none left out.
pub proof fn lemma_every_listed_ticker_is_listed()
    ensures
        forall|i: int| 0 <= i < listed_symbols().len() ==> is_listed_symbol(#[trigger] listed_symbols()[i].0),
{
    assert forall|i: int| 0 <= i < listed_symbols().len() implies is_listed_symbol(#[trigger] listed_symbols()[i].0) by {
        assert(listed_symbols()[i].0 == listed_symbols()[i].0);
    }
}

/// A lookup of any ticker that the market lists, on a cache miss, moves that
/// ticker's base price (and then caches and serves it); it is never answered as
/// an unknown symbol at that point.
pub proof fn lemma_listed_symbol_drifts_on_miss<A, T>(s: PriceLookup<A, T>, i: int, r: PriceLookup<A, T>)
    requires
        s.phase is ReadingCache,
        0 <= i < listed_symbols().len(),
        s.symbol@ == listed_symbols()[i].0,
        s.transition(PriceEvent::CacheChecked(None), r),
    ensures
        r.phase is Drifting,
{
    lemma_every_listed_ticker_is_listed();
    assert(is_listed_symbol(listed_symbols()[i].0));
}

/// The listed instruments that `default_symbols` returns are each served by a
/// lookup on a cache miss: their tickers are listed.
pub proof fn lemma_default_symbols_are_served(symbols: Seq<Symbol>)
    requires
        symbols.len() == listed_symbols().len(),
        forall|i: int| 0 <= i < symbols.len() ==> (#[trigger] symbols[i]).symbol@ == listed_symbols()[i].0,
    ensures
        forall|i: int| 0 <= i < symbols.len() ==> is_listed_symbol((#[trigger] symbols[i]).symbol@),
{
    lemma_every_listed_ticker_is_listed();
    assert forall|i: int| 0 <= i < symbols.len() implies is_listed_symbol((#[trigger] symbols[i]).symbol@) by {
        assert(is_listed_symbol(listed_symbols()[i].0));
    }
}

} // verus!
