//! Quoting strategies: from the trading state to the orders to place.
use smallvec::SmallVec;
use vstd::prelude::*;
use crate::book::BboPair;
use crate::clock::now_millis;
use crate::decimal::Decimal;
use crate::engine::State;
use crate::ids::fresh_client_id;
use crate::local_order::Order;
use crate::market::Timestamp;
use crate::order::{ClientId, OrderKind, Side, Symbol, TimeInForce};
use crate::pnl::{opt_add, opt_div, opt_sub};

verus! {

/// A batch of quotes: at most a few orders, kept inline in a
/// `smallvec::SmallVec`.
#[verifier::external_body]
#[derive(Debug)]
pub struct Quotes {
    items: SmallVec<[Order; 2]>,
}

/// The orders that a batch of quotes holds, in order.
pub uninterp spec fn quote_items(quotes: Quotes) -> Seq<Order>;

/// Calls `SmallVec::new`: a batch without orders.
#[verifier::external_body]
fn no_quotes() -> (quotes: Quotes)
    ensures
        quote_items(quotes) == Seq::<Order>::empty(),
{
    Quotes { items: SmallVec::new() }
}

/// Calls `SmallVec::from_slice`, which copies the items of the slice: a
/// batch that holds the two orders, buy first.
#[verifier::external_body]
fn quote_pair(buy: Order, sell: Order) -> (quotes: Quotes)
    ensures
        quote_items(quotes) == seq![buy, sell],
{
    Quotes { items: SmallVec::from_slice(&[buy, sell]) }
}

/// Calls `SmallVec::as_slice`: the orders of a batch as a slice.
#[verifier::external_body]
pub(crate) fn quotes_as_slice(quotes: &Quotes) -> (orders: &[Order])
    ensures
        orders@ == quote_items(*quotes),
{
    quotes.items.as_slice()
}

impl Quotes {
    /// The orders of the batch, in order.
    pub fn to_vec(&self) -> (orders: Vec<Order>)
        ensures
            orders@ == quote_items(*self),
    {
        let items = quotes_as_slice(self);
        let mut orders: Vec<Order> = Vec::new();
        let mut k: usize = 0;
        while k < items.len()
            invariant
                k <= items.len(),
                orders@ == items@.subrange(0, k as int),
            decreases items.len() - k,
        {
            orders.push(items[k]);
            assert(items@.subrange(0, k as int).push(items@[k as int]) =~= items@.subrange(
                0,
                k + 1,
            ));
            k += 1;
        }
        assert(items@.subrange(0, items@.len() as int) =~= items@);
        orders
    }

    /// The number of orders in the batch.
    pub fn len(&self) -> (n: usize)
        ensures
            n == quote_items(*self).len(),
    {
        quotes_as_slice(self).len()
    }
}

/// A way to turn the trading state into orders.
pub trait Strategy {
    /// The orders to place for `symbol` in the given state.
    fn generate_quotes(symbol: Symbol, state: &State) -> Quotes
        requires
            state.wf(),
    ;
}

/// Prices of the two quotes around the mid of best bid and best ask: half
/// the spread below the mid and half the spread above it, buy price first.
/// Nothing when a step of the computation overflows.
pub open spec fn quote_prices(bid: Decimal, ask: Decimal) -> Option<(Decimal, Decimal)> {
    let two = Decimal::from_parts(2, 0);
    let spread = ask.spec_sub(bid);
    let mid = opt_div(ask.spec_add(bid), Some(two));
    let half = opt_div(spread, Some(two));
    match (opt_sub(mid, half), opt_add(mid, half)) {
        (Some(buy), Some(sell)) => Some((buy, sell)),
        _ => None,
    }
}

/// The quotes for a best bid/offer: one limit buy and one limit sell of one
/// unit each, good until canceled, created at `now` under the given
/// identifiers. No quotes without a best bid/offer, or when the prices
/// cannot be computed.
pub open spec fn quotes_for(
    symbol: Symbol,
    bbo: Option<BboPair>,
    now: Timestamp,
    buy_id: ClientId,
    sell_id: ClientId,
) -> Seq<Order> {
    match bbo {
        Some((bid, ask)) => match quote_prices(bid.price, ask.price) {
            Some((buy, sell)) => seq![
                Order::spec_created(
                    symbol,
                    Side::Buy,
                    OrderKind::Limit,
                    buy,
                    Decimal::from_parts(1, 0),
                    TimeInForce::GoodUntilCancel,
                    None,
                    now,
                    buy_id,
                ),
                Order::spec_created(
                    symbol,
                    Side::Sell,
                    OrderKind::Limit,
                    sell,
                    Decimal::from_parts(1, 0),
                    TimeInForce::GoodUntilCancel,
                    None,
                    now,
                    sell_id,
                ),
            ],
            None => Seq::empty(),
        },
        None => Seq::empty(),
    }
}

/// Computes the prices of the two quotes; see [`quote_prices`].
pub fn quote_prices_of(bid: Decimal, ask: Decimal) -> (r: Option<(Decimal, Decimal)>)
    ensures
        r == quote_prices(bid, ask),
{
    let two = Decimal::two();
    proof {
        two.lemma_from_parts();
    }
    let spread = ask.checked_sub(&bid);
    let sum = ask.checked_add(&bid);
    let mid = match sum {
        Some(s) => s.checked_div(&two),
        None => None,
    };
    let half = match spread {
        Some(s) => s.checked_div(&two),
        None => None,
    };
    match (mid, half) {
        (Some(m), Some(h)) => match (m.checked_sub(&h), m.checked_add(&h)) {
            (Some(buy), Some(sell)) => Some((buy, sell)),
            _ => None,
        },
        _ => None,
    }
}

/// Quotes both sides of the best bid/offer.
pub struct QuoteStrategy;

impl QuoteStrategy {
    /// The quotes for a best bid/offer, created at `now` under the given
    /// identifiers; see [`quotes_for`].
    pub fn quotes_at(
        symbol: Symbol,
        bbo: Option<BboPair>,
        now: Timestamp,
        buy_id: ClientId,
        sell_id: ClientId,
    ) -> (quotes: Quotes)
        ensures
            quote_items(quotes) == quotes_for(symbol, bbo, now, buy_id, sell_id),
    {
        match bbo {
            Some((bid, ask)) => match quote_prices_of(bid.price, ask.price) {
                Some((buy, sell)) => {
                    let one = Decimal::one();
                    proof {
                        one.lemma_from_parts();
                    }
                    quote_pair(
                        Order::new_at(
                            symbol,
                            Side::Buy,
                            OrderKind::Limit,
                            buy,
                            one,
                            TimeInForce::GoodUntilCancel,
                            None,
                            now,
                            buy_id,
                        ),
                        Order::new_at(
                            symbol,
                            Side::Sell,
                            OrderKind::Limit,
                            sell,
                            one,
                            TimeInForce::GoodUntilCancel,
                            None,
                            now,
                            sell_id,
                        ),
                    )
                },
                None => no_quotes(),
            },
            None => no_quotes(),
        }
    }
}

impl Strategy for QuoteStrategy {
    /// Quotes both sides of the symbol's best bid/offer with fresh
    /// identifiers and the current time.
    fn generate_quotes(symbol: Symbol, state: &State) -> (quotes: Quotes)
        ensures
            exists|now: Timestamp, buy_id: ClientId, sell_id: ClientId|
                quote_items(quotes) == #[trigger] quotes_for(
                    symbol,
                    state.bbo(symbol),
                    now,
                    buy_id,
                    sell_id,
                ),
    {
        let now = now_millis();
        let buy_id = fresh_client_id();
        let sell_id = fresh_client_id();
        QuoteStrategy::quotes_at(symbol, state.bbo_level(symbol), now, buy_id, sell_id)
    }
}

} // verus!
