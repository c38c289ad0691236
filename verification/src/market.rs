//! Market data payloads: order book levels and deltas, trades and best
//! bid/offer tickers.
use vstd::prelude::*;
use crate::decimal::Decimal;
use crate::order::Symbol;

verus! {

/// A moment in time, in milliseconds since the Unix epoch.
pub type Timestamp = i64;

/// Sequence number of an order book update.
pub type OrderBookUpdateId = u64;

/// One price level of a book side. In a delta, a zero quantity asks for the
/// level to be removed.
#[derive(Debug, Clone, Copy)]
pub struct Level {
    pub price: Decimal,
    pub quantity: Decimal,
}

impl Level {
    pub fn new(price: Decimal, quantity: Decimal) -> (r: Self)
        ensures
            r == (Level { price, quantity }),
    {
        Level { price, quantity }
    }
}

impl From<(Decimal, Decimal)> for Level {
    fn from(pair: (Decimal, Decimal)) -> (r: Level) {
        Level { price: pair.0, quantity: pair.1 }
    }
}

impl vstd::std_specs::convert::FromSpecImpl<(Decimal, Decimal)> for Level {
    open spec fn obeys_from_spec() -> bool {
        true
    }

    open spec fn from_spec(pair: (Decimal, Decimal)) -> Level {
        Level { price: pair.0, quantity: pair.1 }
    }
}

impl From<(&Decimal, &Decimal)> for Level {
    fn from(pair: (&Decimal, &Decimal)) -> (r: Level) {
        Level { price: *pair.0, quantity: *pair.1 }
    }
}

impl vstd::std_specs::convert::FromSpecImpl<(&Decimal, &Decimal)> for Level {
    open spec fn obeys_from_spec() -> bool {
        true
    }

    open spec fn from_spec(pair: (&Decimal, &Decimal)) -> Level {
        Level { price: *pair.0, quantity: *pair.1 }
    }
}

impl From<Level> for (Decimal, Decimal) {
    fn from(level: Level) -> (r: (Decimal, Decimal)) {
        (level.price, level.quantity)
    }
}

impl vstd::std_specs::convert::FromSpecImpl<Level> for (Decimal, Decimal) {
    open spec fn obeys_from_spec() -> bool {
        true
    }

    open spec fn from_spec(level: Level) -> (Decimal, Decimal) {
        (level.price, level.quantity)
    }
}

/// An incremental update of the order book: the levels that changed between two update ids.
#[derive(Debug, Clone)]
pub struct Depth {
    pub event_time: Timestamp,
    pub transaction_time: Timestamp,
    pub symbol: Symbol,
    /// First update id that the delta covers.
    pub first_update_id: OrderBookUpdateId,
    /// Last update id that the delta covers.
    pub final_update_id: OrderBookUpdateId,
    /// `final_update_id` of the delta that came before this one.
    pub last_final_update_id: OrderBookUpdateId,
    pub bids: Vec<Level>,
    pub asks: Vec<Level>,
}

impl Depth {
    pub fn new(
        event_time: Timestamp,
        transaction_time: Timestamp,
        symbol: Symbol,
        first_update_id: OrderBookUpdateId,
        final_update_id: OrderBookUpdateId,
        last_final_update_id: OrderBookUpdateId,
        bids: Vec<Level>,
        asks: Vec<Level>,
    ) -> (r: Self)
        ensures
            r == (Depth { event_time, transaction_time, symbol, first_update_id, final_update_id, last_final_update_id, bids, asks }),
    {
        Depth { event_time, transaction_time, symbol, first_update_id, final_update_id, last_final_update_id, bids, asks }
    }

    pub fn event_time(&self) -> (r: Timestamp)
        ensures
            r == self.event_time,
    {
        self.event_time
    }

    pub fn transaction_time(&self) -> (r: Timestamp)
        ensures
            r == self.transaction_time,
    {
        self.transaction_time
    }

    pub fn symbol(&self) -> (r: Symbol)
        ensures
            r == self.symbol,
    {
        self.symbol
    }

    pub fn first_update_id(&self) -> (r: &OrderBookUpdateId)
        ensures
            *r == self.first_update_id,
    {
        &self.first_update_id
    }

    pub fn final_update_id(&self) -> (r: &OrderBookUpdateId)
        ensures
            *r == self.final_update_id,
    {
        &self.final_update_id
    }

    pub fn last_final_update_id(&self) -> (r: &OrderBookUpdateId)
        ensures
            *r == self.last_final_update_id,
    {
        &self.last_final_update_id
    }

    pub fn bids(&self) -> (r: &Vec<Level>)
        ensures
            *r == self.bids,
    {
        &self.bids
    }

    pub fn asks(&self) -> (r: &Vec<Level>)
        ensures
            *r == self.asks,
    {
        &self.asks
    }
}

/// An aggregated trade.
#[derive(Debug, Clone, Copy)]
pub struct AggTrade {
    pub event_time: Timestamp,
    pub transaction_time: Timestamp,
    pub symbol: Symbol,
    pub agg_trade_id: u64,
    pub price: Decimal,
    pub quantity: Decimal,
    pub first_trade_id: u64,
    pub last_trade_id: u64,
    pub is_maker: bool,
}

impl AggTrade {
    pub fn new(
        event_time: Timestamp,
        transaction_time: Timestamp,
        symbol: Symbol,
        agg_trade_id: u64,
        price: Decimal,
        quantity: Decimal,
        first_trade_id: u64,
        last_trade_id: u64,
        is_maker: bool,
    ) -> (r: Self)
        ensures
            r == (AggTrade { event_time, transaction_time, symbol, agg_trade_id, price, quantity, first_trade_id, last_trade_id, is_maker }),
    {
        AggTrade { event_time, transaction_time, symbol, agg_trade_id, price, quantity, first_trade_id, last_trade_id, is_maker }
    }

    pub fn event_time(&self) -> (r: Timestamp)
        ensures
            r == self.event_time,
    {
        self.event_time
    }

    pub fn transaction_time(&self) -> (r: Timestamp)
        ensures
            r == self.transaction_time,
    {
        self.transaction_time
    }

    pub fn symbol(&self) -> (r: Symbol)
        ensures
            r == self.symbol,
    {
        self.symbol
    }

    pub fn agg_trade_id(&self) -> (r: u64)
        ensures
            r == self.agg_trade_id,
    {
        self.agg_trade_id
    }

    pub fn price(&self) -> (r: Decimal)
        ensures
            r == self.price,
    {
        self.price
    }

    pub fn quantity(&self) -> (r: Decimal)
        ensures
            r == self.quantity,
    {
        self.quantity
    }

    pub fn first_trade_id(&self) -> (r: u64)
        ensures
            r == self.first_trade_id,
    {
        self.first_trade_id
    }

    pub fn last_trade_id(&self) -> (r: u64)
        ensures
            r == self.last_trade_id,
    {
        self.last_trade_id
    }

    pub fn is_maker(&self) -> (r: bool)
        ensures
            r == self.is_maker,
    {
        self.is_maker
    }
}

/// A single trade.
#[derive(Debug, Clone, Copy)]
pub struct Trade {
    pub event_time: Timestamp,
    pub transaction_time: Timestamp,
    pub symbol: Symbol,
    pub trade_id: u64,
    pub price: Decimal,
    pub quantity: Decimal,
    pub is_maker: bool,
}

impl Trade {
    pub fn new(
        event_time: Timestamp,
        transaction_time: Timestamp,
        symbol: Symbol,
        trade_id: u64,
        price: Decimal,
        quantity: Decimal,
        is_maker: bool,
    ) -> (r: Self)
        ensures
            r == (Trade { event_time, transaction_time, symbol, trade_id, price, quantity, is_maker }),
    {
        Trade { event_time, transaction_time, symbol, trade_id, price, quantity, is_maker }
    }

    pub fn event_time(&self) -> (r: Timestamp)
        ensures
            r == self.event_time,
    {
        self.event_time
    }

    pub fn transaction_time(&self) -> (r: Timestamp)
        ensures
            r == self.transaction_time,
    {
        self.transaction_time
    }

    pub fn symbol(&self) -> (r: Symbol)
        ensures
            r == self.symbol,
    {
        self.symbol
    }

    pub fn trade_id(&self) -> (r: u64)
        ensures
            r == self.trade_id,
    {
        self.trade_id
    }

    pub fn price(&self) -> (r: Decimal)
        ensures
            r == self.price,
    {
        self.price
    }

    pub fn quantity(&self) -> (r: Decimal)
        ensures
            r == self.quantity,
    {
        self.quantity
    }

    pub fn is_maker(&self) -> (r: bool)
        ensures
            r == self.is_maker,
    {
        self.is_maker
    }
}

/// The venue's own best bid and offer.
#[derive(Debug, Clone, Copy)]
pub struct BookTicker {
    pub order_book_update_id: OrderBookUpdateId,
    pub event_time: Timestamp,
    pub transaction_time: Timestamp,
    pub symbol: Symbol,
    pub bid_price: Decimal,
    pub bid_qty: Decimal,
    pub ask_price: Decimal,
    pub ask_qty: Decimal,
}

impl BookTicker {
    pub fn new(
        order_book_update_id: OrderBookUpdateId,
        event_time: Timestamp,
        transaction_time: Timestamp,
        symbol: Symbol,
        bid_price: Decimal,
        bid_qty: Decimal,
        ask_price: Decimal,
        ask_qty: Decimal,
    ) -> (r: Self)
        ensures
            r == (BookTicker { order_book_update_id, event_time, transaction_time, symbol, bid_price, bid_qty, ask_price, ask_qty }),
    {
        BookTicker { order_book_update_id, event_time, transaction_time, symbol, bid_price, bid_qty, ask_price, ask_qty }
    }

    pub fn order_book_update_id(&self) -> (r: &OrderBookUpdateId)
        ensures
            *r == self.order_book_update_id,
    {
        &self.order_book_update_id
    }

    pub fn event_time(&self) -> (r: Timestamp)
        ensures
            r == self.event_time,
    {
        self.event_time
    }

    pub fn transaction_time(&self) -> (r: Timestamp)
        ensures
            r == self.transaction_time,
    {
        self.transaction_time
    }

    pub fn symbol(&self) -> (r: Symbol)
        ensures
            r == self.symbol,
    {
        self.symbol
    }

    pub fn bid_price(&self) -> (r: Decimal)
        ensures
            r == self.bid_price,
    {
        self.bid_price
    }

    pub fn bid_qty(&self) -> (r: Decimal)
        ensures
            r == self.bid_qty,
    {
        self.bid_qty
    }

    pub fn ask_price(&self) -> (r: Decimal)
        ensures
            r == self.ask_price,
    {
        self.ask_price
    }

    pub fn ask_qty(&self) -> (r: Decimal)
        ensures
            r == self.ask_qty,
    {
        self.ask_qty
    }
}

} // verus!
