//! Responses of the venue.
use vstd::prelude::*;
use crate::decimal::Decimal;
use crate::market::Timestamp;
use crate::order::{ClientId, OrderStatus, Side, Symbol};

verus! {

/// The venue's acknowledgement of an order that was opened or canceled.
#[derive(Debug, Clone, Copy)]
pub struct OrderSuccessResp {
    pub order_id: u64,
    pub symbol: Symbol,
    pub status: OrderStatus,
    pub client_order_id: ClientId,
    /// Quoted price.
    pub price: Decimal,
    /// Quoted quantity.
    pub orig_qty: Decimal,
    /// Filled quantity.
    pub executed_qty: Decimal,
    /// Filled quantity.
    pub cum_qty: Decimal,
    /// Filled notional.
    pub cum_quote: Decimal,
    pub side: Side,
    pub update_time: Timestamp,
}

impl OrderSuccessResp {
    pub fn new(
        order_id: u64,
        symbol: Symbol,
        status: OrderStatus,
        client_order_id: ClientId,
        price: Decimal,
        orig_qty: Decimal,
        executed_qty: Decimal,
        cum_qty: Decimal,
        cum_quote: Decimal,
        side: Side,
        update_time: Timestamp,
    ) -> (r: Self)
        ensures
            r == (OrderSuccessResp { order_id, symbol, status, client_order_id, price, orig_qty, executed_qty, cum_qty, cum_quote, side, update_time }),
    {
        OrderSuccessResp { order_id, symbol, status, client_order_id, price, orig_qty, executed_qty, cum_qty, cum_quote, side, update_time }
    }

    pub fn order_id(&self) -> (r: &u64)
        ensures
            *r == self.order_id,
    {
        &self.order_id
    }

    pub fn symbol(&self) -> (r: Symbol)
        ensures
            r == self.symbol,
    {
        self.symbol
    }

    pub fn status(&self) -> (r: OrderStatus)
        ensures
            r == self.status,
    {
        self.status
    }

    pub fn client_order_id(&self) -> (r: ClientId)
        ensures
            r == self.client_order_id,
    {
        self.client_order_id
    }

    pub fn price(&self) -> (r: Decimal)
        ensures
            r == self.price,
    {
        self.price
    }

    pub fn orig_qty(&self) -> (r: Decimal)
        ensures
            r == self.orig_qty,
    {
        self.orig_qty
    }

    pub fn executed_qty(&self) -> (r: Decimal)
        ensures
            r == self.executed_qty,
    {
        self.executed_qty
    }

    pub fn cum_qty(&self) -> (r: Decimal)
        ensures
            r == self.cum_qty,
    {
        self.cum_qty
    }

    pub fn cum_quote(&self) -> (r: Decimal)
        ensures
            r == self.cum_quote,
    {
        self.cum_quote
    }

    pub fn side(&self) -> (r: Side)
        ensures
            r == self.side,
    {
        self.side
    }

    pub fn update_time(&self) -> (r: Timestamp)
        ensures
            r == self.update_time,
    {
        self.update_time
    }
}

} // verus!
