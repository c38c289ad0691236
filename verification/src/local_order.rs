//! The client's own record of an order it has sent.
use vstd::prelude::*;
use crate::account::OrderTradeUpdateEvent;
use crate::clock::now_millis;
use crate::decimal::Decimal;
use crate::ids::fresh_client_id;
use crate::market::Timestamp;
use crate::order::{ClientId, OrderKind, OrderStatus, Side, Symbol, TimeInForce};

verus! {

/// Local record of an order. `orig_price` and `orig_qty` are what was
/// placed; `curr_price` and `curr_qty` are those of the latest fill.
#[derive(Debug, Clone, Copy)]
pub struct Order {
    pub symbol: Symbol,
    pub side: Side,
    pub start_ts: Timestamp,
    /// The venue's id, unknown until its first update.
    pub order_id: Option<u64>,
    pub client_order_id: ClientId,
    pub last_update_ts: Timestamp,
    pub kind: OrderKind,
    pub curr_price: Decimal,
    pub curr_qty: Decimal,
    pub orig_price: Decimal,
    pub orig_qty: Decimal,
    pub time_in_force: TimeInForce,
    pub good_till_date: Option<u64>,
    pub status: Option<OrderStatus>,
}

impl Order {
    /// The record of a new order created at `now` under the identifier
    /// `client_order_id`.
    pub open spec fn spec_created(
        symbol: Symbol,
        side: Side,
        kind: OrderKind,
        price: Decimal,
        quantity: Decimal,
        time_in_force: TimeInForce,
        good_till_date: Option<u64>,
        now: Timestamp,
        client_order_id: ClientId,
    ) -> Order {
        Order {
            symbol,
            side,
            start_ts: now,
            order_id: None,
            client_order_id,
            last_update_ts: now,
            kind,
            curr_price: price,
            curr_qty: quantity,
            orig_price: price,
            orig_qty: quantity,
            time_in_force,
            good_till_date,
            status: None,
        }
    }

    /// The record after an update from the venue: the venue's id, status,
    /// kind and the latest fill are taken over, and the update's transaction
    /// time becomes the time of the last update.
    pub open spec fn spec_updated(self, update_event: OrderTradeUpdateEvent) -> Order {
        Order {
            last_update_ts: update_event.transaction_time,
            order_id: Some(update_event.update.order_id),
            status: Some(update_event.update.order_status),
            curr_price: update_event.update.last_filled_price,
            curr_qty: update_event.update.last_filled_qty,
            kind: update_event.update.order_kind,
            ..self
        }
    }

    /// Whether the order has gone without an update for at least `max_age`
    /// milliseconds at time `now`.
    pub open spec fn is_stale(self, now: Timestamp, max_age: i64) -> bool {
        now - self.last_update_ts >= max_age
    }

    /// A new record with the given creation time and identifier.
    pub fn new_at(
        symbol: Symbol,
        side: Side,
        kind: OrderKind,
        price: Decimal,
        quantity: Decimal,
        time_in_force: TimeInForce,
        good_till_date: Option<u64>,
        now: Timestamp,
        client_order_id: ClientId,
    ) -> (r: Order)
        ensures
            r == Order::spec_created(
                symbol,
                side,
                kind,
                price,
                quantity,
                time_in_force,
                good_till_date,
                now,
                client_order_id,
            ),
    {
        Order {
            symbol,
            side,
            start_ts: now,
            order_id: None,
            client_order_id,
            last_update_ts: now,
            kind,
            curr_price: price,
            curr_qty: quantity,
            orig_price: price,
            orig_qty: quantity,
            time_in_force,
            good_till_date,
            status: None,
        }
    }

    /// A new record, created now under a fresh random identifier.
    pub fn new(
        symbol: Symbol,
        side: Side,
        kind: OrderKind,
        price: Decimal,
        quantity: Decimal,
        time_in_force: TimeInForce,
        good_till_date: Option<u64>,
    ) -> (r: Order)
        ensures
            r == Order::spec_created(
                symbol,
                side,
                kind,
                price,
                quantity,
                time_in_force,
                good_till_date,
                r.start_ts,
                r.client_order_id,
            ),
    {
        Order::new_at(
            symbol,
            side,
            kind,
            price,
            quantity,
            time_in_force,
            good_till_date,
            now_millis(),
            fresh_client_id(),
        )
    }

    /// Takes over what an update from the venue says about the order.
    pub fn on_update_received(&mut self, update_event: &OrderTradeUpdateEvent)
        ensures
            *final(self) == old(self).spec_updated(*update_event),
    {
        self.last_update_ts = update_event.transaction_time();
        self.order_id = Some(update_event.order_id());
        self.status = Some(update_event.order_status());
        self.curr_price = update_event.last_filled_price();
        self.curr_qty = update_event.last_filled_qty();
        self.kind = update_event.order_kind();
    }

    /// Whether the order is stale at `now`; see [`Order::is_stale`].
    pub fn stale_at(&self, now: Timestamp, max_age: i64) -> (b: bool)
        ensures
            b == self.is_stale(now, max_age),
    {
        let age: i128 = now as i128 - self.last_update_ts as i128;
        age >= max_age as i128
    }

    pub fn symbol(&self) -> (r: &Symbol)
        ensures
            *r == self.symbol,
    {
        &self.symbol
    }

    pub fn side(&self) -> (r: &Side)
        ensures
            *r == self.side,
    {
        &self.side
    }

    pub fn start_ts(&self) -> (r: Timestamp)
        ensures
            r == self.start_ts,
    {
        self.start_ts
    }

    pub fn order_id(&self) -> (r: &Option<u64>)
        ensures
            *r == self.order_id,
    {
        &self.order_id
    }

    pub fn client_order_id(&self) -> (r: ClientId)
        ensures
            r == self.client_order_id,
    {
        self.client_order_id
    }

    pub fn last_update_ts(&self) -> (r: Timestamp)
        ensures
            r == self.last_update_ts,
    {
        self.last_update_ts
    }

    pub fn kind(&self) -> (r: &OrderKind)
        ensures
            *r == self.kind,
    {
        &self.kind
    }

    pub fn curr_price(&self) -> (r: &Decimal)
        ensures
            *r == self.curr_price,
    {
        &self.curr_price
    }

    pub fn curr_qty(&self) -> (r: &Decimal)
        ensures
            *r == self.curr_qty,
    {
        &self.curr_qty
    }

    pub fn orig_price(&self) -> (r: &Decimal)
        ensures
            *r == self.orig_price,
    {
        &self.orig_price
    }

    pub fn orig_qty(&self) -> (r: &Decimal)
        ensures
            *r == self.orig_qty,
    {
        &self.orig_qty
    }

    pub fn time_in_force(&self) -> (r: &TimeInForce)
        ensures
            *r == self.time_in_force,
    {
        &self.time_in_force
    }

    pub fn good_till_date(&self) -> (r: &Option<u64>)
        ensures
            *r == self.good_till_date,
    {
        &self.good_till_date
    }

    pub fn status(&self) -> (r: &Option<OrderStatus>)
        ensures
            *r == self.status,
    {
        &self.status
    }
}

} // verus!
