//! Requests sent to the venue.
use vstd::prelude::*;
use crate::decimal::Decimal;
use crate::order::{ClientId, OrderKind, Side, TimeInForce};

verus! {

/// A request to open an order, as the venue's REST interface takes it.
#[derive(Debug, Clone, Copy)]
pub struct RequestOpen {
    pub side: Side,
    pub price: Decimal,
    pub quantity: Decimal,
    pub kind: OrderKind,
    pub client_order_id: ClientId,
    pub time_in_force: TimeInForce,
    /// Expiry in milliseconds since the epoch; goes with `GoodUntilDate` and with no other time in force.
    pub good_till_date: Option<u64>,
}

impl RequestOpen {
    pub fn new(
        side: Side,
        price: Decimal,
        quantity: Decimal,
        kind: OrderKind,
        client_order_id: ClientId,
        time_in_force: TimeInForce,
        good_till_date: Option<u64>,
    ) -> (r: Self)
        ensures
            r == (RequestOpen { side, price, quantity, kind, client_order_id, time_in_force, good_till_date }),
    {
        RequestOpen { side, price, quantity, kind, client_order_id, time_in_force, good_till_date }
    }

    pub fn side(&self) -> (r: Side)
        ensures
            r == self.side,
    {
        self.side
    }

    pub fn price(&self) -> (r: Decimal)
        ensures
            r == self.price,
    {
        self.price
    }

    pub fn quantity(&self) -> (r: Decimal)
        ensures
            r == self.quantity,
    {
        self.quantity
    }

    pub fn kind(&self) -> (r: OrderKind)
        ensures
            r == self.kind,
    {
        self.kind
    }

    pub fn client_order_id(&self) -> (r: ClientId)
        ensures
            r == self.client_order_id,
    {
        self.client_order_id
    }

    pub fn time_in_force(&self) -> (r: TimeInForce)
        ensures
            r == self.time_in_force,
    {
        self.time_in_force
    }

    pub fn good_till_date(&self) -> (r: Option<u64>)
        ensures
            r == self.good_till_date,
    {
        self.good_till_date
    }
}

impl RequestOpen {
    /// Whether time in force and expiry go together: a good-till-date order
    /// has an expiry and no other order has one.
    pub open spec fn is_consistent(self) -> bool {
        (self.time_in_force == TimeInForce::GoodUntilDate) == self.good_till_date.is_some()
    }
}

} // verus!
