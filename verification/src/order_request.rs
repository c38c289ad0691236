//! Requests to open an order on a named symbol, whatever the venue.
use vstd::prelude::*;
use crate::decimal::Decimal;
use crate::order::{OrderKind, Side, Symbol, TimeInForce};

verus! {

/// A request to open an order on a named symbol.
#[derive(Debug, Clone, Copy)]
pub struct RequestOpen {
    pub symbol: Symbol,
    pub side: Side,
    pub price: Decimal,
    pub quantity: Decimal,
    pub kind: OrderKind,
    pub time_in_force: TimeInForce,
}

impl RequestOpen {
    pub fn new(
        symbol: Symbol,
        side: Side,
        price: Decimal,
        quantity: Decimal,
        kind: OrderKind,
        time_in_force: TimeInForce,
    ) -> (r: Self)
        ensures
            r == (RequestOpen { symbol, side, price, quantity, kind, time_in_force }),
    {
        RequestOpen { symbol, side, price, quantity, kind, time_in_force }
    }
}

} // verus!
