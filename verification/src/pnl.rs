//! The profit-and-loss ledger of one symbol.
use vstd::prelude::*;
use crate::account::OrderTradeUpdateEvent;
use crate::decimal::Decimal;
use crate::error::ArithmeticError;
use crate::order::Side;

verus! {

/// `a + b` where both are there.
pub open spec fn opt_add(a: Option<Decimal>, b: Option<Decimal>) -> Option<Decimal> {
    match (a, b) {
        (Some(x), Some(y)) => x.spec_add(y),
        _ => None,
    }
}

/// `a - b` where both are there.
pub open spec fn opt_sub(a: Option<Decimal>, b: Option<Decimal>) -> Option<Decimal> {
    match (a, b) {
        (Some(x), Some(y)) => x.spec_sub(y),
        _ => None,
    }
}

/// `a * b` where both are there.
pub open spec fn opt_mul(a: Option<Decimal>, b: Option<Decimal>) -> Option<Decimal> {
    match (a, b) {
        (Some(x), Some(y)) => x.spec_mul(y),
        _ => None,
    }
}

/// `a / b` where both are there.
pub open spec fn opt_div(a: Option<Decimal>, b: Option<Decimal>) -> Option<Decimal> {
    match (a, b) {
        (Some(x), Some(y)) => x.spec_div(y),
        _ => None,
    }
}

/// Position and PnL of one symbol. The position is signed: long is positive.
#[derive(Debug, Clone, Copy)]
pub struct ProfitAndLoss {
    /// Minus the commissions paid.
    pub execution_pnl: Decimal,
    pub unrealized_pnl: Decimal,
    pub realized_pnl: Decimal,
    pub avg_entry_price: Decimal,
    pub position: Decimal,
    pub buy_qty: Decimal,
    pub sell_qty: Decimal,
    pub buy_amount: Decimal,
    pub sell_amount: Decimal,
}

impl ProfitAndLoss {
    /// The ledger after a buy of `qty` at `price` for the notional `amount`.
    ///
    /// A buy that extends a long or flat position moves the average entry
    /// price to the weighted average; one that reduces a short position
    /// realizes PnL on the bought quantity; one that flips a short position
    /// realizes PnL on the whole short position and enters at `price`.
    pub open spec fn spec_buy(self, price: Decimal, qty: Decimal, amount: Decimal) -> Option<
        ProfitAndLoss,
    > {
        let position = self.position.spec_add(qty);
        let buy_qty = self.buy_qty.spec_add(qty);
        let buy_amount = self.buy_amount.spec_add(amount);
        let realized = if self.position.units() >= 0 {
            Some(self.realized_pnl)
        } else if qty.units() <= -self.position.units() {
            opt_add(
                Some(self.realized_pnl),
                opt_mul(self.avg_entry_price.spec_sub(price), Some(qty)),
            )
        } else {
            opt_add(
                Some(self.realized_pnl),
                opt_mul(price.spec_sub(self.avg_entry_price), Some(self.position)),
            )
        };
        let avg = if self.position.units() >= 0 {
            opt_div(
                opt_add(self.avg_entry_price.spec_mul(self.position), Some(amount)),
                position,
            )
        } else if qty.units() <= -self.position.units() {
            Some(self.avg_entry_price)
        } else {
            Some(price)
        };
        match (position, buy_qty, buy_amount, realized, avg) {
            (Some(position), Some(buy_qty), Some(buy_amount), Some(realized_pnl), Some(avg)) => Some(
                ProfitAndLoss {
                    position,
                    buy_qty,
                    buy_amount,
                    realized_pnl,
                    avg_entry_price: avg,
                    ..self
                },
            ),
            _ => None,
        }
    }

    /// The ledger after a sell of `qty` at `price` for the notional `amount`:
    /// the mirror image of [`ProfitAndLoss::spec_buy`].
    pub open spec fn spec_sell(self, price: Decimal, qty: Decimal, amount: Decimal) -> Option<
        ProfitAndLoss,
    > {
        let position = self.position.spec_sub(qty);
        let sell_qty = self.sell_qty.spec_add(qty);
        let sell_amount = self.sell_amount.spec_add(amount);
        let realized = if self.position.units() <= 0 {
            Some(self.realized_pnl)
        } else if qty.units() <= self.position.units() {
            opt_add(
                Some(self.realized_pnl),
                opt_mul(price.spec_sub(self.avg_entry_price), Some(qty)),
            )
        } else {
            opt_add(
                Some(self.realized_pnl),
                opt_mul(price.spec_sub(self.avg_entry_price), Some(self.position)),
            )
        };
        let avg = if self.position.units() <= 0 {
            match position {
                Some(p) => opt_div(
                    opt_add(
                        self.avg_entry_price.spec_mul(self.position.spec_neg()),
                        Some(amount),
                    ),
                    Some(p.spec_neg()),
                ),
                None => None,
            }
        } else if qty.units() <= self.position.units() {
            Some(self.avg_entry_price)
        } else {
            Some(price)
        };
        match (position, sell_qty, sell_amount, realized, avg) {
            (
                Some(position),
                Some(sell_qty),
                Some(sell_amount),
                Some(realized_pnl),
                Some(avg),
            ) => Some(
                ProfitAndLoss {
                    position,
                    sell_qty,
                    sell_amount,
                    realized_pnl,
                    avg_entry_price: avg,
                    ..self
                },
            ),
            _ => None,
        }
    }

    /// The ledger after a fill: the commission is taken off the execution
    /// PnL, the fill is booked as a buy or a sell, and the unrealized PnL is
    /// marked at the fill price. Nothing when a step overflows or divides by
    /// zero.
    pub open spec fn spec_trade(
        self,
        side: Side,
        price: Decimal,
        qty: Decimal,
        commission: Decimal,
    ) -> Option<ProfitAndLoss> {
        match (self.execution_pnl.spec_sub(commission), price.spec_mul(qty)) {
            (Some(execution_pnl), Some(amount)) => {
                let start = ProfitAndLoss { execution_pnl, ..self };
                let booked = match side {
                    Side::Buy => start.spec_buy(price, qty, amount),
                    Side::Sell => start.spec_sell(price, qty, amount),
                };
                match booked {
                    Some(b) => match opt_mul(price.spec_sub(b.avg_entry_price), Some(b.position)) {
                        Some(unrealized_pnl) => Some(ProfitAndLoss { unrealized_pnl, ..b }),
                        None => None,
                    },
                    None => None,
                }
            },
            _ => None,
        }
    }

    /// The ledger after the fill that an order update reports.
    pub open spec fn spec_on_update(self, update_event: OrderTradeUpdateEvent) -> Option<
        ProfitAndLoss,
    > {
        self.spec_trade(
            update_event.update.side,
            update_event.update.last_filled_price,
            update_event.update.last_filled_qty,
            update_event.update.commission,
        )
    }

    /// A ledger that starts at the given entry price and position, with
    /// everything else at zero.
    pub open spec fn spec_new(init_price: Decimal, init_pos: Decimal) -> ProfitAndLoss {
        let zero = Decimal::from_parts(0, 0);
        ProfitAndLoss {
            execution_pnl: zero,
            unrealized_pnl: zero,
            realized_pnl: zero,
            avg_entry_price: init_price,
            position: init_pos,
            buy_qty: zero,
            sell_qty: zero,
            buy_amount: zero,
            sell_amount: zero,
        }
    }

    /// A ledger that starts at the given entry price and position.
    pub fn new(init_price: Decimal, init_pos: Decimal) -> (r: Self)
        ensures
            r == ProfitAndLoss::spec_new(init_price, init_pos),
            r.execution_pnl.units() == 0,
            r.realized_pnl.units() == 0,
    {
        let zero = Decimal::zero();
        ProfitAndLoss {
            execution_pnl: zero,
            unrealized_pnl: zero,
            realized_pnl: zero,
            avg_entry_price: init_price,
            position: init_pos,
            buy_qty: zero,
            sell_qty: zero,
            buy_amount: zero,
            sell_amount: zero,
        }
    }

    pub fn execution_pnl(&self) -> (r: Decimal)
        ensures
            r == self.execution_pnl,
    {
        self.execution_pnl
    }

    pub fn unrealized_pnl(&self) -> (r: Decimal)
        ensures
            r == self.unrealized_pnl,
    {
        self.unrealized_pnl
    }

    pub fn realized_pnl(&self) -> (r: Decimal)
        ensures
            r == self.realized_pnl,
    {
        self.realized_pnl
    }

    pub fn avg_entry_price(&self) -> (r: &Decimal)
        ensures
            *r == self.avg_entry_price,
    {
        &self.avg_entry_price
    }

    pub fn position(&self) -> (r: Decimal)
        ensures
            r == self.position,
    {
        self.position
    }

    pub fn buy_qty(&self) -> (r: &Decimal)
        ensures
            *r == self.buy_qty,
    {
        &self.buy_qty
    }

    pub fn sell_qty(&self) -> (r: &Decimal)
        ensures
            *r == self.sell_qty,
    {
        &self.sell_qty
    }

    pub fn buy_amount(&self) -> (r: Decimal)
        ensures
            r == self.buy_amount,
    {
        self.buy_amount
    }

    pub fn sell_amount(&self) -> (r: Decimal)
        ensures
            r == self.sell_amount,
    {
        self.sell_amount
    }

    /// Books a buy; see [`ProfitAndLoss::spec_buy`].
    fn handle_buy(&self, price: Decimal, qty: Decimal, amount: Decimal) -> (r: Option<
        ProfitAndLoss,
    >)
        ensures
            r == self.spec_buy(price, qty, amount),
    {
        let old_pos = self.position;
        let position = old_pos.checked_add(&qty);
        let buy_qty = self.buy_qty.checked_add(&qty);
        let buy_amount = self.buy_amount.checked_add(&amount);
        let mut realized = Some(self.realized_pnl);
        let mut avg = Some(self.avg_entry_price);
        if !old_pos.is_negative() {
            let held = self.avg_entry_price.checked_mul(&old_pos);
            let total_cost = add_both(held, Some(amount));
            avg = div_both(total_cost, position);
        } else if qty.at_most(&old_pos.neg()) {
            let gain = mul_both(self.avg_entry_price.checked_sub(&price), Some(qty));
            realized = add_both(Some(self.realized_pnl), gain);
        } else {
            let gain = mul_both(price.checked_sub(&self.avg_entry_price), Some(old_pos));
            realized = add_both(Some(self.realized_pnl), gain);
            avg = Some(price);
        }
        match (position, buy_qty, buy_amount, realized, avg) {
            (Some(position), Some(buy_qty), Some(buy_amount), Some(realized_pnl), Some(avg)) => Some(
                ProfitAndLoss {
                    execution_pnl: self.execution_pnl,
                    unrealized_pnl: self.unrealized_pnl,
                    realized_pnl,
                    avg_entry_price: avg,
                    position,
                    buy_qty,
                    sell_qty: self.sell_qty,
                    buy_amount,
                    sell_amount: self.sell_amount,
                },
            ),
            _ => None,
        }
    }

    /// Books a sell; see [`ProfitAndLoss::spec_sell`].
    fn handle_sell(&self, price: Decimal, qty: Decimal, amount: Decimal) -> (r: Option<
        ProfitAndLoss,
    >)
        ensures
            r == self.spec_sell(price, qty, amount),
    {
        let old_pos = self.position;
        let position = old_pos.checked_sub(&qty);
        let sell_qty = self.sell_qty.checked_add(&qty);
        let sell_amount = self.sell_amount.checked_add(&amount);
        let mut realized = Some(self.realized_pnl);
        let mut avg = Some(self.avg_entry_price);
        if !old_pos.is_positive() {
            avg = match position {
                Some(p) => {
                    let held = self.avg_entry_price.checked_mul(&old_pos.neg());
                    let total_cost = add_both(held, Some(amount));
                    div_both(total_cost, Some(p.neg()))
                },
                None => None,
            };
        } else if qty.at_most(&old_pos) {
            let gain = mul_both(price.checked_sub(&self.avg_entry_price), Some(qty));
            realized = add_both(Some(self.realized_pnl), gain);
        } else {
            let gain = mul_both(price.checked_sub(&self.avg_entry_price), Some(old_pos));
            realized = add_both(Some(self.realized_pnl), gain);
            avg = Some(price);
        }
        match (position, sell_qty, sell_amount, realized, avg) {
            (
                Some(position),
                Some(sell_qty),
                Some(sell_amount),
                Some(realized_pnl),
                Some(avg),
            ) => Some(
                ProfitAndLoss {
                    execution_pnl: self.execution_pnl,
                    unrealized_pnl: self.unrealized_pnl,
                    realized_pnl,
                    avg_entry_price: avg,
                    position,
                    buy_qty: self.buy_qty,
                    sell_qty,
                    buy_amount: self.buy_amount,
                    sell_amount,
                },
            ),
            _ => None,
        }
    }

    /// The ledger after a fill; see [`ProfitAndLoss::spec_trade`].
    pub fn after_trade(&self, side: Side, price: Decimal, qty: Decimal, commission: Decimal) -> (r:
        Option<ProfitAndLoss>)
        ensures
            r == self.spec_trade(side, price, qty, commission),
    {
        let execution_pnl = self.execution_pnl.checked_sub(&commission)?;
        let amount = price.checked_mul(&qty)?;
        let start = ProfitAndLoss {
            execution_pnl,
            unrealized_pnl: self.unrealized_pnl,
            realized_pnl: self.realized_pnl,
            avg_entry_price: self.avg_entry_price,
            position: self.position,
            buy_qty: self.buy_qty,
            sell_qty: self.sell_qty,
            buy_amount: self.buy_amount,
            sell_amount: self.sell_amount,
        };
        let booked = match side {
            Side::Buy => start.handle_buy(price, qty, amount),
            Side::Sell => start.handle_sell(price, qty, amount),
        }?;
        let unrealized_pnl = mul_both(
            price.checked_sub(&booked.avg_entry_price),
            Some(booked.position),
        )?;
        Some(
            ProfitAndLoss {
                execution_pnl: booked.execution_pnl,
                unrealized_pnl,
                realized_pnl: booked.realized_pnl,
                avg_entry_price: booked.avg_entry_price,
                position: booked.position,
                buy_qty: booked.buy_qty,
                sell_qty: booked.sell_qty,
                buy_amount: booked.buy_amount,
                sell_amount: booked.sell_amount,
            },
        )
    }

    /// Books the fill that an order update reports. On an arithmetic error
    /// the ledger stays as it was.
    pub fn on_update_received(&mut self, update_event: &OrderTradeUpdateEvent) -> (r: Result<
        (),
        ArithmeticError,
    >)
        ensures
            match old(self).spec_on_update(*update_event) {
                Some(after) => r.is_ok() && *final(self) == after,
                None => r.is_err() && *final(self) == *old(self),
            },
    {
        let after = self.after_trade(
            update_event.side(),
            update_event.last_filled_price(),
            update_event.last_filled_qty(),
            update_event.commission(),
        );
        match after {
            Some(ledger) => {
                *self = ledger;
                Ok(())
            },
            None => Err(ArithmeticError),
        }
    }
}

impl ProfitAndLoss {
    /// Whether a buy of `qty` at `price` on this ledger, followed by a sell
    /// of the same quantity at the same price, runs without rounding in the
    /// steps that decide position, realized PnL and execution PnL: the
    /// commissions come off exactly, the position moves exactly, the average
    /// entry price after the buy is `price`, and the gain of the sell is
    /// computed and booked exactly.
    pub open spec fn round_trip_is_exact(
        self,
        price: Decimal,
        qty: Decimal,
        buy_commission: Decimal,
        sell_commission: Decimal,
    ) -> bool {
        match self.spec_trade(Side::Buy, price, qty, buy_commission) {
            Some(bought) => {
                &&& self.execution_pnl.subtracts_exactly(buy_commission)
                &&& self.position.adds_exactly(qty)
                &&& bought.avg_entry_price.units() == price.units()
                &&& bought.execution_pnl.subtracts_exactly(sell_commission)
                &&& bought.position.subtracts_exactly(qty)
                &&& price.subtracts_exactly(bought.avg_entry_price)
                &&& match price.spec_sub(bought.avg_entry_price) {
                    Some(edge) => edge.multiplies_exactly(qty) && match edge.spec_mul(qty) {
                        Some(gain) => self.realized_pnl.adds_exactly(gain),
                        None => false,
                    },
                    None => false,
                }
            },
            None => false,
        }
    }

    /// Buying a quantity on a flat ledger and selling it back at the same
    /// price leaves the position flat and the realized PnL as it was, and
    /// takes exactly the two commissions off the execution PnL, as long as
    /// the arithmetic on the way does not round
    /// ([`ProfitAndLoss::round_trip_is_exact`]).
    pub proof fn lemma_round_trip(
        self,
        price: Decimal,
        qty: Decimal,
        buy_commission: Decimal,
        sell_commission: Decimal,
    )
        requires
            self.position.units() == 0,
            qty.units() > 0,
            self.round_trip_is_exact(price, qty, buy_commission, sell_commission),
        ensures
            match self.spec_trade(Side::Buy, price, qty, buy_commission) {
                Some(bought) => match bought.spec_trade(Side::Sell, price, qty, sell_commission) {
                    Some(sold) => {
                        &&& sold.position.units() == 0
                        &&& sold.realized_pnl.units() == self.realized_pnl.units()
                        &&& sold.execution_pnl.units() == self.execution_pnl.units()
                            - buy_commission.units() - sell_commission.units()
                    },
                    None => true,
                },
                None => false,
            },
    {
        let bought = self.spec_trade(Side::Buy, price, qty, buy_commission).unwrap();
        let paid = self.execution_pnl.spec_sub(buy_commission).unwrap();
        let amount = price.spec_mul(qty).unwrap();
        let start = ProfitAndLoss { execution_pnl: paid, ..self };
        let booked = start.spec_buy(price, qty, amount).unwrap();
        assert(bought.position == booked.position);
        assert(bought.realized_pnl == self.realized_pnl);
        assert(bought.execution_pnl == paid);
        assert(bought.position.units() == qty.units());
        if let Some(sold) = bought.spec_trade(Side::Sell, price, qty, sell_commission) {
            let paid2 = bought.execution_pnl.spec_sub(sell_commission).unwrap();
            let amount2 = price.spec_mul(qty).unwrap();
            let start2 = ProfitAndLoss { execution_pnl: paid2, ..bought };
            let booked2 = start2.spec_sell(price, qty, amount2).unwrap();
            let edge = price.spec_sub(bought.avg_entry_price).unwrap();
            let gain = edge.spec_mul(qty).unwrap();
            assert(edge.units() == 0);
            assert(gain.units() * crate::decimal::pow10(crate::decimal::MAX_SCALE as nat) == 0) by {
                assert(edge.units() * qty.units() == 0) by (nonlinear_arith)
                    requires
                        edge.units() == 0,
                ;
            }
            crate::decimal::lemma_pow10_positive(crate::decimal::MAX_SCALE as nat);
            crate::decimal::lemma_sign_of_product(
                gain.units(),
                crate::decimal::pow10(crate::decimal::MAX_SCALE as nat) as int,
            );
            assert(gain.units() == 0);
            assert(sold.position == booked2.position);
            assert(sold.realized_pnl == booked2.realized_pnl);
            assert(sold.execution_pnl == paid2);
        }
    }
}

/// `a + b` where both are there.
fn add_both(a: Option<Decimal>, b: Option<Decimal>) -> (r: Option<Decimal>)
    ensures
        r == opt_add(a, b),
{
    match (a, b) {
        (Some(x), Some(y)) => x.checked_add(&y),
        _ => None,
    }
}

/// `a * b` where both are there.
fn mul_both(a: Option<Decimal>, b: Option<Decimal>) -> (r: Option<Decimal>)
    ensures
        r == opt_mul(a, b),
{
    match (a, b) {
        (Some(x), Some(y)) => x.checked_mul(&y),
        _ => None,
    }
}

/// `a / b` where both are there.
fn div_both(a: Option<Decimal>, b: Option<Decimal>) -> (r: Option<Decimal>)
    ensures
        r == opt_div(a, b),
{
    match (a, b) {
        (Some(x), Some(y)) => x.checked_div(&y),
        _ => None,
    }
}

} // verus!
