use ceraunus::account::{ExecutionType, OrderTradeUpdate, OrderTradeUpdateEvent};
use ceraunus::decimal::Decimal;
use ceraunus::order::{OrderKind, OrderStatus, Side, Symbol, TimeInForce};
use ceraunus::pnl::ProfitAndLoss;

fn dec(mantissa: i128, scale: u32) -> Decimal {
    Decimal::new(mantissa, scale).expect("valid decimal")
}

fn same(a: Decimal, b: Decimal) -> bool {
    a.equals(&b)
}

fn flat() -> ProfitAndLoss {
    ProfitAndLoss::new(Decimal::zero(), Decimal::zero())
}

fn trade(side: Side, price: Decimal, quantity: Decimal, commission: Decimal) -> OrderTradeUpdateEvent {
    OrderTradeUpdateEvent::new(
        1,
        2,
        OrderTradeUpdate::new(
            Symbol::SOLUSDT,
            7,
            side,
            OrderKind::Limit,
            TimeInForce::GoodUntilCancel,
            quantity,
            price,
            price,
            ExecutionType::Trade,
            OrderStatus::Filled,
            11,
            quantity,
            quantity,
            price,
            commission,
            3,
            5,
            true,
            Decimal::zero(),
        ),
    )
}

#[test]
fn a_new_ledger_starts_at_the_given_entry() {
    let ledger = ProfitAndLoss::new(dec(100, 0), dec(-2, 0));
    assert!(same(*ledger.avg_entry_price(), dec(100, 0)));
    assert!(same(ledger.position(), dec(-2, 0)));
    for zero in [
        ledger.execution_pnl(),
        ledger.unrealized_pnl(),
        ledger.realized_pnl(),
        *ledger.buy_qty(),
        *ledger.sell_qty(),
        ledger.buy_amount(),
        ledger.sell_amount(),
    ] {
        assert!(zero.is_zero());
    }
}

#[test]
fn buying_and_selling_back_at_the_same_price_nets_to_the_commissions() {
    let mut ledger = flat();
    let price = dec(1005, 1);
    let quantity = dec(25, 1);
    ledger.on_update_received(&trade(Side::Buy, price, quantity, dec(1, 2))).expect("buy");
    assert!(same(ledger.position(), quantity));
    assert!(same(*ledger.avg_entry_price(), price));
    ledger.on_update_received(&trade(Side::Sell, price, quantity, dec(2, 2))).expect("sell");
    assert!(ledger.position().is_zero());
    assert!(ledger.realized_pnl().is_zero());
    assert!(ledger.unrealized_pnl().is_zero());
    assert!(same(ledger.execution_pnl(), dec(-3, 2)));
    assert!(same(*ledger.buy_qty(), quantity));
    assert!(same(*ledger.sell_qty(), quantity));
    assert!(same(ledger.buy_amount(), dec(25125, 2)));
    assert!(same(ledger.sell_amount(), dec(25125, 2)));
}

#[test]
fn extending_a_long_position_averages_the_entry_price() {
    let mut ledger = flat();
    ledger.on_update_received(&trade(Side::Buy, dec(100, 0), dec(1, 0), Decimal::zero())).expect("buy");
    ledger.on_update_received(&trade(Side::Buy, dec(103, 0), dec(3, 0), Decimal::zero())).expect("buy");
    assert!(same(ledger.position(), dec(4, 0)));
    assert!(same(*ledger.avg_entry_price(), dec(10225, 2)));
    assert!(same(ledger.unrealized_pnl(), dec(3, 0)));
    assert!(ledger.realized_pnl().is_zero());

    ledger.on_update_received(&trade(Side::Sell, dec(10425, 2), dec(1, 0), Decimal::zero())).expect("sell");
    assert!(same(ledger.position(), dec(3, 0)));
    assert!(same(ledger.realized_pnl(), dec(2, 0)));
    assert!(same(*ledger.avg_entry_price(), dec(10225, 2)));
    assert!(same(ledger.unrealized_pnl(), dec(6, 0)));
}

#[test]
fn a_rounded_average_is_the_one_of_the_decimal_library() {
    let mut ledger = flat();
    ledger.on_update_received(&trade(Side::Buy, dec(100, 0), dec(1, 0), Decimal::zero())).expect("buy");
    ledger.on_update_received(&trade(Side::Buy, dec(101, 0), dec(2, 0), Decimal::zero())).expect("buy");
    assert_eq!(ledger.avg_entry_price().to_text(), "100.66666666666666666666666667");
}

#[test]
fn selling_through_a_long_position_flips_it() {
    let mut ledger = flat();
    ledger.on_update_received(&trade(Side::Buy, dec(100, 0), dec(2, 0), Decimal::zero())).expect("buy");
    ledger.on_update_received(&trade(Side::Sell, dec(110, 0), dec(5, 0), Decimal::zero())).expect("sell");
    assert!(same(ledger.position(), dec(-3, 0)));
    assert!(same(ledger.realized_pnl(), dec(20, 0)));
    assert!(same(*ledger.avg_entry_price(), dec(110, 0)));
    assert!(ledger.unrealized_pnl().is_zero());
}

#[test]
fn the_short_side_mirrors_the_long_side() {
    let mut ledger = flat();
    ledger.on_update_received(&trade(Side::Sell, dec(50, 0), dec(2, 0), Decimal::zero())).expect("sell");
    assert!(same(ledger.position(), dec(-2, 0)));
    assert!(same(*ledger.avg_entry_price(), dec(50, 0)));
    ledger.on_update_received(&trade(Side::Sell, dec(60, 0), dec(2, 0), Decimal::zero())).expect("sell");
    assert!(same(ledger.position(), dec(-4, 0)));
    assert!(same(*ledger.avg_entry_price(), dec(55, 0)));
    assert!(same(ledger.unrealized_pnl(), dec(-20, 0)));

    ledger.on_update_received(&trade(Side::Buy, dec(40, 0), dec(1, 0), Decimal::zero())).expect("buy");
    assert!(same(ledger.position(), dec(-3, 0)));
    assert!(same(ledger.realized_pnl(), dec(15, 0)));
    assert!(same(*ledger.avg_entry_price(), dec(55, 0)));

    ledger.on_update_received(&trade(Side::Buy, dec(45, 0), dec(5, 0), Decimal::zero())).expect("buy");
    assert!(same(ledger.position(), dec(2, 0)));
    assert!(same(ledger.realized_pnl(), dec(45, 0)));
    assert!(same(*ledger.avg_entry_price(), dec(45, 0)));
}

#[test]
fn a_fill_that_cannot_be_booked_leaves_the_ledger_alone() {
    let mut ledger = flat();
    ledger.on_update_received(&trade(Side::Buy, dec(100, 0), dec(1, 0), dec(1, 2))).expect("buy");
    let empty = trade(Side::Sell, dec(100, 0), dec(1, 0), dec(1, 2));
    ledger.on_update_received(&empty).expect("sell");
    assert!(ledger.position().is_zero());

    let nothing = trade(Side::Buy, dec(100, 0), Decimal::zero(), dec(1, 2));
    assert!(ledger.on_update_received(&nothing).is_err());
    assert!(same(ledger.execution_pnl(), dec(-2, 2)));
    assert!(ledger.position().is_zero());

    let huge = trade(Side::Buy, dec((1i128 << 96) - 1, 0), dec(2, 0), Decimal::zero());
    assert!(ledger.on_update_received(&huge).is_err());
    assert!(same(ledger.execution_pnl(), dec(-2, 2)));
    assert!(ledger.after_trade(Side::Buy, dec(100, 0), Decimal::zero(), Decimal::zero()).is_none());
}

#[test]
fn a_rounded_notional_leaves_a_residue() {
    let mut ledger = flat();
    let price = dec(70_000_000_000_000_000_000_000_000_001, 28);
    let quantity = dec(2, 0);
    ledger.on_update_received(&trade(Side::Buy, price, quantity, Decimal::zero())).expect("buy");
    assert_eq!(ledger.buy_amount().to_text(), "14.000000000000000000000000000");
    assert_eq!(ledger.avg_entry_price().to_text(), "7.000000000000000000000000000");
    ledger.on_update_received(&trade(Side::Sell, price, quantity, Decimal::zero())).expect("sell");
    assert!(ledger.position().is_zero());
    assert_eq!(ledger.realized_pnl().to_text(), "0.0000000000000000000000000002");
}
