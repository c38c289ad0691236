use ceraunus::decimal::Decimal;
use ceraunus::engine::State;
use ceraunus::market::{BookTicker, Level};
use ceraunus::order::{OrderKind, Side, Symbol, TimeInForce};
use ceraunus::strategy::{quote_prices_of, QuoteStrategy, Strategy};

fn dec(mantissa: i128, scale: u32) -> Decimal {
    Decimal::new(mantissa, scale).expect("valid decimal")
}

#[test]
fn bbo_quote() {
    let mut state = State::new_at(0);
    state.on_book_ticker_received(BookTicker::new(1, 2, 3, Symbol::SOLUSDT, dec(999, 1), dec(5, 0), dec(1001, 1), dec(6, 0)));
    let quotes = QuoteStrategy::generate_quotes(Symbol::SOLUSDT, &state).to_vec();
    assert_eq!(quotes.len(), 2);
    let (buy, sell) = (quotes[0], quotes[1]);
    assert_eq!(*buy.side(), Side::Buy);
    assert_eq!(*sell.side(), Side::Sell);
    assert!(buy.orig_price().equals(&dec(999, 1)));
    assert!(sell.orig_price().equals(&dec(1001, 1)));
    for quote in [buy, sell] {
        assert_eq!(*quote.symbol(), Symbol::SOLUSDT);
        assert_eq!(*quote.kind(), OrderKind::Limit);
        assert_eq!(*quote.time_in_force(), TimeInForce::GoodUntilCancel);
        assert_eq!(*quote.good_till_date(), None);
        assert!(quote.orig_qty().equals(&Decimal::one()));
        assert!(quote.curr_qty().equals(&Decimal::one()));
        assert_eq!(*quote.order_id(), None);
        assert_eq!(*quote.status(), None);
    }
    assert_ne!(buy.client_order_id(), sell.client_order_id());
    assert_eq!(buy.start_ts(), sell.start_ts());
}

#[test]
fn no_quotes_without_a_best_bid_and_offer() {
    let state = State::new_at(0);
    let quotes = QuoteStrategy::generate_quotes(Symbol::SOLUSDT, &state);
    assert_eq!(quotes.len(), 0);
    assert!(quotes.to_vec().is_empty());
    assert_eq!(QuoteStrategy::quotes_at(Symbol::SOLUSDT, None, 1, 2, 3).len(), 0);
}

#[test]
fn quotes_carry_the_given_time_and_ids() {
    let bbo = (Level::new(dec(98, 0), dec(1, 0)), Level::new(dec(102, 0), dec(1, 0)));
    let quotes = QuoteStrategy::quotes_at(Symbol::BTCUSDT, Some(bbo), 10, 20, 30).to_vec();
    assert_eq!(quotes.len(), 2);
    assert_eq!(quotes[0].client_order_id(), 20);
    assert_eq!(quotes[1].client_order_id(), 30);
    assert_eq!(quotes[0].start_ts(), 10);
    assert_eq!(quotes[1].last_update_ts(), 10);
    assert!(quotes[0].orig_price().equals(&dec(98, 0)));
    assert!(quotes[1].orig_price().equals(&dec(102, 0)));
}

#[test]
fn quote_prices_sit_half_a_spread_around_the_mid() {
    let (buy, sell) = quote_prices_of(dec(100, 0), dec(101, 0)).expect("prices");
    assert!(buy.equals(&dec(100, 0)));
    assert!(sell.equals(&dec(101, 0)));
    let (buy, sell) = quote_prices_of(dec(5, 1), dec(5, 1)).expect("prices");
    assert!(buy.equals(&dec(5, 1)) && sell.equals(&dec(5, 1)));
    let max = dec((1i128 << 96) - 1, 0);
    assert!(quote_prices_of(max, max).is_none());
}
