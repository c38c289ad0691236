use ceraunus::book::{Continuity, OrderBook, Replay};
use ceraunus::decimal::Decimal;
use ceraunus::market::{Depth, Level};
use ceraunus::order::Symbol;

fn dec(mantissa: i128, scale: u32) -> Decimal {
    Decimal::new(mantissa, scale).expect("valid decimal")
}

fn level(price: (i128, u32), quantity: (i128, u32)) -> Level {
    Level::new(dec(price.0, price.1), dec(quantity.0, quantity.1))
}

fn delta(pu: u64, first: u64, last: u64, bids: Vec<Level>, asks: Vec<Level>) -> Depth {
    Depth::new(1_000 + last as i64, 2_000 + last as i64, Symbol::BTCUSDT, first, last, pu, bids, asks)
}

fn side_text(levels: &[Level]) -> Vec<String> {
    levels.iter().map(|l| format!("{}@{}", l.quantity.to_text(), l.price.to_text())).collect()
}

fn sample_book() -> OrderBook {
    OrderBook::from_snapshot_at(
        Symbol::BTCUSDT,
        500,
        77,
        &vec![level((1000, 1), (1, 0)), level((999, 1), (2, 0)), level((1001, 1), (0, 0))],
        &vec![level((1003, 1), (4, 0)), level((1002, 1), (3, 0))],
        5,
    )
}

#[test]
fn a_new_book_is_empty() {
    let book = OrderBook::new_at(Symbol::ETHUSDT, 9);
    assert_eq!(book.symbol(), Symbol::ETHUSDT);
    assert_eq!(book.local_ts(), 9);
    assert_eq!(book.xchg_ts(), 9);
    assert_eq!(book.last_update_id(), 0);
    assert!(book.bids().is_empty() && book.asks().is_empty());
    assert!(book.get_bbo().is_none());
    assert_eq!(book.show(5), "[B:|A:]");
    assert_eq!(book.to_text(), "ETHUSDT OrderBook (last_update_id: 0)");
    let now = OrderBook::new(Symbol::ETHUSDT);
    assert_eq!(now.local_ts(), now.xchg_ts());
    assert_eq!(now.last_update_id(), 0);
}

#[test]
fn a_snapshot_is_sorted_best_price_first() {
    let book = sample_book();
    assert_eq!(book.last_update_id(), 500);
    assert_eq!(book.xchg_ts(), 77);
    assert_eq!(book.local_ts(), 5);
    assert_eq!(side_text(book.bids()), ["1@100.0", "2@99.9"]);
    assert_eq!(side_text(book.asks()), ["3@100.2", "4@100.3"]);
    let (bid, ask) = book.get_bbo().expect("both sides are filled");
    assert_eq!(bid.price.to_text(), "100.0");
    assert_eq!(ask.price.to_text(), "100.2");
    assert_eq!(book.show(1), "[B:1@100.0|A:3@100.2]");
    assert_eq!(book.show(5), "[B:1@100.0,2@99.9|A:3@100.2,4@100.3]");
    assert_eq!(book.show(0), "[B:|A:]");
    assert_eq!(book.to_text(), "BTCUSDT OrderBook (last_update_id: 500)");
}

#[test]
fn zero_quantity_removes_and_other_quantities_overwrite() {
    let mut book = sample_book();
    let update = delta(
        500,
        501,
        510,
        vec![level((1000, 1), (0, 0)), level((999, 1), (7, 0)), level((998, 1), (9, 0)), level((990, 1), (0, 0))],
        vec![level((10020, 2), (8, 0))],
    );
    assert!(book.apply_at(&update, Continuity::Strict, 6));
    assert_eq!(side_text(book.bids()), ["7@99.9", "9@99.8"]);
    assert_eq!(side_text(book.asks()), ["8@100.2", "4@100.3"]);
    assert_eq!(book.last_update_id(), 510);
    assert_eq!(book.xchg_ts(), 2_510);
    assert_eq!(book.local_ts(), 6);
}

#[test]
fn the_last_listing_of_a_price_decides() {
    let mut book = sample_book();
    let update = delta(
        500,
        501,
        502,
        vec![level((1000, 1), (0, 0)), level((1000, 1), (5, 0)), level((999, 1), (5, 0)), level((999, 1), (0, 0))],
        vec![],
    );
    assert!(book.apply_at(&update, Continuity::Strict, 6));
    assert_eq!(side_text(book.bids()), ["5@100.0"]);
}

#[test]
fn applying_the_same_levels_twice_changes_nothing() {
    let mut book = sample_book();
    let update = delta(
        500,
        500,
        500,
        vec![level((1000, 1), (0, 0)), level((1005, 1), (5, 0))],
        vec![level((1002, 1), (0, 0)), level((1010, 1), (1, 0))],
    );
    assert!(book.apply_at(&update, Continuity::Strict, 6));
    let bids = side_text(book.bids());
    let asks = side_text(book.asks());
    assert!(book.apply_at(&update, Continuity::Strict, 6));
    assert_eq!(side_text(book.bids()), bids);
    assert_eq!(side_text(book.asks()), asks);
    assert_eq!(book.last_update_id(), 500);
}

#[test]
fn a_delta_must_start_where_the_book_ends() {
    let mut book = sample_book();
    let gap = delta(498, 499, 510, vec![level((1000, 1), (0, 0))], vec![]);
    assert!(!book.follows(&gap, Continuity::Strict));
    assert!(book.follows(&gap, Continuity::Straddle));
    assert!(!book.apply_at(&gap, Continuity::Strict, 6));
    assert_eq!(book.last_update_id(), 500);
    assert_eq!(side_text(book.bids()), ["1@100.0", "2@99.9"]);
    assert!(!book.extend(&gap));
    assert!(book.extend_after_snapshot(&gap));
    assert_eq!(book.last_update_id(), 510);
    assert_eq!(side_text(book.bids()), ["2@99.9"]);

    let backwards = delta(510, 400, 509, vec![], vec![]);
    assert!(!book.extend(&backwards));
    let ahead = delta(511, 512, 520, vec![], vec![]);
    assert!(!book.extend(&ahead));
    assert!(!book.extend_after_snapshot(&ahead));
    let next = delta(510, 511, 520, vec![], vec![]);
    assert!(book.extend(&next));
    assert_eq!(book.last_update_id(), 520);
}

#[test]
fn the_last_update_id_grows_with_each_applied_delta() {
    let mut book = sample_book();
    let mut last = book.last_update_id();
    for (pu, u) in [(500, 505), (505, 506), (506, 600)] {
        assert!(book.extend(&delta(pu, pu + 1, u, vec![], vec![])));
        assert!(book.last_update_id() > last);
        last = book.last_update_id();
    }
}

#[test]
fn a_stale_delta_is_discarded_on_replay() {
    let mut book = sample_book();
    let stale = delta(480, 481, 499, vec![level((1000, 1), (0, 0))], vec![]);
    assert_eq!(book.replay_at(&stale, Continuity::Straddle, 6), Replay::Discarded);
    assert_eq!(book.replay_at(&stale, Continuity::Strict, 6), Replay::Discarded);
    assert_eq!(side_text(book.bids()), ["1@100.0", "2@99.9"]);
    assert_eq!(book.last_update_id(), 500);
    assert_eq!(book.local_ts(), 5);

    let straddling = delta(490, 491, 500, vec![], vec![]);
    assert_eq!(book.replay_at(&straddling, Continuity::Straddle, 6), Replay::Applied);
    let missing = delta(503, 504, 505, vec![], vec![]);
    assert_eq!(book.replay_at(&missing, Continuity::Strict, 6), Replay::Gap);
}

#[test]
fn prices_are_told_apart_by_value() {
    let mut book = sample_book();
    let update = delta(500, 501, 502, vec![level((10000, 2), (6, 0))], vec![level((100200, 3), (0, 0))]);
    assert!(book.extend(&update));
    assert_eq!(side_text(book.bids()), ["6@100.0", "2@99.9"]);
    assert_eq!(side_text(book.asks()), ["4@100.3"]);
}
