use ceraunus::account::{ExecutionType, OrderTradeUpdate, OrderTradeUpdateEvent};
use ceraunus::book::OrderBook;
use ceraunus::decimal::Decimal;
use ceraunus::engine::{DepthOutcome, SnapshotOutcome, State};
use ceraunus::error::EngineError;
use ceraunus::local_order::Order;
use ceraunus::market::{BookTicker, Depth, Level};
use ceraunus::order::{OrderKind, OrderStatus, Side, Symbol, TimeInForce};

const BTC: Symbol = Symbol::BTCUSDT;

fn dec(mantissa: i128, scale: u32) -> Decimal {
    Decimal::new(mantissa, scale).expect("valid decimal")
}

fn level(price: i128, quantity: i128) -> Level {
    Level::new(dec(price, 0), dec(quantity, 0))
}

fn delta(pu: u64, first: u64, last: u64, bids: Vec<Level>) -> Depth {
    Depth::new(1, 2, BTC, first, last, pu, bids, vec![])
}

fn order(id: u128, created: i64) -> Order {
    Order::new_at(BTC, Side::Buy, OrderKind::Limit, dec(100, 0), dec(10, 1), TimeInForce::GoodUntilCancel, None, created, id)
}

fn update(id: u128, exec_type: ExecutionType, status: OrderStatus, last_qty: Decimal) -> OrderTradeUpdateEvent {
    OrderTradeUpdateEvent::new(
        10,
        20,
        OrderTradeUpdate::new(
            BTC,
            id,
            Side::Buy,
            OrderKind::Limit,
            TimeInForce::GoodUntilCancel,
            dec(10, 1),
            dec(100, 0),
            dec(100, 0),
            exec_type,
            status,
            4711,
            last_qty,
            last_qty,
            dec(100, 0),
            dec(1, 2),
            30,
            40,
            true,
            Decimal::zero(),
        ),
    )
}

fn bid_prices(book: &OrderBook) -> Vec<String> {
    book.bids().iter().map(|l| l.price.to_text()).collect()
}

#[test]
fn a_new_state_is_empty() {
    let state = State::new_at(5);
    assert_eq!(state.start_time(), 5);
    assert!(state.turnover().is_zero());
    for symbol in [Symbol::BTCUSDT, Symbol::ETHUSDT, Symbol::SOLUSDT, Symbol::BNBUSDT] {
        assert!(!state.has_order_book(symbol));
        assert!(state.order_book(symbol).is_none());
        assert!(state.bbo_level(symbol).is_none());
        assert!(state.get_position(symbol).is_zero());
        assert_eq!(state.buffered_depths(symbol), 0);
    }
    assert!(state.active_order_ids().is_empty());
    assert!(State::new().active_order_ids().is_empty());
}

#[test]
fn happy_bootstrap() {
    let mut state = State::new_at(0);
    assert_eq!(state.on_depth_received_at(delta(99, 100, 110, vec![level(50, 1)]), 1), DepthOutcome::Buffered);
    assert_eq!(state.on_depth_received_at(delta(110, 111, 120, vec![level(60, 2)]), 1), DepthOutcome::Buffered);
    assert_eq!(state.on_depth_received_at(delta(120, 121, 130, vec![level(70, 3)]), 1), DepthOutcome::Buffered);
    assert_eq!(state.buffered_depths(BTC), 3);
    assert!(!state.has_order_book(BTC));

    let snapshot = OrderBook::from_snapshot_at(BTC, 115, 9, &vec![level(40, 1)], &vec![level(80, 1)], 2);
    assert_eq!(state.on_snapshot_done_at(snapshot, 3), SnapshotOutcome::Ready);
    assert_eq!(state.buffered_depths(BTC), 0);
    let book = state.order_book(BTC).expect("book is in place");
    assert_eq!(book.last_update_id(), 130);
    assert_eq!(bid_prices(book), ["70", "60", "40"]);
    assert_eq!(book.local_ts(), 3);

    assert_eq!(state.on_depth_received_at(delta(130, 131, 140, vec![level(40, 0)]), 4), DepthOutcome::Applied);
    let book = state.order_book(BTC).expect("book is in place");
    assert_eq!(book.last_update_id(), 140);
    assert_eq!(bid_prices(book), ["70", "60"]);
    assert_eq!(state.buffered_depths(BTC), 0);
}

#[test]
fn gap_restart() {
    let mut state = State::new_at(0);
    let snapshot = OrderBook::from_snapshot_at(BTC, 490, 9, &vec![level(40, 1)], &vec![level(80, 1)], 2);
    assert_eq!(state.on_snapshot_done_at(snapshot, 3), SnapshotOutcome::Ready);
    assert!(state.has_order_book(BTC));
    assert_eq!(state.on_depth_received_at(delta(490, 491, 500, vec![]), 4), DepthOutcome::Applied);
    assert_eq!(state.order_book(BTC).expect("book").last_update_id(), 500);
    assert!(state.is_synced(BTC));

    assert_eq!(state.on_depth_received_at(delta(498, 499, 510, vec![level(50, 1)]), 4), DepthOutcome::GapDetected);
    assert!(!state.is_synced(BTC));
    assert!(!state.has_order_book(BTC));
    assert_eq!(state.buffered_depths(BTC), 0);
    assert_eq!(state.on_depth_received_at(delta(510, 511, 520, vec![level(50, 1)]), 5), DepthOutcome::Buffered);
    assert_eq!(state.on_depth_received_at(delta(520, 521, 530, vec![level(51, 1)]), 5), DepthOutcome::Buffered);
    assert_eq!(state.buffered_depths(BTC), 2);
    assert!(!state.has_order_book(BTC));
}

#[test]
fn a_gap_in_the_buffer_asks_for_another_snapshot() {
    let mut state = State::new_at(0);
    state.on_depth_received(delta(120, 121, 130, vec![level(70, 3)]));
    assert_eq!(state.buffered_depths(BTC), 1);
    let early = OrderBook::from_snapshot_at(BTC, 115, 9, &vec![], &vec![], 2);
    assert_eq!(state.on_snapshot_done_at(early, 3), SnapshotOutcome::GapDetected);
    assert!(!state.has_order_book(BTC));
    assert_eq!(state.buffered_depths(BTC), 0);

    state.on_depth_received(delta(110, 111, 120, vec![]));
    state.on_depth_received(delta(125, 126, 130, vec![]));
    let broken = OrderBook::from_snapshot_at(BTC, 115, 9, &vec![], &vec![], 2);
    assert_eq!(state.on_snapshot_done(broken), SnapshotOutcome::GapDetected);
    assert!(!state.has_order_book(BTC));

    let alone = OrderBook::from_snapshot_at(BTC, 115, 9, &vec![], &vec![], 2);
    assert_eq!(state.on_snapshot_done(alone), SnapshotOutcome::Ready);
    assert_eq!(state.order_book(BTC).expect("book").last_update_id(), 115);
    state.remove_order_book(BTC);
    assert!(!state.has_order_book(BTC));
}

#[test]
fn books_are_kept_per_symbol() {
    let mut state = State::new_at(0);
    let eth = OrderBook::from_snapshot_at(Symbol::ETHUSDT, 7, 9, &vec![level(40, 1)], &vec![], 2);
    assert_eq!(state.on_snapshot_done_at(eth, 3), SnapshotOutcome::Ready);
    assert!(state.has_order_book(Symbol::ETHUSDT));
    assert!(!state.has_order_book(BTC));
    assert_eq!(state.on_depth_received_at(delta(7, 8, 9, vec![]), 4), DepthOutcome::Buffered);
    assert_eq!(state.buffered_depths(BTC), 1);
    assert_eq!(state.buffered_depths(Symbol::ETHUSDT), 0);
}

#[test]
fn order_fill_path() {
    let mut state = State::new_at(0);
    state.register_order(order(1, 0));
    assert!(state.get_active_order(&1).is_some());

    let partial = update(1, ExecutionType::Trade, OrderStatus::PartiallyFilled, dec(3, 1));
    assert_eq!(state.on_update_received(&partial), Ok(()));
    assert!(state.get_position(BTC).equals(&dec(3, 1)));
    assert!(state.turnover().equals(&dec(30, 0)));
    let record = state.get_active_order(&1).expect("still active");
    assert_eq!(*record.status(), Some(OrderStatus::PartiallyFilled));
    assert_eq!(*record.order_id(), Some(4711));
    assert_eq!(record.last_update_ts(), 20);
    assert!(record.curr_qty().equals(&dec(3, 1)));
    assert!(record.orig_qty().equals(&dec(1, 0)));
    assert!(!state.is_completed(&1));

    let rest = update(1, ExecutionType::Trade, OrderStatus::Filled, dec(7, 1));
    assert_eq!(state.on_update_received(&rest), Ok(()));
    assert!(state.get_position(BTC).equals(&dec(1, 0)));
    assert!(state.turnover().equals(&dec(100, 0)));
    assert!(state.get_active_order(&1).is_none());
    assert!(state.is_completed(&1));
    assert!(state.pnl(BTC).execution_pnl().equals(&dec(-2, 2)));
    assert!(state.pnl(BTC).avg_entry_price().equals(&dec(100, 0)));
}

#[test]
fn stale_cancel() {
    let mut state = State::new_at(0);
    state.register_order(order(1, 1_000));
    assert!(state.stale_order_ids_at(30_000, 30_999).is_empty());
    assert_eq!(state.stale_order_ids_at(30_000, 31_000), vec![1]);
    assert_eq!(state.stale_order_ids_at(30_000, 32_000), vec![1]);

    state.register_orders(&[order(2, 5_000), order(3, 40_000)]);
    let mut stale = state.stale_order_ids_at(30_000, 36_000);
    stale.sort();
    assert_eq!(stale, vec![1, 2]);
    let mut all = state.active_order_ids();
    all.sort();
    assert_eq!(all, vec![1, 2, 3]);
    assert!(state.stale_order_ids(i64::MAX).is_empty());
}

#[test]
fn unknown_order_update() {
    let mut state = State::new_at(0);
    state.register_order(order(1, 0));
    let stray = update(9, ExecutionType::Trade, OrderStatus::Filled, dec(1, 0));
    assert_eq!(state.on_update_received(&stray), Err(EngineError::Untracked { client_order_id: 9 }));
    assert!(state.get_position(BTC).is_zero());
    assert!(state.turnover().is_zero());
    assert!(!state.is_completed(&9));
    assert_eq!(state.active_order_ids(), vec![1]);

    state.complete_order(1);
    let late = update(1, ExecutionType::Canceled, OrderStatus::Canceled, Decimal::zero());
    assert_eq!(state.on_update_received(&late), Err(EngineError::OrderCompleted { client_order_id: 1 }));
    assert!(state.is_completed(&1));
    state.complete_order(77);
    assert!(!state.is_completed(&77));
}

#[test]
fn every_ending_update_completes_the_order() {
    let endings = [
        (ExecutionType::Canceled, OrderStatus::Canceled),
        (ExecutionType::Canceled, OrderStatus::New),
        (ExecutionType::Calculated, OrderStatus::Filled),
        (ExecutionType::Expired, OrderStatus::Expired),
        (ExecutionType::Trade, OrderStatus::Filled),
        (ExecutionType::Amendment, OrderStatus::Filled),
        (ExecutionType::Amendment, OrderStatus::Canceled),
    ];
    for (exec_type, status) in endings {
        let mut state = State::new_at(0);
        state.register_order(order(1, 0));
        for (e, s) in [
            (ExecutionType::New, OrderStatus::New),
            (ExecutionType::Amendment, OrderStatus::New),
            (ExecutionType::Trade, OrderStatus::PartiallyFilled),
            (ExecutionType::Amendment, OrderStatus::PartiallyFilled),
            (ExecutionType::New, OrderStatus::Filled),
        ] {
            assert_eq!(state.on_update_received(&update(1, e, s, dec(1, 1))), Ok(()));
            assert!(state.get_active_order(&1).is_some());
            assert!(!state.is_completed(&1));
        }
        assert_eq!(state.on_update_received(&update(1, exec_type, status, dec(1, 1))), Ok(()));
        assert!(state.get_active_order(&1).is_none());
        assert!(state.is_completed(&1));
        assert!(state.active_order_ids().is_empty());
    }
}

#[test]
fn a_fill_that_cannot_be_booked_still_ends_the_order() {
    let mut state = State::new_at(0);
    state.register_order(order(1, 0));
    let nothing = update(1, ExecutionType::Trade, OrderStatus::Filled, Decimal::zero());
    assert_eq!(state.on_update_received(&nothing), Err(EngineError::Arithmetic));
    assert!(state.is_completed(&1));
    assert!(state.turnover().is_zero());
    assert!(state.pnl(BTC).execution_pnl().is_zero());
}

#[test]
fn the_book_ticker_replaces_the_best_bid_and_offer() {
    let mut state = State::new_at(0);
    let ticker = BookTicker::new(1, 2, 3, Symbol::SOLUSDT, dec(999, 1), dec(5, 0), dec(1001, 1), dec(6, 0));
    state.on_book_ticker_received(ticker);
    let (bid, ask) = state.bbo_level(Symbol::SOLUSDT).expect("best bid and offer");
    assert_eq!(bid.price.to_text(), "99.9");
    assert_eq!(bid.quantity.to_text(), "5");
    assert_eq!(ask.price.to_text(), "100.1");
    assert_eq!(ask.quantity.to_text(), "6");
    assert!(state.bbo_level(BTC).is_none());
    assert!(!state.has_order_book(Symbol::SOLUSDT));
}

#[test]
fn a_new_order_gets_the_time_and_a_fresh_id() {
    let a = Order::new(BTC, Side::Sell, OrderKind::Limit, dec(5, 0), dec(1, 0), TimeInForce::FillOrKill, Some(9));
    let b = Order::new(BTC, Side::Sell, OrderKind::Limit, dec(5, 0), dec(1, 0), TimeInForce::FillOrKill, Some(9));
    assert_ne!(a.client_order_id(), b.client_order_id());
    assert_eq!(a.start_ts(), a.last_update_ts());
    assert!(a.start_ts() > 1_600_000_000_000);
    assert_eq!(*a.order_id(), None);
    assert_eq!(*a.status(), None);
    assert_eq!(*a.side(), Side::Sell);
    assert_eq!(*a.good_till_date(), Some(9));
    assert!(a.curr_price().equals(a.orig_price()));
    assert!(a.stale_at(a.start_ts() + 10, 10));
    assert!(!a.stale_at(a.start_ts() + 9, 10));
}

#[test]
fn an_active_order_can_be_changed_in_place() {
    let mut state = State::new_at(0);
    state.register_order(order(1, 0));
    match state.get_active_order_mut(&1) {
        Some(record) => record.last_update_ts = 99,
        None => panic!("the order is active"),
    }
    assert_eq!(state.get_active_order(&1).expect("active").last_update_ts(), 99);
    assert!(state.get_active_order_mut(&2).is_none());
    assert_eq!(state.active_order_ids(), vec![1]);
}

#[test]
fn the_first_delta_after_a_snapshot_may_straddle_it() {
    let mut state = State::new_at(0);
    let snapshot = OrderBook::from_snapshot_at(BTC, 115, 9, &vec![level(40, 1)], &vec![level(80, 1)], 2);
    assert_eq!(state.on_snapshot_done_at(snapshot, 3), SnapshotOutcome::Ready);
    assert!(!state.is_synced(BTC));
    assert_eq!(state.on_depth_received_at(delta(100, 101, 110, vec![]), 4), DepthOutcome::GapDetected);
    assert!(!state.has_order_book(BTC));

    let snapshot = OrderBook::from_snapshot_at(BTC, 115, 9, &vec![level(40, 1)], &vec![level(80, 1)], 2);
    assert_eq!(state.on_snapshot_done_at(snapshot, 3), SnapshotOutcome::Ready);
    assert_eq!(state.on_depth_received_at(delta(110, 111, 120, vec![level(50, 1)]), 4), DepthOutcome::Applied);
    assert!(state.is_synced(BTC));
    assert_eq!(state.order_book(BTC).expect("book").last_update_id(), 120);
    assert_eq!(bid_prices(state.order_book(BTC).expect("book")), ["50", "40"]);
    assert_eq!(state.on_depth_received_at(delta(119, 120, 125, vec![]), 5), DepthOutcome::GapDetected);
    assert!(!state.has_order_book(BTC) && !state.is_synced(BTC));

    state.on_depth_received_at(delta(110, 111, 120, vec![]), 6);
    let snapshot = OrderBook::from_snapshot_at(BTC, 115, 9, &vec![], &vec![], 7);
    assert_eq!(state.on_snapshot_done_at(snapshot, 8), SnapshotOutcome::Ready);
    assert!(state.is_synced(BTC));
    assert_eq!(state.on_depth_received_at(delta(119, 121, 125, vec![]), 9), DepthOutcome::GapDetected);
}
