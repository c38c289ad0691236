use ceraunus::account::{ExecutionType, OrderTradeUpdate, OrderTradeUpdateEvent};
use ceraunus::book::OrderBook;
use ceraunus::decimal::Decimal;
use ceraunus::dispatch::{elapsed, Action, Engine, Event};
use ceraunus::error::EngineError;
use ceraunus::market::{BookTicker, Depth, Level};
use ceraunus::order::{OrderKind, OrderStatus, Side, Symbol, TimeInForce};
use ceraunus::subscription::{AccountStream, MarketStream};

const SOL: Symbol = Symbol::SOLUSDT;

fn dec(mantissa: i128, scale: u32) -> Decimal {
    Decimal::new(mantissa, scale).expect("valid decimal")
}

fn delta(pu: u64, last: u64) -> Depth {
    Depth::new(1, 2, SOL, pu + 1, last, pu, vec![Level::new(dec(last as i128, 0), dec(1, 0))], vec![])
}

fn snapshot(last: u64) -> OrderBook {
    OrderBook::from_snapshot_at(
        SOL,
        last,
        9,
        &vec![Level::new(dec(5, 0), dec(2, 0))],
        &vec![Level::new(dec(6, 0), dec(3, 0))],
        2,
    )
}

fn ticker() -> Event {
    Event::Market(MarketStream::BookTicker(BookTicker::new(1, 2, 3, SOL, dec(999, 1), dec(5, 0), dec(1001, 1), dec(6, 0))))
}

fn fill(id: u128) -> OrderTradeUpdateEvent {
    OrderTradeUpdateEvent::new(
        10,
        20,
        OrderTradeUpdate::new(
            SOL,
            id,
            Side::Buy,
            OrderKind::Limit,
            TimeInForce::GoodUntilCancel,
            dec(1, 0),
            dec(999, 1),
            dec(999, 1),
            ExecutionType::Trade,
            OrderStatus::Filled,
            1,
            dec(1, 0),
            dec(1, 0),
            dec(999, 1),
            dec(1, 2),
            30,
            40,
            true,
            Decimal::zero(),
        ),
    )
}

#[test]
fn the_engine_bootstraps_its_book_and_restarts_on_a_gap() {
    let mut engine = Engine::new(SOL, 30_000);
    assert_eq!(engine.symbol(), SOL);
    assert!(engine.snapshot_awaited() && !engine.quoting_enabled());
    assert!(matches!(engine.handle_at(Event::Market(MarketStream::Depth(delta(100, 110))), 1, 0, 0), Action::Idle));
    assert!(matches!(engine.handle_at(Event::Market(MarketStream::Depth(delta(110, 120))), 1, 0, 0), Action::Idle));
    assert_eq!(engine.state().buffered_depths(SOL), 2);
    assert!(matches!(engine.handle_at(Event::SnapshotDone(snapshot(105)), 2, 0, 0), Action::Idle));
    assert!(engine.quoting_enabled() && !engine.snapshot_awaited());
    assert_eq!(engine.state().order_book(SOL).expect("book").last_update_id(), 120);

    assert!(matches!(engine.handle_at(Event::SnapshotDone(snapshot(999)), 2, 0, 0), Action::Idle));
    assert_eq!(engine.state().order_book(SOL).expect("book").last_update_id(), 120);

    assert!(matches!(engine.handle(Event::Market(MarketStream::Depth(delta(120, 125)))), Action::Idle));
    assert!(matches!(
        engine.handle(Event::Market(MarketStream::Depth(delta(130, 135)))),
        Action::FetchSnapshot(Symbol::SOLUSDT)
    ));
    assert!(engine.snapshot_awaited());
    assert!(matches!(engine.handle(Event::Market(MarketStream::Depth(delta(140, 150)))), Action::Idle));
    assert!(matches!(engine.handle(Event::SnapshotDone(snapshot(100))), Action::FetchSnapshot(Symbol::SOLUSDT)));
    assert!(engine.snapshot_awaited());
    assert!(matches!(engine.handle(Event::SnapshotFailed), Action::Terminate));
}

#[test]
fn the_send_tick_registers_and_opens_the_quotes() {
    let mut engine = Engine::new(SOL, 30_000);
    assert!(matches!(engine.handle_at(Event::SendOrderTick, 5, 1, 2), Action::Idle));
    assert!(matches!(engine.handle(ticker()), Action::Idle));
    assert!(matches!(engine.handle_at(Event::SendOrderTick, 5, 1, 2), Action::Idle));
    assert!(matches!(engine.handle(Event::SnapshotDone(snapshot(1))), Action::Idle));

    let quotes = match engine.handle_at(Event::SendOrderTick, 1_000, 1, 2) {
        Action::OpenOrders(quotes) => quotes.to_vec(),
        other => panic!("expected orders to open, got {other:?}"),
    };
    assert_eq!(quotes.len(), 2);
    assert_eq!(quotes[0].client_order_id(), 1);
    assert!(quotes[0].orig_price().equals(&dec(999, 1)));
    assert!(quotes[1].orig_price().equals(&dec(1001, 1)));
    let mut active = engine.state().active_order_ids();
    active.sort();
    assert_eq!(active, vec![1, 2]);

    assert!(matches!(engine.handle_at(Event::CancelOrderTick, 30_999, 0, 0), Action::CancelOrders(ids) if ids.is_empty()));
    let mut stale = match engine.handle_at(Event::CancelOrderTick, 31_000, 0, 0) {
        Action::CancelOrders(ids) => ids,
        other => panic!("expected cancels, got {other:?}"),
    };
    stale.sort();
    assert_eq!(stale, vec![1, 2]);

    assert!(matches!(engine.handle(Event::Account(AccountStream::OrderTradeUpdate(fill(1)))), Action::Idle));
    assert!(engine.state().is_completed(&1));
    assert!(matches!(
        engine.handle(Event::Account(AccountStream::OrderTradeUpdate(fill(1)))),
        Action::ReportError(EngineError::OrderCompleted { client_order_id: 1 })
    ));
    assert!(matches!(
        engine.handle(Event::Account(AccountStream::OrderTradeUpdate(fill(9)))),
        Action::ReportError(EngineError::Untracked { client_order_id: 9 })
    ));
    assert!(matches!(engine.handle(Event::Account(AccountStream::Raw("?".to_string()))), Action::Idle));
    assert!(matches!(engine.handle(Event::Market(MarketStream::Raw("?".to_string()))), Action::Idle));

    match engine.handle(Event::SendOrderTick) {
        Action::OpenOrders(quotes) => assert_eq!(quotes.len(), 2),
        other => panic!("expected orders to open, got {other:?}"),
    }
    assert_eq!(engine.state().active_order_ids().len(), 3);
}

#[test]
fn the_report_sums_up_the_state() {
    let mut engine = Engine::new(SOL, 30_000);
    let started = engine.state().start_time();
    match engine.handle_at(Event::ReportStateTick, started + 61_000, 0, 0) {
        Action::Report(report) => {
            assert_eq!(report.elapsed_ms, 61_000);
            assert!(report.turnover.is_zero());
            assert!(report.position.is_zero());
            assert_eq!(report.book, None);
        },
        other => panic!("expected a report, got {other:?}"),
    }
    engine.handle(Event::SnapshotDone(snapshot(1)));
    engine.handle_at(Event::SendOrderTick, 0, 1, 2);
    engine.handle(ticker());
    engine.handle_at(Event::SendOrderTick, 0, 1, 2);
    engine.handle(Event::Account(AccountStream::OrderTradeUpdate(fill(1))));
    match engine.handle(Event::ReportStateTick) {
        Action::Report(report) => {
            assert!(report.turnover.equals(&dec(999, 1)));
            assert!(report.position.equals(&dec(1, 0)));
            assert_eq!(report.book.as_deref(), Some("[B:2@5|A:3@6]"));
            assert!(report.elapsed_ms >= 0);
        },
        other => panic!("expected a report, got {other:?}"),
    }
    assert!(matches!(engine.handle(Event::KeepaliveTick), Action::Keepalive));
    assert_eq!(elapsed(10, 25), 15);
    assert_eq!(elapsed(i64::MIN, i64::MAX), i64::MAX);
    assert_eq!(elapsed(i64::MAX, i64::MIN), i64::MIN);
}
