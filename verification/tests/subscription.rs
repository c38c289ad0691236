use ceraunus::order::Symbol;
use ceraunus::subscription::{
    Inbound, InboundAction, SessionAction, StreamCommand, StreamSpec, WsSession,
    WsSubscriptionCommand, WsSubscriptionMethod,
};

const SYMBOLS: [Symbol; 4] = [Symbol::BTCUSDT, Symbol::ETHUSDT, Symbol::SOLUSDT, Symbol::BNBUSDT];

fn depth(symbol: Symbol, levels: Option<u16>, interval_ms: Option<u16>) -> StreamSpec {
    StreamSpec::Depth { symbol, levels, interval_ms }
}

#[test]
fn stream_names_follow_the_venue_format() {
    assert_eq!(depth(Symbol::BTCUSDT, None, None).as_param(), "btcusdt@depth");
    assert_eq!(depth(Symbol::BTCUSDT, Some(5), None).as_param(), "btcusdt@depth5");
    assert_eq!(depth(Symbol::ETHUSDT, None, Some(100)).as_param(), "ethusdt@depth@100ms");
    assert_eq!(depth(Symbol::SOLUSDT, Some(20), Some(500)).as_param(), "solusdt@depth20@500ms");
    assert_eq!(StreamSpec::BookTicker { symbol: Symbol::BNBUSDT }.as_param(), "bnbusdt@bookTicker");
    assert_eq!(StreamSpec::AggTrade { symbol: Symbol::SOLUSDT }.as_param(), "solusdt@aggTrade");
    assert_eq!(StreamSpec::Trade { symbol: Symbol::SOLUSDT }.as_param(), "solusdt@trade");
    assert_eq!(StreamSpec::OrderTradeUpdate.as_param(), "ORDER_TRADE_UPDATE");
    assert_eq!(StreamSpec::TradeLite.as_param(), "TRADE_LITE");
    assert_eq!(StreamSpec::AccountUpdate.as_param(), "ACCOUNT_UPDATE");
}

#[test]
fn stream_names_round_trip_for_all_constructors() {
    let mut specs = vec![StreamSpec::OrderTradeUpdate, StreamSpec::TradeLite, StreamSpec::AccountUpdate];
    for symbol in SYMBOLS {
        specs.push(StreamSpec::BookTicker { symbol });
        specs.push(StreamSpec::AggTrade { symbol });
        specs.push(StreamSpec::Trade { symbol });
        for levels in [None, Some(0), Some(5), Some(10), Some(65535)] {
            for interval_ms in [None, Some(0), Some(100), Some(65535)] {
                specs.push(depth(symbol, levels, interval_ms));
            }
        }
    }
    for spec in specs {
        let name = spec.as_param();
        let back = StreamSpec::parse(&name).expect("a written name is read back");
        assert!(back.same(&spec), "{name}");
    }
}

#[test]
fn names_that_no_stream_has_are_refused() {
    for name in [
        "",
        "btcusdt",
        "btcusdt@",
        "btcusdt@depth05",
        "btcusdt@depth@ms",
        "btcusdt@depth@100",
        "btcusdt@depth65536",
        "btcusdt@depth5@100msx",
        "btcusdt@depth5x",
        "BTCUSDT@depth",
        "dogeusdt@depth",
        "btcusdt@bookticker",
        "btcusdt@trades",
        "order_trade_update",
        "TRADE_LITE ",
        "btcusdt@dépth",
    ] {
        assert!(StreamSpec::parse(name).is_none(), "{name}");
    }
}

#[test]
fn control_frames_are_json() {
    let command = WsSubscriptionCommand::new(
        WsSubscriptionMethod::Subscribe,
        vec!["btcusdt@depth".to_string(), "btcusdt@bookTicker".to_string()],
        1,
    );
    assert_eq!(
        command.to_text().expect("frame"),
        "{\"method\":\"SUBSCRIBE\",\"params\":[\"btcusdt@depth\",\"btcusdt@bookTicker\"],\"id\":1}"
    );
    let empty = WsSubscriptionCommand::new(WsSubscriptionMethod::Unsubscribe, vec![], 42);
    assert_eq!(empty.to_text().expect("frame"), "{\"method\":\"UNSUBSCRIBE\",\"params\":[],\"id\":42}");
    let escaped = WsSubscriptionCommand::new(WsSubscriptionMethod::Subscribe, vec!["a\"b".to_string()], 2);
    assert_eq!(
        escaped.to_text().expect("frame"),
        "{\"method\":\"SUBSCRIBE\",\"params\":[\"a\\\"b\"],\"id\":2}"
    );
    assert_eq!(WsSubscriptionCommand::frame(WsSubscriptionMethod::Subscribe, "[]", 7), "{\"method\":\"SUBSCRIBE\",\"params\":[],\"id\":7}");
}

fn sent(action: SessionAction) -> String {
    match action {
        SessionAction::Send(text) => text,
        other => panic!("expected a frame, got {other:?}"),
    }
}

#[test]
fn session_tracks_subscriptions_and_numbers_its_frames() {
    let mut session = WsSession::new();
    assert_eq!(session.next_id(), 1);
    assert_eq!(session.active_len(), 0);
    let book = depth(Symbol::SOLUSDT, None, None);
    let ticker = StreamSpec::BookTicker { symbol: Symbol::SOLUSDT };

    let first = sent(session.on_command(&StreamCommand::Subscribe(vec![book, ticker])));
    assert_eq!(first, "{\"method\":\"SUBSCRIBE\",\"params\":[\"solusdt@depth\",\"solusdt@bookTicker\"],\"id\":1}");
    assert!(session.is_active(&book) && session.is_active(&ticker));
    assert_eq!(session.active_len(), 2);
    assert_eq!(session.next_id(), 2);

    let again = sent(session.on_command(&StreamCommand::Subscribe(vec![book])));
    assert_eq!(again, "{\"method\":\"SUBSCRIBE\",\"params\":[\"solusdt@depth\"],\"id\":2}");
    assert_eq!(session.active_len(), 2);

    let gone = sent(session.on_command(&StreamCommand::Unsubscribe(vec![book, StreamSpec::TradeLite])));
    assert_eq!(gone, "{\"method\":\"UNSUBSCRIBE\",\"params\":[\"solusdt@depth\",\"TRADE_LITE\"],\"id\":3}");
    assert!(!session.is_active(&book) && session.is_active(&ticker));
    assert_eq!(session.active_len(), 1);
    assert_eq!(session.next_id(), 4);

    assert!(matches!(session.on_command(&StreamCommand::Shutdown), SessionAction::Stop));
    assert_eq!(session.next_id(), 4);
    assert_eq!(session.active_len(), 1);
}

#[test]
fn inbound_frames_are_decoded_ignored_or_end_the_session() {
    assert_eq!(WsSession::on_inbound(Inbound::Text), InboundAction::Decode);
    assert_eq!(WsSession::on_inbound(Inbound::Binary), InboundAction::Decode);
    assert_eq!(WsSession::on_inbound(Inbound::Ping), InboundAction::Ignore);
    assert_eq!(WsSession::on_inbound(Inbound::Pong), InboundAction::Ignore);
    assert_eq!(WsSession::on_inbound(Inbound::Frame), InboundAction::Ignore);
    assert_eq!(WsSession::on_inbound(Inbound::Close), InboundAction::Stop);
    assert_eq!(WsSession::on_inbound(Inbound::Failed), InboundAction::Stop);
    assert_eq!(WsSession::on_inbound(Inbound::Ended), InboundAction::Stop);
}

#[test]
fn equal_specs_name_the_same_stream() {
    assert!(depth(Symbol::BTCUSDT, Some(5), None) == depth(Symbol::BTCUSDT, Some(5), None));
    assert!(depth(Symbol::BTCUSDT, Some(5), None) != depth(Symbol::BTCUSDT, None, Some(5)));
    assert!(depth(Symbol::BTCUSDT, None, None) != depth(Symbol::ETHUSDT, None, None));
    assert!(StreamSpec::TradeLite == StreamSpec::TradeLite);
    assert!(StreamSpec::Trade { symbol: Symbol::SOLUSDT } != StreamSpec::AggTrade { symbol: Symbol::SOLUSDT });
    let set: std::collections::HashSet<StreamSpec> =
        [StreamSpec::TradeLite, StreamSpec::TradeLite, StreamSpec::AccountUpdate].into_iter().collect();
    assert_eq!(set.len(), 2);
}
