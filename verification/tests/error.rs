use ceraunus::decimal::Decimal;
use ceraunus::error::{
    ApiError, ConfigError, ConnectivityError, DataError, EngineError, MessageCodecError,
    SocketError, TradingCoreError,
};
use ceraunus::market::Level;

#[test]
fn errors_wrap_into_the_core_error() {
    let api = ApiError::OrderRejected { status: 400, body: "no".to_string() };
    assert!(matches!(TradingCoreError::from(api), TradingCoreError::Api(ApiError::OrderRejected { status: 400, .. })));
    let funds = ApiError::BalanceInsufficient { status: 400, body: "poor".to_string() };
    assert!(matches!(TradingCoreError::from(funds), TradingCoreError::Api(ApiError::BalanceInsufficient { .. })));
    let net = ConnectivityError::Network("timeout".to_string());
    assert!(matches!(TradingCoreError::from(net), TradingCoreError::Connectivity(ConnectivityError::Network(text)) if text == "timeout"));
    let codec = MessageCodecError::MissingField("listenKey");
    assert!(matches!(TradingCoreError::from(codec), TradingCoreError::MessageCodec(MessageCodecError::MissingField("listenKey"))));
    let data = DataError::WebSocket(SocketError::InvalidListenKey);
    assert!(matches!(TradingCoreError::from(data), TradingCoreError::Data(DataError::WebSocket(SocketError::InvalidListenKey))));
    assert!(matches!(TradingCoreError::from(EngineError::Arithmetic), TradingCoreError::Engine(EngineError::Arithmetic)));
    let missing = ConfigError::AccountNotFound { name: "x".to_string() };
    assert!(matches!(DataError::from(missing), DataError::Config(ConfigError::AccountNotFound { name }) if name == "x"));
}

#[test]
fn json_errors_are_codec_errors() {
    let bad = || serde_json::from_str::<serde_json::Value>("{").expect_err("no json");
    assert!(matches!(TradingCoreError::from(bad()), TradingCoreError::MessageCodec(MessageCodecError::Serde(_))));
    assert!(matches!(MessageCodecError::from(bad()), MessageCodecError::Serde(_)));
    assert!(matches!(DataError::from(bad()), DataError::Serde(_)));
}

#[test]
fn levels_convert_from_and_to_pairs() {
    let price = Decimal::new(1005, 1).expect("price");
    let quantity = Decimal::new(3, 0).expect("quantity");
    let level = Level::from((price, quantity));
    assert_eq!(level.price.to_text(), "100.5");
    assert_eq!(level.quantity.to_text(), "3");
    let by_ref = Level::from((&price, &quantity));
    assert_eq!(by_ref.price.to_text(), "100.5");
    let (p, q): (Decimal, Decimal) = level.into();
    assert!(p.equals(&price) && q.equals(&quantity));
}
