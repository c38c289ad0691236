use ceraunus::account::{AccountEventType, ExecutionType, MarginType, PositionSide};
use ceraunus::order::{Asset, OrderKind, OrderStatus, Side, Symbol, TimeInForce};

#[test]
fn symbols_have_wire_names_and_dense_indexes() {
    assert_eq!(Symbol::BTCUSDT.as_str_lowercase(), "btcusdt");
    assert_eq!(Symbol::ETHUSDT.as_str_lowercase(), "ethusdt");
    assert_eq!(Symbol::SOLUSDT.as_str_lowercase(), "solusdt");
    assert_eq!(Symbol::BNBUSDT.as_str_lowercase(), "bnbusdt");
    assert_eq!(Symbol::BNBUSDT.as_str(), "BNBUSDT");
    for (i, symbol) in [Symbol::BTCUSDT, Symbol::ETHUSDT, Symbol::SOLUSDT, Symbol::BNBUSDT].into_iter().enumerate() {
        assert_eq!(symbol.index(), i);
        assert_eq!(Symbol::from_index(i), Some(symbol));
    }
    assert_eq!(Symbol::from_index(4), None);
}

#[test]
fn vocabularies_have_wire_names() {
    assert_eq!(OrderKind::Limit.as_str(), "LIMIT");
    assert_eq!(OrderKind::Market.as_str(), "MARKET");
    assert_eq!(OrderStatus::PartiallyFilled.as_str(), "PARTIALLY_FILLED");
    assert_eq!(OrderStatus::ExpiredInMatch.as_str(), "EXPIRED_IN_MATCH");
    assert_eq!(Side::Buy.as_str(), "BUY");
    assert_eq!(Side::Sell.as_str(), "SELL");
    assert_eq!(TimeInForce::GoodUntilCancel.as_str(), "GTC");
    assert_eq!(TimeInForce::GoodUntilDate.as_str(), "GTD");
    assert_eq!(TimeInForce::GoodTillCrossing.as_str(), "GTX");
    assert_eq!(TimeInForce::FillOrKill.as_str(), "FOK");
    assert_eq!(TimeInForce::ImmediateOrCancel.as_str(), "IOC");
    assert_eq!(Asset::USDT.as_str(), "USDT");
    assert_eq!(ExecutionType::Amendment.as_str(), "AMENDMENT");
    assert_eq!(AccountEventType::FundingFee.as_str(), "FUNDING_FEE");
    assert_eq!(AccountEventType::CoinSwapWithdraw.as_str(), "COIN_SWAP_WITHDRAW");
    assert_eq!(MarginType::Isolated.as_str(), "isolated");
    assert_eq!(PositionSide::Both.as_str(), "BOTH");
}
