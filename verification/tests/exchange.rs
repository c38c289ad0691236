use ceraunus::config::AccountConfidential;
use ceraunus::decimal::Decimal;
use ceraunus::error::{ApiError, DataError, MessageCodecError, TradingCoreError};
use ceraunus::exchange::{
    check_open_request, check_response, is_success, listen_key_of, map_api_error, read_listen_key,
    signed_query, unsigned_millis, Client, ENDPOINT_REST, TEST_ENDPOINT_REST,
};
use ceraunus::ids::client_id_text;
use ceraunus::order::{OrderKind, Side, Symbol, TimeInForce};
use ceraunus::request::RequestOpen;

fn client(secret: &str, testnet: bool) -> Client {
    Client::new(
        AccountConfidential::new("test".to_string(), "key".to_string(), secret.to_string(), testnet),
        Symbol::BNBUSDT,
    )
}

fn request(time_in_force: TimeInForce, good_till_date: Option<u64>) -> RequestOpen {
    RequestOpen::new(
        Side::Buy,
        Decimal::new(69, 0).expect("price"),
        Decimal::new(10, 1).expect("quantity"),
        OrderKind::Limit,
        7,
        time_in_force,
        good_till_date,
    )
}

#[test]
fn the_client_picks_the_endpoint_of_its_network() {
    let test = client("s", true);
    assert_eq!(test.endpoint, TEST_ENDPOINT_REST);
    assert!(test.is_testnet);
    assert_eq!(test.api_key, "key");
    let real = client("s", false);
    assert_eq!(real.endpoint, ENDPOINT_REST);
    assert_eq!(real.endpoint, "https://fapi.binance.com");
    assert_eq!(real.url("/fapi/v1/listenKey"), "https://fapi.binance.com/fapi/v1/listenKey");
    assert_eq!(real.delete_url("/fapi/v1/order", "a=1&signature=ff"), "https://fapi.binance.com/fapi/v1/order?a=1&signature=ff");
}

#[test]
fn queries_are_signed_with_hmac_sha256_in_hex() {
    let signed = client("key", false).sign("The quick brown fox jumps over the lazy dog").expect("signature");
    assert_eq!(
        signed,
        "The quick brown fox jumps over the lazy dog&signature=f7bc83f430538424b13298e6aa6fb143ef4d59a14946175997479dbc2d1a3cd8"
    );
    let empty = client("key", false).sign("").expect("signature");
    assert_eq!(empty.len(), "&signature=".len() + 64);
    assert!(empty.starts_with("&signature="));
    assert_eq!(signed_query("a=1", &[0x00, 0x0f, 0xa0, 0xff]), "a=1&signature=000fa0ff");
    assert_eq!(signed_query("", &[]), "&signature=");
}

#[test]
fn order_queries_carry_symbol_and_timestamp() {
    let c = client("s", true);
    assert_eq!(
        c.open_order_query("side=BUY&price=69", 1591702613943),
        "side=BUY&price=69&symbol=BNBUSDT&timestamp=1591702613943"
    );
    assert_eq!(
        c.cancel_order_query(0x550e8400e29b41d4a716446655440000, 12),
        "symbol=BNBUSDT&origClientOrderId=550e8400-e29b-41d4-a716-446655440000&timestamp=12"
    );
    assert_eq!(client_id_text(0), "00000000-0000-0000-0000-000000000000");
    assert_eq!(client_id_text(u128::MAX), "ffffffff-ffff-ffff-ffff-ffffffffffff");
    assert_eq!(client_id_text(0x0123456789abcdef0fedcba987654321), "01234567-89ab-cdef-0fed-cba987654321");
    assert_eq!(client_id_text(0xa0), "00000000-0000-0000-0000-0000000000a0");
    assert!(Client::now_u64() > 1_600_000_000_000);
}

#[test]
fn time_in_force_and_expiry_must_go_together() {
    assert!(check_open_request(&request(TimeInForce::GoodUntilDate, Some(1))).is_ok());
    assert!(check_open_request(&request(TimeInForce::GoodUntilCancel, None)).is_ok());
    assert!(check_open_request(&request(TimeInForce::FillOrKill, None)).is_ok());
    for bad in [request(TimeInForce::GoodUntilDate, None), request(TimeInForce::GoodUntilCancel, Some(1)), request(TimeInForce::ImmediateOrCancel, Some(1))] {
        match check_open_request(&bad) {
            Err(DataError::BadDefinition { reason }) => assert_eq!(reason, "Unmatched timeInForce and goodTilDate"),
            other => panic!("expected a bad definition, got {other:?}"),
        }
    }
}

#[test]
fn failed_responses_become_api_errors() {
    assert!(is_success(200) && is_success(204) && is_success(299));
    assert!(!is_success(199) && !is_success(300) && !is_success(429) && !is_success(0));
    assert!(matches!(map_api_error(429, "slow".to_string()), ApiError::RateLimit { status: 429, body } if body == "slow"));
    assert!(matches!(map_api_error(400, "bad".to_string()), ApiError::Unknown { status: 400, body } if body == "bad"));
    assert_eq!(check_response(200, "fine".to_string()).expect("body"), "fine");
    assert!(matches!(check_response(500, "down".to_string()), Err(ApiError::Unknown { status: 500, .. })));
    assert!(matches!(check_response(429, "slow".to_string()), Err(ApiError::RateLimit { status: 429, .. })));
}

#[test]
fn the_listen_key_is_read_from_the_response() {
    assert_eq!(read_listen_key(200, "{\"listenKey\":\"abc123\"}".to_string()).expect("key"), "abc123");
    assert_eq!(read_listen_key(200, "{\"x\":1,\"listenKey\":\"k\"}".to_string()).expect("key"), "k");
    assert!(matches!(
        read_listen_key(200, "{\"other\":\"abc\"}".to_string()),
        Err(TradingCoreError::MessageCodec(MessageCodecError::MissingField("listenKey")))
    ));
    assert!(matches!(
        read_listen_key(200, "{\"listenKey\":5}".to_string()),
        Err(TradingCoreError::MessageCodec(MessageCodecError::MissingField("listenKey")))
    ));
    assert!(matches!(
        read_listen_key(200, "no json".to_string()),
        Err(TradingCoreError::MessageCodec(MessageCodecError::Serde(_)))
    ));
    assert!(matches!(
        read_listen_key(429, "{\"listenKey\":\"abc\"}".to_string()),
        Err(TradingCoreError::Api(ApiError::RateLimit { status: 429, .. }))
    ));
    assert!(matches!(
        read_listen_key(503, "".to_string()),
        Err(TradingCoreError::Api(ApiError::Unknown { status: 503, .. }))
    ));
    assert_eq!(listen_key_of(Ok(Some("k".to_string()))).expect("key"), "k");
    assert!(listen_key_of(Ok(None)).is_err());
}

#[test]
fn clock_readings_before_the_epoch_count_as_zero() {
    assert_eq!(unsigned_millis(0), 0);
    assert_eq!(unsigned_millis(1591702613943), 1591702613943);
    assert_eq!(unsigned_millis(-1), 0);
    assert_eq!(unsigned_millis(i64::MIN), 0);
    assert_eq!(unsigned_millis(i64::MAX), i64::MAX as u64);
    let now = Client::now_u64();
    assert!(now > 1_600_000_000_000 && now <= i64::MAX as u64);
}
