use ceraunus::config::{
    bool_from_string, AccountConfidential, AccountConfig, DataCenterConfig, EndpointMap,
    Environment, ExchangeConfig, LoggingConfig, LoggingConsoleConfig, LoggingFileConfig,
    RestConfig, WsConfig,
};
use ceraunus::error::ConfigError;
use ceraunus::order::Symbol;

fn account(name: &str, key: &str, testnet: bool) -> AccountConfidential {
    AccountConfidential::new(name.to_string(), key.to_string(), "secret".to_string(), testnet)
}

fn table() -> Vec<AccountConfidential> {
    vec![account("prod2_r", "k1", false), account("test", "k2", true), account("test", "k3", false)]
}

#[test]
fn test_read_confidential_from_csv() {
    let records = table();
    let test_res = AccountConfidential::find("test", &records);
    let prod_res = AccountConfidential::find("prod2_r", &records);
    let fail_res = AccountConfidential::find("urmom", &records);

    assert!(test_res.is_ok());
    assert!(prod_res.is_ok());
    assert!(fail_res.is_err());
}

#[test]
fn the_first_account_of_a_name_is_found() {
    let records = table();
    let found = AccountConfidential::find("test", &records).expect("account");
    assert_eq!(found.api_key, "k2");
    assert!(found.is_testnet());
    match AccountConfidential::find("nobody", &records) {
        Err(ConfigError::AccountNotFound { name }) => assert_eq!(name, "nobody"),
        other => panic!("expected a missing account, got {other:?}"),
    }
    assert!(AccountConfidential::find("test", &[]).is_err());
}

#[test]
fn flags_of_the_account_table() {
    for yes in ["true", "TRUE", "True", "tRuE"] {
        assert!(bool_from_string(yes));
    }
    for no in ["false", "", "1", "yes", "true ", "truee", "tru"] {
        assert!(!bool_from_string(no));
    }
}

#[test]
fn endpoints_follow_the_environment() {
    let endpoints = |p: &str, t: &str| EndpointMap { production: p.to_string(), testnet: t.to_string() };
    let config = |environment| DataCenterConfig {
        logging: LoggingConfig {
            file_log: true,
            console_log: true,
            file: LoggingFileConfig {
                dir: "log".to_string(),
                name: "app.log".to_string(),
                rolling: "daily".to_string(),
                level: "info".to_string(),
                json: false,
            },
            console: LoggingConsoleConfig { level: "info".to_string(), pretty: false },
        },
        account: AccountConfig {
            exchange: "binance".to_string(),
            environment,
            name: "test".to_string(),
            csv_path: "accounts.csv".to_string(),
        },
        exchange: ExchangeConfig {
            symbols: vec![Symbol::SOLUSDT],
            rest: RestConfig { endpoints: endpoints("https://rest", "https://rest.test") },
            ws: WsConfig { endpoints: endpoints("wss://ws", "wss://ws.test") },
        },
    };
    assert_eq!(config(Environment::Production).rest_endpoint(), "https://rest");
    assert_eq!(config(Environment::Testnet).rest_endpoint(), "https://rest.test");
    assert_eq!(config(Environment::Production).ws_endpoint(), "wss://ws");
    assert_eq!(config(Environment::Testnet).ws_endpoint(), "wss://ws.test");
}
