//! Errors that the library reports.
use vstd::prelude::*;
use crate::order::ClientId;

verus! {

/// A decimal computation overflowed or divided by zero.
#[derive(Debug, Clone, Copy, PartialEq, Eq, Structural)]
pub struct ArithmeticError;

/// Why an order update could not be applied to the trading state.
#[derive(Debug, Clone, Copy, PartialEq, Eq, Structural)]
pub enum EngineError {
    /// The order was tracked once and has since been completed.
    OrderCompleted { client_order_id: ClientId },
    /// The order was never registered.
    Untracked { client_order_id: ClientId },
    /// The fill could not be booked into the ledger.
    Arithmetic,
}

/// Errors of a stream connection.
#[derive(Debug, Clone, Copy, PartialEq, Eq, Structural)]
pub enum SocketError {
    InvalidListenKey,
}

/// Errors of loading the configuration.
#[derive(Debug)]
pub enum ConfigError {
    /// The file could not be read; the text says why.
    Io(String),
    /// The configuration is no valid TOML; the text says why.
    Toml(String),
    /// The account table is no valid CSV; the text says why.
    Csv(String),
    /// The account table has no account of that name.
    AccountNotFound { name: String },
}

/// Errors of the data layer.
#[derive(Debug)]
pub enum DataError {
    Config(ConfigError),
    /// A payload could not be decoded.
    Serde(serde_json::Error),
    /// A request contradicts itself.
    BadDefinition { reason: &'static str },
    WebSocket(SocketError),
}

/// A response of the venue with a status outside 200 to 299.
#[derive(Debug)]
pub enum ApiError {
    RateLimit { status: u16, body: String },
    BalanceInsufficient { status: u16, body: String },
    OrderRejected { status: u16, body: String },
    Unknown { status: u16, body: String },
}

/// Errors of the network.
#[derive(Debug)]
pub enum ConnectivityError {
    /// The request did not get through; the text says why.
    Network(String),
}

/// Errors of encoding and decoding messages.
#[derive(Debug)]
pub enum MessageCodecError {
    /// An address could not be parsed; the text says why.
    Url(String),
    MissingField(&'static str),
    Serde(serde_json::Error),
    /// A query could not be URL-encoded; the text says why.
    SerdeUrl(String),
    Hmac(hmac::digest::InvalidLength),
}

/// Every error of the trading core.
#[derive(Debug)]
pub enum TradingCoreError {
    Api(ApiError),
    Connectivity(ConnectivityError),
    MessageCodec(MessageCodecError),
    Data(DataError),
    Engine(EngineError),
    ClientInitialization(String),
    Unrecoverable(String),
}

impl From<ConfigError> for DataError {
    fn from(err: ConfigError) -> (r: DataError) {
        DataError::Config(err)
    }
}

impl vstd::std_specs::convert::FromSpecImpl<ConfigError> for DataError {
    open spec fn obeys_from_spec() -> bool {
        true
    }

    open spec fn from_spec(err: ConfigError) -> DataError {
        DataError::Config(err)
    }
}

impl From<serde_json::Error> for DataError {
    fn from(err: serde_json::Error) -> (r: DataError) {
        DataError::Serde(err)
    }
}

impl vstd::std_specs::convert::FromSpecImpl<serde_json::Error> for DataError {
    open spec fn obeys_from_spec() -> bool {
        true
    }

    open spec fn from_spec(err: serde_json::Error) -> DataError {
        DataError::Serde(err)
    }
}

impl From<serde_json::Error> for MessageCodecError {
    fn from(err: serde_json::Error) -> (r: MessageCodecError) {
        MessageCodecError::Serde(err)
    }
}

impl vstd::std_specs::convert::FromSpecImpl<serde_json::Error> for MessageCodecError {
    open spec fn obeys_from_spec() -> bool {
        true
    }

    open spec fn from_spec(err: serde_json::Error) -> MessageCodecError {
        MessageCodecError::Serde(err)
    }
}

impl From<hmac::digest::InvalidLength> for MessageCodecError {
    fn from(err: hmac::digest::InvalidLength) -> (r: MessageCodecError) {
        MessageCodecError::Hmac(err)
    }
}

impl vstd::std_specs::convert::FromSpecImpl<hmac::digest::InvalidLength> for MessageCodecError {
    open spec fn obeys_from_spec() -> bool {
        true
    }

    open spec fn from_spec(err: hmac::digest::InvalidLength) -> MessageCodecError {
        MessageCodecError::Hmac(err)
    }
}

impl From<ApiError> for TradingCoreError {
    fn from(err: ApiError) -> (r: TradingCoreError) {
        TradingCoreError::Api(err)
    }
}

impl vstd::std_specs::convert::FromSpecImpl<ApiError> for TradingCoreError {
    open spec fn obeys_from_spec() -> bool {
        true
    }

    open spec fn from_spec(err: ApiError) -> TradingCoreError {
        TradingCoreError::Api(err)
    }
}

impl From<ConnectivityError> for TradingCoreError {
    fn from(err: ConnectivityError) -> (r: TradingCoreError) {
        TradingCoreError::Connectivity(err)
    }
}

impl vstd::std_specs::convert::FromSpecImpl<ConnectivityError> for TradingCoreError {
    open spec fn obeys_from_spec() -> bool {
        true
    }

    open spec fn from_spec(err: ConnectivityError) -> TradingCoreError {
        TradingCoreError::Connectivity(err)
    }
}

impl From<MessageCodecError> for TradingCoreError {
    fn from(err: MessageCodecError) -> (r: TradingCoreError) {
        TradingCoreError::MessageCodec(err)
    }
}

impl vstd::std_specs::convert::FromSpecImpl<MessageCodecError> for TradingCoreError {
    open spec fn obeys_from_spec() -> bool {
        true
    }

    open spec fn from_spec(err: MessageCodecError) -> TradingCoreError {
        TradingCoreError::MessageCodec(err)
    }
}

impl From<DataError> for TradingCoreError {
    fn from(err: DataError) -> (r: TradingCoreError) {
        TradingCoreError::Data(err)
    }
}

impl vstd::std_specs::convert::FromSpecImpl<DataError> for TradingCoreError {
    open spec fn obeys_from_spec() -> bool {
        true
    }

    open spec fn from_spec(err: DataError) -> TradingCoreError {
        TradingCoreError::Data(err)
    }
}

impl From<EngineError> for TradingCoreError {
    fn from(err: EngineError) -> (r: TradingCoreError) {
        TradingCoreError::Engine(err)
    }
}

impl vstd::std_specs::convert::FromSpecImpl<EngineError> for TradingCoreError {
    open spec fn obeys_from_spec() -> bool {
        true
    }

    open spec fn from_spec(err: EngineError) -> TradingCoreError {
        TradingCoreError::Engine(err)
    }
}

impl From<serde_json::Error> for TradingCoreError {
    fn from(err: serde_json::Error) -> (r: TradingCoreError) {
        TradingCoreError::MessageCodec(MessageCodecError::Serde(err))
    }
}

impl vstd::std_specs::convert::FromSpecImpl<serde_json::Error> for TradingCoreError {
    open spec fn obeys_from_spec() -> bool {
        true
    }

    open spec fn from_spec(err: serde_json::Error) -> TradingCoreError {
        TradingCoreError::MessageCodec(MessageCodecError::Serde(err))
    }
}

} // verus!
