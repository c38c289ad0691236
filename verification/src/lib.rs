//! A single-venue futures market-making client: stream subscriptions, a local
//! order book kept in step with the venue, order tracking and a PnL ledger.
pub mod account;
pub mod book;
pub mod clock;
pub mod codec;
pub mod config;
pub mod decimal;
pub mod dispatch;
pub mod engine;
pub mod error;
pub mod exchange;
pub mod ids;
pub mod local_order;
pub mod market;
pub mod order;
pub mod order_request;
pub mod pnl;
pub mod request;
pub mod response;
pub mod strategy;
pub mod subscription;
pub mod tables;
pub mod text;

pub use book::OrderBook;
pub use decimal::Decimal;
pub use error::{ApiError, ConnectivityError, DataError, TradingCoreError};
pub use local_order::Order;
pub use pnl::ProfitAndLoss;
