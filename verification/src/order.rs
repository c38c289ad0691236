//! The closed vocabularies of the venue: symbols, sides, order kinds, order
//! statuses and the like, each with the name it carries on the wire.
use vstd::prelude::*;

verus! {

/// Identifier that the client gives an order: the 128 bits of a UUID.
pub type ClientId = u128;

/// How an order is priced.
#[derive(Debug, Clone, Copy, PartialEq, Eq, Structural)]
pub enum OrderKind {
    Limit,
    Market,
}

impl OrderKind {
    /// The upper-case name used on the wire.
    pub open spec fn spec_name(self) -> Seq<char> {
        match self {
            OrderKind::Limit => "LIMIT"@,
            OrderKind::Market => "MARKET"@,
        }
    }

    pub fn as_str(&self) -> (s: &'static str)
        ensures
            s@ == self.spec_name(),
    {
        match self {
            OrderKind::Limit => "LIMIT",
            OrderKind::Market => "MARKET",
        }
    }
}

/// Where an order stands at the venue.
#[derive(Debug, Clone, Copy, PartialEq, Eq, Structural)]
pub enum OrderStatus {
    New,
    PartiallyFilled,
    Filled,
    Canceled,
    Rejected,
    Expired,
    ExpiredInMatch,
}

impl OrderStatus {
    /// The upper-case, underscore-separated name used on the wire.
    pub open spec fn spec_name(self) -> Seq<char> {
        match self {
            OrderStatus::New => "NEW"@,
            OrderStatus::PartiallyFilled => "PARTIALLY_FILLED"@,
            OrderStatus::Filled => "FILLED"@,
            OrderStatus::Canceled => "CANCELED"@,
            OrderStatus::Rejected => "REJECTED"@,
            OrderStatus::Expired => "EXPIRED"@,
            OrderStatus::ExpiredInMatch => "EXPIRED_IN_MATCH"@,
        }
    }

    pub fn as_str(&self) -> (s: &'static str)
        ensures
            s@ == self.spec_name(),
    {
        match self {
            OrderStatus::New => "NEW",
            OrderStatus::PartiallyFilled => "PARTIALLY_FILLED",
            OrderStatus::Filled => "FILLED",
            OrderStatus::Canceled => "CANCELED",
            OrderStatus::Rejected => "REJECTED",
            OrderStatus::Expired => "EXPIRED",
            OrderStatus::ExpiredInMatch => "EXPIRED_IN_MATCH",
        }
    }
}

/// Margin assets.
#[derive(Debug, Clone, Copy, PartialEq, Eq, Hash, Structural)]
pub enum Asset {
    USDT,
    BUSD,
}

impl Asset {
    pub open spec fn spec_name(self) -> Seq<char> {
        match self {
            Asset::USDT => "USDT"@,
            Asset::BUSD => "BUSD"@,
        }
    }

    pub fn as_str(&self) -> (s: &'static str)
        ensures
            s@ == self.spec_name(),
    {
        match self {
            Asset::USDT => "USDT",
            Asset::BUSD => "BUSD",
        }
    }
}

/// Trading pairs the client knows how to quote.
#[derive(Debug, Clone, Copy, PartialEq, Eq, Hash, Structural)]
pub enum Symbol {
    BTCUSDT,
    ETHUSDT,
    SOLUSDT,
    BNBUSDT,
}

/// Number of trading pairs.
pub const SYMBOL_COUNT: usize = 4;

impl Symbol {
    /// Position of the pair in a dense per-symbol table.
    pub open spec fn spec_index(self) -> int {
        match self {
            Symbol::BTCUSDT => 0,
            Symbol::ETHUSDT => 1,
            Symbol::SOLUSDT => 2,
            Symbol::BNBUSDT => 3,
        }
    }

    /// The lower-case name, as stream names spell it.
    pub open spec fn spec_lowercase(self) -> Seq<char> {
        match self {
            Symbol::BTCUSDT => "btcusdt"@,
            Symbol::ETHUSDT => "ethusdt"@,
            Symbol::SOLUSDT => "solusdt"@,
            Symbol::BNBUSDT => "bnbusdt"@,
        }
    }

    /// The upper-case name, as REST queries spell it.
    pub open spec fn spec_name(self) -> Seq<char> {
        match self {
            Symbol::BTCUSDT => "BTCUSDT"@,
            Symbol::ETHUSDT => "ETHUSDT"@,
            Symbol::SOLUSDT => "SOLUSDT"@,
            Symbol::BNBUSDT => "BNBUSDT"@,
        }
    }

    pub fn index(&self) -> (i: usize)
        ensures
            i == self.spec_index(),
            i < SYMBOL_COUNT,
    {
        match self {
            Symbol::BTCUSDT => 0,
            Symbol::ETHUSDT => 1,
            Symbol::SOLUSDT => 2,
            Symbol::BNBUSDT => 3,
        }
    }

    /// The pair at a table position, if there is one.
    pub fn from_index(i: usize) -> (r: Option<Symbol>)
        ensures
            r.is_some() == (i < SYMBOL_COUNT),
            r matches Some(s) ==> s.spec_index() == i,
    {
        if i == 0 {
            Some(Symbol::BTCUSDT)
        } else if i == 1 {
            Some(Symbol::ETHUSDT)
        } else if i == 2 {
            Some(Symbol::SOLUSDT)
        } else if i == 3 {
            Some(Symbol::BNBUSDT)
        } else {
            None
        }
    }

    pub fn as_str_lowercase(&self) -> (s: &str)
        ensures
            s@ == self.spec_lowercase(),
    {
        match self {
            Symbol::BTCUSDT => "btcusdt",
            Symbol::ETHUSDT => "ethusdt",
            Symbol::SOLUSDT => "solusdt",
            Symbol::BNBUSDT => "bnbusdt",
        }
    }

    pub fn as_str(&self) -> (s: &'static str)
        ensures
            s@ == self.spec_name(),
    {
        match self {
            Symbol::BTCUSDT => "BTCUSDT",
            Symbol::ETHUSDT => "ETHUSDT",
            Symbol::SOLUSDT => "SOLUSDT",
            Symbol::BNBUSDT => "BNBUSDT",
        }
    }
}

/// Direction of an order.
#[derive(Debug, Clone, Copy, PartialEq, Eq, Structural)]
pub enum Side {
    Buy,
    Sell,
}

impl Side {
    pub open spec fn spec_name(self) -> Seq<char> {
        match self {
            Side::Buy => "BUY"@,
            Side::Sell => "SELL"@,
        }
    }

    pub fn as_str(&self) -> (s: &'static str)
        ensures
            s@ == self.spec_name(),
    {
        match self {
            Side::Buy => "BUY",
            Side::Sell => "SELL",
        }
    }
}

/// How long an order stays on the book.
#[derive(Debug, Clone, Copy, PartialEq, Eq, Structural)]
pub enum TimeInForce {
    GoodUntilCancel,
    GoodUntilDate,
    GoodTillCrossing,
    FillOrKill,
    ImmediateOrCancel,
}

impl TimeInForce {
    /// The three-letter code used on the wire.
    pub open spec fn spec_name(self) -> Seq<char> {
        match self {
            TimeInForce::GoodUntilCancel => "GTC"@,
            TimeInForce::GoodUntilDate => "GTD"@,
            TimeInForce::GoodTillCrossing => "GTX"@,
            TimeInForce::FillOrKill => "FOK"@,
            TimeInForce::ImmediateOrCancel => "IOC"@,
        }
    }

    pub fn as_str(&self) -> (s: &'static str)
        ensures
            s@ == self.spec_name(),
    {
        match self {
            TimeInForce::GoodUntilCancel => "GTC",
            TimeInForce::GoodUntilDate => "GTD",
            TimeInForce::GoodTillCrossing => "GTX",
            TimeInForce::FillOrKill => "FOK",
            TimeInForce::ImmediateOrCancel => "IOC",
        }
    }
}

} // verus!
