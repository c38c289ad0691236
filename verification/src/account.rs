//! User data payloads: order updates, lite trades and account updates.
use vstd::prelude::*;
use crate::decimal::Decimal;
use crate::market::Timestamp;
use crate::order::{Asset, ClientId, OrderKind, OrderStatus, Side, Symbol, TimeInForce};

verus! {

/// What happened to an order in one update.
#[derive(Debug, Clone, Copy, PartialEq, Eq, Structural)]
pub enum ExecutionType {
    New,
    Canceled,
    Calculated,
    Expired,
    Trade,
    Amendment,
}

impl ExecutionType {
    /// The name used on the wire.
    pub open spec fn spec_name(self) -> Seq<char> {
        match self {
            ExecutionType::New => "NEW"@,
            ExecutionType::Canceled => "CANCELED"@,
            ExecutionType::Calculated => "CALCULATED"@,
            ExecutionType::Expired => "EXPIRED"@,
            ExecutionType::Trade => "TRADE"@,
            ExecutionType::Amendment => "AMENDMENT"@,
        }
    }

    pub fn as_str(&self) -> (s: &'static str)
        ensures
            s@ == self.spec_name(),
    {
        match self {
            ExecutionType::New => "NEW",
            ExecutionType::Canceled => "CANCELED",
            ExecutionType::Calculated => "CALCULATED",
            ExecutionType::Expired => "EXPIRED",
            ExecutionType::Trade => "TRADE",
            ExecutionType::Amendment => "AMENDMENT",
        }
    }
}

/// The order section of an order update.
#[derive(Debug, Clone, Copy)]
pub struct OrderTradeUpdate {
    pub symbol: Symbol,
    pub client_order_id: ClientId,
    pub side: Side,
    pub order_kind: OrderKind,
    pub time_in_force: TimeInForce,
    pub orig_qty: Decimal,
    pub orig_price: Decimal,
    pub avg_price: Decimal,
    pub exec_type: ExecutionType,
    pub order_status: OrderStatus,
    pub order_id: u64,
    /// Quantity of the last fill.
    pub last_filled_qty: Decimal,
    /// Quantity filled so far.
    pub filled_qty: Decimal,
    /// Price of the last fill.
    pub last_filled_price: Decimal,
    pub commission: Decimal,
    pub trade_time: Timestamp,
    pub trade_id: u64,
    pub is_maker: bool,
    pub realized_profit: Decimal,
}

impl OrderTradeUpdate {
    pub fn new(
        symbol: Symbol,
        client_order_id: ClientId,
        side: Side,
        order_kind: OrderKind,
        time_in_force: TimeInForce,
        orig_qty: Decimal,
        orig_price: Decimal,
        avg_price: Decimal,
        exec_type: ExecutionType,
        order_status: OrderStatus,
        order_id: u64,
        last_filled_qty: Decimal,
        filled_qty: Decimal,
        last_filled_price: Decimal,
        commission: Decimal,
        trade_time: Timestamp,
        trade_id: u64,
        is_maker: bool,
        realized_profit: Decimal,
    ) -> (r: Self)
        ensures
            r == (OrderTradeUpdate { symbol, client_order_id, side, order_kind, time_in_force, orig_qty, orig_price, avg_price, exec_type, order_status, order_id, last_filled_qty, filled_qty, last_filled_price, commission, trade_time, trade_id, is_maker, realized_profit }),
    {
        OrderTradeUpdate { symbol, client_order_id, side, order_kind, time_in_force, orig_qty, orig_price, avg_price, exec_type, order_status, order_id, last_filled_qty, filled_qty, last_filled_price, commission, trade_time, trade_id, is_maker, realized_profit }
    }

    pub fn symbol(&self) -> (r: Symbol)
        ensures
            r == self.symbol,
    {
        self.symbol
    }

    pub fn client_order_id(&self) -> (r: ClientId)
        ensures
            r == self.client_order_id,
    {
        self.client_order_id
    }

    pub fn side(&self) -> (r: Side)
        ensures
            r == self.side,
    {
        self.side
    }

    pub fn order_kind(&self) -> (r: OrderKind)
        ensures
            r == self.order_kind,
    {
        self.order_kind
    }

    pub fn time_in_force(&self) -> (r: TimeInForce)
        ensures
            r == self.time_in_force,
    {
        self.time_in_force
    }

    pub fn orig_qty(&self) -> (r: Decimal)
        ensures
            r == self.orig_qty,
    {
        self.orig_qty
    }

    pub fn orig_price(&self) -> (r: Decimal)
        ensures
            r == self.orig_price,
    {
        self.orig_price
    }

    pub fn avg_price(&self) -> (r: Decimal)
        ensures
            r == self.avg_price,
    {
        self.avg_price
    }

    pub fn exec_type(&self) -> (r: ExecutionType)
        ensures
            r == self.exec_type,
    {
        self.exec_type
    }

    pub fn order_status(&self) -> (r: OrderStatus)
        ensures
            r == self.order_status,
    {
        self.order_status
    }

    pub fn order_id(&self) -> (r: u64)
        ensures
            r == self.order_id,
    {
        self.order_id
    }

    pub fn last_filled_qty(&self) -> (r: Decimal)
        ensures
            r == self.last_filled_qty,
    {
        self.last_filled_qty
    }

    pub fn filled_qty(&self) -> (r: Decimal)
        ensures
            r == self.filled_qty,
    {
        self.filled_qty
    }

    pub fn last_filled_price(&self) -> (r: Decimal)
        ensures
            r == self.last_filled_price,
    {
        self.last_filled_price
    }

    pub fn commission(&self) -> (r: Decimal)
        ensures
            r == self.commission,
    {
        self.commission
    }

    pub fn trade_time(&self) -> (r: Timestamp)
        ensures
            r == self.trade_time,
    {
        self.trade_time
    }

    pub fn trade_id(&self) -> (r: u64)
        ensures
            r == self.trade_id,
    {
        self.trade_id
    }

    pub fn is_maker(&self) -> (r: bool)
        ensures
            r == self.is_maker,
    {
        self.is_maker
    }

    pub fn realized_profit(&self) -> (r: Decimal)
        ensures
            r == self.realized_profit,
    {
        self.realized_profit
    }
}

/// An update of one of the account's orders.
#[derive(Debug, Clone, Copy)]
pub struct OrderTradeUpdateEvent {
    pub event_time: Timestamp,
    pub transaction_time: Timestamp,
    pub update: OrderTradeUpdate,
}

impl OrderTradeUpdateEvent {
    pub fn new(event_time: Timestamp, transaction_time: Timestamp, update: OrderTradeUpdate) -> (r: Self)
        ensures
            r == (OrderTradeUpdateEvent { event_time, transaction_time, update }),
    {
        OrderTradeUpdateEvent { event_time, transaction_time, update }
    }

    pub fn event_time(&self) -> (r: Timestamp)
        ensures
            r == self.event_time,
    {
        self.event_time
    }

    pub fn transaction_time(&self) -> (r: Timestamp)
        ensures
            r == self.transaction_time,
    {
        self.transaction_time
    }

    pub fn update(&self) -> (r: &OrderTradeUpdate)
        ensures
            *r == self.update,
    {
        &self.update
    }

    pub fn symbol(&self) -> (r: Symbol)
        ensures
            r == self.update.symbol,
    {
        self.update.symbol
    }

    pub fn client_order_id(&self) -> (r: ClientId)
        ensures
            r == self.update.client_order_id,
    {
        self.update.client_order_id
    }

    pub fn side(&self) -> (r: Side)
        ensures
            r == self.update.side,
    {
        self.update.side
    }

    pub fn order_kind(&self) -> (r: OrderKind)
        ensures
            r == self.update.order_kind,
    {
        self.update.order_kind
    }

    pub fn time_in_force(&self) -> (r: TimeInForce)
        ensures
            r == self.update.time_in_force,
    {
        self.update.time_in_force
    }

    pub fn orig_qty(&self) -> (r: Decimal)
        ensures
            r == self.update.orig_qty,
    {
        self.update.orig_qty
    }

    pub fn orig_price(&self) -> (r: Decimal)
        ensures
            r == self.update.orig_price,
    {
        self.update.orig_price
    }

    pub fn avg_price(&self) -> (r: Decimal)
        ensures
            r == self.update.avg_price,
    {
        self.update.avg_price
    }

    pub fn exec_type(&self) -> (r: ExecutionType)
        ensures
            r == self.update.exec_type,
    {
        self.update.exec_type
    }

    pub fn order_status(&self) -> (r: OrderStatus)
        ensures
            r == self.update.order_status,
    {
        self.update.order_status
    }

    pub fn order_id(&self) -> (r: u64)
        ensures
            r == self.update.order_id,
    {
        self.update.order_id
    }

    pub fn last_filled_qty(&self) -> (r: Decimal)
        ensures
            r == self.update.last_filled_qty,
    {
        self.update.last_filled_qty
    }

    pub fn filled_qty(&self) -> (r: Decimal)
        ensures
            r == self.update.filled_qty,
    {
        self.update.filled_qty
    }

    pub fn last_filled_price(&self) -> (r: Decimal)
        ensures
            r == self.update.last_filled_price,
    {
        self.update.last_filled_price
    }

    pub fn commission(&self) -> (r: Decimal)
        ensures
            r == self.update.commission,
    {
        self.update.commission
    }

    pub fn trade_time(&self) -> (r: Timestamp)
        ensures
            r == self.update.trade_time,
    {
        self.update.trade_time
    }

    pub fn trade_id(&self) -> (r: u64)
        ensures
            r == self.update.trade_id,
    {
        self.update.trade_id
    }

    pub fn is_maker(&self) -> (r: bool)
        ensures
            r == self.update.is_maker,
    {
        self.update.is_maker
    }

    pub fn realized_profit(&self) -> (r: Decimal)
        ensures
            r == self.update.realized_profit,
    {
        self.update.realized_profit
    }

    /// Notional of the last fill: price times quantity.
    pub open spec fn spec_last_filled_amount(self) -> Option<Decimal> {
        self.update.last_filled_price.spec_mul(self.update.last_filled_qty)
    }

    /// Notional of the last fill, or nothing when the product overflows.
    pub fn last_filled_amount(&self) -> (r: Option<Decimal>)
        ensures
            r == self.spec_last_filled_amount(),
    {
        self.update.last_filled_price.checked_mul(&self.update.last_filled_qty)
    }
}

/// A fill, in the venue's short form.
#[derive(Debug, Clone, Copy)]
pub struct TradeLite {
    pub event_time: Timestamp,
    pub transaction_time: Timestamp,
    pub symbol: Symbol,
    pub orig_qty: Decimal,
    pub orig_price: Decimal,
    pub is_maker: bool,
    pub client_order_id: ClientId,
    pub side: Side,
    pub last_filled_price: Decimal,
    pub last_filled_qty: Decimal,
    pub trade_id: u64,
    pub order_id: u64,
}

impl TradeLite {
    pub fn new(
        event_time: Timestamp,
        transaction_time: Timestamp,
        symbol: Symbol,
        orig_qty: Decimal,
        orig_price: Decimal,
        is_maker: bool,
        client_order_id: ClientId,
        side: Side,
        last_filled_price: Decimal,
        last_filled_qty: Decimal,
        trade_id: u64,
        order_id: u64,
    ) -> (r: Self)
        ensures
            r == (TradeLite { event_time, transaction_time, symbol, orig_qty, orig_price, is_maker, client_order_id, side, last_filled_price, last_filled_qty, trade_id, order_id }),
    {
        TradeLite { event_time, transaction_time, symbol, orig_qty, orig_price, is_maker, client_order_id, side, last_filled_price, last_filled_qty, trade_id, order_id }
    }

    pub fn event_time(&self) -> (r: Timestamp)
        ensures
            r == self.event_time,
    {
        self.event_time
    }

    pub fn transaction_time(&self) -> (r: Timestamp)
        ensures
            r == self.transaction_time,
    {
        self.transaction_time
    }

    pub fn symbol(&self) -> (r: Symbol)
        ensures
            r == self.symbol,
    {
        self.symbol
    }

    pub fn orig_qty(&self) -> (r: Decimal)
        ensures
            r == self.orig_qty,
    {
        self.orig_qty
    }

    pub fn orig_price(&self) -> (r: Decimal)
        ensures
            r == self.orig_price,
    {
        self.orig_price
    }

    pub fn is_maker(&self) -> (r: bool)
        ensures
            r == self.is_maker,
    {
        self.is_maker
    }

    pub fn client_order_id(&self) -> (r: ClientId)
        ensures
            r == self.client_order_id,
    {
        self.client_order_id
    }

    pub fn side(&self) -> (r: Side)
        ensures
            r == self.side,
    {
        self.side
    }

    pub fn last_filled_price(&self) -> (r: Decimal)
        ensures
            r == self.last_filled_price,
    {
        self.last_filled_price
    }

    pub fn last_filled_qty(&self) -> (r: Decimal)
        ensures
            r == self.last_filled_qty,
    {
        self.last_filled_qty
    }

    pub fn trade_id(&self) -> (r: u64)
        ensures
            r == self.trade_id,
    {
        self.trade_id
    }

    pub fn order_id(&self) -> (r: u64)
        ensures
            r == self.order_id,
    {
        self.order_id
    }
}

/// Why the account changed.
#[derive(Debug, Clone, Copy, PartialEq, Eq, Structural)]
pub enum AccountEventType {
    Deposit,
    Withdraw,
    Order,
    FundingFee,
    WithdrawReject,
    Adjustment,
    InsuranceClear,
    AdminDeposit,
    AdminWithdraw,
    MarginTransfer,
    MarginTypeChange,
    AssetTransfer,
    OptionsPremiumFee,
    OptionsSettleProfit,
    AutoExchange,
    CoinSwapDeposit,
    CoinSwapWithdraw,
}

impl AccountEventType {
    /// The name used on the wire.
    pub open spec fn spec_name(self) -> Seq<char> {
        match self {
            AccountEventType::Deposit => "DEPOSIT"@,
            AccountEventType::Withdraw => "WITHDRAW"@,
            AccountEventType::Order => "ORDER"@,
            AccountEventType::FundingFee => "FUNDING_FEE"@,
            AccountEventType::WithdrawReject => "WITHDRAW_REJECT"@,
            AccountEventType::Adjustment => "ADJUSTMENT"@,
            AccountEventType::InsuranceClear => "INSURANCE_CLEAR"@,
            AccountEventType::AdminDeposit => "ADMIN_DEPOSIT"@,
            AccountEventType::AdminWithdraw => "ADMIN_WITHDRAW"@,
            AccountEventType::MarginTransfer => "MARGIN_TRANSFER"@,
            AccountEventType::MarginTypeChange => "MARGIN_TYPE_CHANGE"@,
            AccountEventType::AssetTransfer => "ASSET_TRANSFER"@,
            AccountEventType::OptionsPremiumFee => "OPTIONS_PREMIUM_FEE"@,
            AccountEventType::OptionsSettleProfit => "OPTIONS_SETTLE_PROFIT"@,
            AccountEventType::AutoExchange => "AUTO_EXCHANGE"@,
            AccountEventType::CoinSwapDeposit => "COIN_SWAP_DEPOSIT"@,
            AccountEventType::CoinSwapWithdraw => "COIN_SWAP_WITHDRAW"@,
        }
    }

    pub fn as_str(&self) -> (s: &'static str)
        ensures
            s@ == self.spec_name(),
    {
        match self {
            AccountEventType::Deposit => "DEPOSIT",
            AccountEventType::Withdraw => "WITHDRAW",
            AccountEventType::Order => "ORDER",
            AccountEventType::FundingFee => "FUNDING_FEE",
            AccountEventType::WithdrawReject => "WITHDRAW_REJECT",
            AccountEventType::Adjustment => "ADJUSTMENT",
            AccountEventType::InsuranceClear => "INSURANCE_CLEAR",
            AccountEventType::AdminDeposit => "ADMIN_DEPOSIT",
            AccountEventType::AdminWithdraw => "ADMIN_WITHDRAW",
            AccountEventType::MarginTransfer => "MARGIN_TRANSFER",
            AccountEventType::MarginTypeChange => "MARGIN_TYPE_CHANGE",
            AccountEventType::AssetTransfer => "ASSET_TRANSFER",
            AccountEventType::OptionsPremiumFee => "OPTIONS_PREMIUM_FEE",
            AccountEventType::OptionsSettleProfit => "OPTIONS_SETTLE_PROFIT",
            AccountEventType::AutoExchange => "AUTO_EXCHANGE",
            AccountEventType::CoinSwapDeposit => "COIN_SWAP_DEPOSIT",
            AccountEventType::CoinSwapWithdraw => "COIN_SWAP_WITHDRAW",
        }
    }
}

/// New balance of one asset.
#[derive(Debug, Clone, Copy)]
pub struct BalanceUpdate {
    pub asset: Asset,
    pub wallet_balance: Decimal,
    pub cross_wallet_balance: Decimal,
    /// Change of the balance apart from PnL and commission.
    pub balance_change: Decimal,
}

impl BalanceUpdate {
    pub fn new(
        asset: Asset,
        wallet_balance: Decimal,
        cross_wallet_balance: Decimal,
        balance_change: Decimal,
    ) -> (r: Self)
        ensures
            r == (BalanceUpdate { asset, wallet_balance, cross_wallet_balance, balance_change }),
    {
        BalanceUpdate { asset, wallet_balance, cross_wallet_balance, balance_change }
    }

    pub fn asset(&self) -> (r: Asset)
        ensures
            r == self.asset,
    {
        self.asset
    }

    pub fn wallet_balance(&self) -> (r: Decimal)
        ensures
            r == self.wallet_balance,
    {
        self.wallet_balance
    }

    pub fn cross_wallet_balance(&self) -> (r: Decimal)
        ensures
            r == self.cross_wallet_balance,
    {
        self.cross_wallet_balance
    }

    pub fn balance_change(&self) -> (r: Decimal)
        ensures
            r == self.balance_change,
    {
        self.balance_change
    }
}

/// How a position is margined.
#[derive(Debug, Clone, Copy, PartialEq, Eq, Structural)]
pub enum MarginType {
    Isolated,
    Cross,
}

impl MarginType {
    /// The name used on the wire.
    pub open spec fn spec_name(self) -> Seq<char> {
        match self {
            MarginType::Isolated => "isolated"@,
            MarginType::Cross => "cross"@,
        }
    }

    pub fn as_str(&self) -> (s: &'static str)
        ensures
            s@ == self.spec_name(),
    {
        match self {
            MarginType::Isolated => "isolated",
            MarginType::Cross => "cross",
        }
    }
}

/// Side of a position in hedge mode.
#[derive(Debug, Clone, Copy, PartialEq, Eq, Structural)]
pub enum PositionSide {
    Both,
    Long,
    Short,
}

impl PositionSide {
    /// The name used on the wire.
    pub open spec fn spec_name(self) -> Seq<char> {
        match self {
            PositionSide::Both => "BOTH"@,
            PositionSide::Long => "LONG"@,
            PositionSide::Short => "SHORT"@,
        }
    }

    pub fn as_str(&self) -> (s: &'static str)
        ensures
            s@ == self.spec_name(),
    {
        match self {
            PositionSide::Both => "BOTH",
            PositionSide::Long => "LONG",
            PositionSide::Short => "SHORT",
        }
    }
}

/// New state of one position.
#[derive(Debug, Clone, Copy)]
pub struct PositionUpdate {
    pub symbol: Symbol,
    pub position_amount: Decimal,
    pub entry_price: Decimal,
    pub breakeven_price: Decimal,
    /// Realized PnL so far, before fees.
    pub accumulated_realized: Decimal,
    pub unrealized_pnl: Decimal,
    pub margin_type: MarginType,
    pub isolated_wallet: Decimal,
    pub position_side: PositionSide,
}

impl PositionUpdate {
    pub fn new(
        symbol: Symbol,
        position_amount: Decimal,
        entry_price: Decimal,
        breakeven_price: Decimal,
        accumulated_realized: Decimal,
        unrealized_pnl: Decimal,
        margin_type: MarginType,
        isolated_wallet: Decimal,
        position_side: PositionSide,
    ) -> (r: Self)
        ensures
            r == (PositionUpdate { symbol, position_amount, entry_price, breakeven_price, accumulated_realized, unrealized_pnl, margin_type, isolated_wallet, position_side }),
    {
        PositionUpdate { symbol, position_amount, entry_price, breakeven_price, accumulated_realized, unrealized_pnl, margin_type, isolated_wallet, position_side }
    }

    pub fn symbol(&self) -> (r: Symbol)
        ensures
            r == self.symbol,
    {
        self.symbol
    }

    pub fn position_amount(&self) -> (r: Decimal)
        ensures
            r == self.position_amount,
    {
        self.position_amount
    }

    pub fn entry_price(&self) -> (r: Decimal)
        ensures
            r == self.entry_price,
    {
        self.entry_price
    }

    pub fn breakeven_price(&self) -> (r: Decimal)
        ensures
            r == self.breakeven_price,
    {
        self.breakeven_price
    }

    pub fn accumulated_realized(&self) -> (r: Decimal)
        ensures
            r == self.accumulated_realized,
    {
        self.accumulated_realized
    }

    pub fn unrealized_pnl(&self) -> (r: Decimal)
        ensures
            r == self.unrealized_pnl,
    {
        self.unrealized_pnl
    }

    pub fn margin_type(&self) -> (r: MarginType)
        ensures
            r == self.margin_type,
    {
        self.margin_type
    }

    pub fn isolated_wallet(&self) -> (r: Decimal)
        ensures
            r == self.isolated_wallet,
    {
        self.isolated_wallet
    }

    pub fn position_side(&self) -> (r: PositionSide)
        ensures
            r == self.position_side,
    {
        self.position_side
    }
}

/// The account section of an account update.
#[derive(Debug, Clone)]
pub struct AccountUpdate {
    pub reason: AccountEventType,
    pub balances: Vec<BalanceUpdate>,
    pub positions: Vec<PositionUpdate>,
}

impl AccountUpdate {
    pub fn new(
        reason: AccountEventType,
        balances: Vec<BalanceUpdate>,
        positions: Vec<PositionUpdate>,
    ) -> (r: Self)
        ensures
            r == (AccountUpdate { reason, balances, positions }),
    {
        AccountUpdate { reason, balances, positions }
    }

    pub fn reason(&self) -> (r: AccountEventType)
        ensures
            r == self.reason,
    {
        self.reason
    }

    pub fn balances(&self) -> (r: &Vec<BalanceUpdate>)
        ensures
            *r == self.balances,
    {
        &self.balances
    }

    pub fn positions(&self) -> (r: &Vec<PositionUpdate>)
        ensures
            *r == self.positions,
    {
        &self.positions
    }
}

/// A change of balances and positions.
#[derive(Debug, Clone)]
pub struct AccountUpdateEvent {
    pub event_time: Timestamp,
    pub transaction_time: Timestamp,
    pub update: AccountUpdate,
}

impl AccountUpdateEvent {
    pub fn new(event_time: Timestamp, transaction_time: Timestamp, update: AccountUpdate) -> (r: Self)
        ensures
            r == (AccountUpdateEvent { event_time, transaction_time, update }),
    {
        AccountUpdateEvent { event_time, transaction_time, update }
    }

    pub fn event_time(&self) -> (r: Timestamp)
        ensures
            r == self.event_time,
    {
        self.event_time
    }

    pub fn transaction_time(&self) -> (r: Timestamp)
        ensures
            r == self.transaction_time,
    {
        self.transaction_time
    }

    pub fn update(&self) -> (r: &AccountUpdate)
        ensures
            *r == self.update,
    {
        &self.update
    }

    pub fn reason(&self) -> (r: AccountEventType)
        ensures
            r == self.update.reason,
    {
        self.update.reason
    }

    pub fn balances(&self) -> (r: &[BalanceUpdate])
        ensures
            r@ == self.update.balances@,
    {
        self.update.balances.as_slice()
    }

    pub fn positions(&self) -> (r: &[PositionUpdate])
        ensures
            r@ == self.update.positions@,
    {
        self.update.positions.as_slice()
    }
}

} // verus!
