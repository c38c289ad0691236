//! The engine's event loop, one step at a time: what an event does to the
//! trading state and what the caller has to do next. Waiting for events and
//! talking to the venue are left to the caller.
use vstd::prelude::*;
use crate::book::OrderBook;
use crate::clock::now_millis;
use crate::decimal::Decimal;
use crate::engine::{DepthOutcome, SnapshotOutcome, State};
use crate::error::EngineError;
use crate::ids::fresh_client_id;
use crate::market::{Depth, Timestamp};
use crate::order::{ClientId, Symbol};
use crate::strategy::{quote_items, quotes_as_slice, quotes_for, QuoteStrategy, Quotes};
use crate::subscription::{AccountStream, MarketStream};

verus! {

/// What the engine's loop can wake up to.
#[derive(Debug)]
pub enum Event {
    /// A message of the user data stream.
    Account(AccountStream),
    /// A message of the market stream.
    Market(MarketStream),
    /// The snapshot task has delivered a book.
    SnapshotDone(OrderBook),
    /// The snapshot task has failed.
    SnapshotFailed,
    SendOrderTick,
    CancelOrderTick,
    ReportStateTick,
    KeepaliveTick,
}

/// A summary of the trading state.
#[derive(Debug)]
pub struct StateReport {
    /// Milliseconds since the engine started.
    pub elapsed_ms: i64,
    pub turnover: Decimal,
    pub position: Decimal,
    /// The top of the book, if there is a book.
    pub book: Option<String>,
}

/// What the caller has to do after an event.
#[derive(Debug)]
pub enum Action {
    /// Nothing.
    Idle,
    /// Start a snapshot task for the symbol: its book has to be rebuilt.
    FetchSnapshot(Symbol),
    /// Send these orders to the venue. They are registered already.
    OpenOrders(Quotes),
    /// Ask the venue to cancel these orders.
    CancelOrders(Vec<ClientId>),
    /// Log the summary.
    Report(StateReport),
    /// Keep the listen key alive.
    Keepalive,
    /// Log that an order update could not be applied.
    ReportError(EngineError),
    /// Give up: the engine cannot go on.
    Terminate,
}

/// Number of levels per side in a summary.
pub const REPORT_DEPTH: usize = 5;

/// The time from `start` to `now` in milliseconds, kept within 64 bits.
pub open spec fn spec_elapsed(start: Timestamp, now: Timestamp) -> i64 {
    if now - start > i64::MAX {
        i64::MAX
    } else if now - start < i64::MIN {
        i64::MIN
    } else {
        (now - start) as i64
    }
}

/// The time from `start` to `now` in milliseconds, kept within 64 bits.
pub fn elapsed(start: Timestamp, now: Timestamp) -> (r: i64)
    ensures
        r == spec_elapsed(start, now),
{
    let diff: i128 = now as i128 - start as i128;
    if diff > i64::MAX as i128 {
        i64::MAX
    } else if diff < i64::MIN as i128 {
        i64::MIN
    } else {
        diff as i64
    }
}

/// The engine: the trading state, the symbol it quotes and the age at which
/// it cancels an order that has had no update.
#[derive(Debug)]
pub struct Engine {
    state: State,
    symbol: Symbol,
    stale_after_ms: i64,
}

impl Engine {
    pub closed spec fn spec_state(self) -> State {
        self.state
    }

    pub closed spec fn spec_symbol(self) -> Symbol {
        self.symbol
    }

    pub closed spec fn spec_stale_after(self) -> i64 {
        self.stale_after_ms
    }

    /// The engine's invariant is that of its state.
    pub open spec fn wf(self) -> bool {
        self.spec_state().wf()
    }

    /// Whether the two engines differ at most in their state.
    pub open spec fn same_setup(self, other: Engine) -> bool {
        self.spec_symbol() == other.spec_symbol() && self.spec_stale_after()
            == other.spec_stale_after()
    }

    /// What a depth delta comes to in a state.
    pub open spec fn depth_outcome(state: State, depth: Depth) -> DepthOutcome {
        match state.book(depth.symbol) {
            Some(b) => if b.accepts(depth, state.continuity(depth.symbol)) {
                DepthOutcome::Applied
            } else {
                DepthOutcome::GapDetected
            },
            None => DepthOutcome::Buffered,
        }
    }

    /// What a snapshot comes to in a state when it arrives at `now`.
    pub open spec fn snapshot_outcome(state: State, snapshot: OrderBook, now: Timestamp)
        -> SnapshotOutcome {
        if snapshot.model().drain(state.buffered(snapshot.spec_symbol()), 0, false, now).is_some() {
            SnapshotOutcome::Ready
        } else {
            SnapshotOutcome::GapDetected
        }
    }

    /// Whether `after` and `action` are what an event leaves when it is
    /// handled at local time `now`, with `buy_id` and `sell_id` as the
    /// identifiers for new quotes.
    ///
    /// - A depth delta is taken into the state; a gap asks for a snapshot.
    /// - A book ticker replaces the best bid and offer.
    /// - An order update is applied; an error is reported and changes
    ///   nothing else.
    /// - A snapshot completes the bootstrap if the symbol has no book; a gap
    ///   asks for another. A snapshot for a symbol that has a book is dropped.
    /// - A failed snapshot ends the engine.
    /// - The send tick registers the strategy's quotes and asks to open
    ///   them, if the engine's symbol has a book.
    /// - The cancel tick asks to cancel the stale orders.
    /// - The report tick asks to log a summary; the keepalive tick asks to
    ///   keep the listen key alive.
    /// - Trades, lite trades, account updates and raw messages change nothing.
    pub open spec fn handled(
        self,
        event: Event,
        now: Timestamp,
        buy_id: ClientId,
        sell_id: ClientId,
        after: Engine,
        action: Action,
    ) -> bool {
        let before = self.spec_state();
        let state = after.spec_state();
        &&& after.wf()
        &&& after.same_setup(self)
        &&& match event {
            Event::Market(MarketStream::Depth(depth)) => {
                let outcome = Engine::depth_outcome(before, depth);
                &&& before.depth_received(depth, now, state, outcome)
                &&& if outcome == DepthOutcome::GapDetected {
                    action == Action::FetchSnapshot(depth.symbol)
                } else {
                    action is Idle
                }
            },
            Event::Market(MarketStream::BookTicker(ticker)) => {
                &&& before.ticker_received(ticker, state)
                &&& action is Idle
            },
            Event::Market(_) => state == before && action is Idle,
            Event::Account(AccountStream::OrderTradeUpdate(update)) => {
                let result = match before.tracking().update_error(update) {
                    Some(e) => Err::<(), EngineError>(e),
                    None => Ok(()),
                };
                &&& before.update_received(update, state, result)
                &&& match result {
                    Ok(_) => action is Idle,
                    Err(e) => action == Action::ReportError(e),
                }
            },
            Event::Account(_) => state == before && action is Idle,
            Event::SnapshotDone(snapshot) => if before.book(snapshot.spec_symbol()).is_some() {
                state == before && action is Idle
            } else {
                let outcome = Engine::snapshot_outcome(before, snapshot, now);
                &&& before.snapshot_done(snapshot, now, state, outcome)
                &&& if outcome == SnapshotOutcome::GapDetected {
                    action == Action::FetchSnapshot(snapshot.spec_symbol())
                } else {
                    action is Idle
                }
            },
            Event::SnapshotFailed => state == before && action is Terminate,
            Event::SendOrderTick => if before.book(self.spec_symbol()).is_some() {
                &&& action matches Action::OpenOrders(quotes) && quote_items(quotes)
                    == quotes_for(
                    self.spec_symbol(),
                    before.bbo(self.spec_symbol()),
                    now,
                    buy_id,
                    sell_id,
                )
                &&& state.tracking() == before.tracking().registered_all(
                    quotes_for(
                        self.spec_symbol(),
                        before.bbo(self.spec_symbol()),
                        now,
                        buy_id,
                        sell_id,
                    ),
                )
                &&& state.same_markets(before)
            } else {
                state == before && action is Idle
            },
            Event::CancelOrderTick => {
                &&& state == before
                &&& action matches Action::CancelOrders(ids) && ids@.no_duplicates()
                    && ids@.to_set() == before.tracking().stale_ids(now, self.spec_stale_after())
            },
            Event::ReportStateTick => {
                &&& state == before
                &&& action matches Action::Report(report) && {
                    &&& report.elapsed_ms == spec_elapsed(before.spec_start_time(), now)
                    &&& report.turnover == before.spec_turnover()
                    &&& report.position == before.ledger(self.spec_symbol()).position
                    &&& match before.book(self.spec_symbol()) {
                        Some(b) => report.book matches Some(text) && text@ == b.spec_show(
                            REPORT_DEPTH as int,
                        ),
                        None => report.book.is_none(),
                    }
                }
            },
            Event::KeepaliveTick => state == before && action is Keepalive,
        }
    }

    /// An engine for `symbol` with an empty state started now, which
    /// cancels orders that have had no update for `stale_after_ms`
    /// milliseconds.
    pub fn new(symbol: Symbol, stale_after_ms: i64) -> (engine: Engine)
        ensures
            engine.wf(),
            engine.spec_symbol() == symbol,
            engine.spec_stale_after() == stale_after_ms,
            engine.spec_state().active() == Map::<ClientId, crate::local_order::Order>::empty(),
            forall|s: Symbol| (#[trigger] engine.spec_state().book(s)).is_none(),
    {
        Engine { state: State::new(), symbol, stale_after_ms }
    }

    pub fn state(&self) -> (r: &State)
        ensures
            *r == self.spec_state(),
    {
        &self.state
    }

    pub fn symbol(&self) -> (r: Symbol)
        ensures
            r == self.spec_symbol(),
    {
        self.symbol
    }

    /// Whether the send tick is of use: the engine's symbol has a book.
    pub fn quoting_enabled(&self) -> (b: bool)
        requires
            self.wf(),
        ensures
            b == self.spec_state().book(self.spec_symbol()).is_some(),
    {
        self.state.has_order_book(self.symbol)
    }

    /// Whether a snapshot is awaited: the engine's symbol has no book.
    pub fn snapshot_awaited(&self) -> (b: bool)
        requires
            self.wf(),
        ensures
            b == self.spec_state().book(self.spec_symbol()).is_none(),
    {
        !self.state.has_order_book(self.symbol)
    }

    /// Handles one event at local time `now`; see [`Engine::handled`].
    pub fn handle_at(
        &mut self,
        event: Event,
        now: Timestamp,
        buy_id: ClientId,
        sell_id: ClientId,
    ) -> (action: Action)
        requires
            old(self).wf(),
            event matches Event::SnapshotDone(snapshot) ==> snapshot.wf(),
        ensures
            old(self).handled(event, now, buy_id, sell_id, *final(self), action),
    {
        match event {
            Event::Market(MarketStream::Depth(depth)) => {
                let depth_symbol = depth.symbol();
                match self.state.on_depth_received_at(depth, now) {
                    DepthOutcome::GapDetected => Action::FetchSnapshot(depth_symbol),
                    _ => Action::Idle,
                }
            },
            Event::Market(MarketStream::BookTicker(ticker)) => {
                self.state.on_book_ticker_received(ticker);
                Action::Idle
            },
            Event::Market(_) => Action::Idle,
            Event::Account(AccountStream::OrderTradeUpdate(update)) => {
                match self.state.on_update_received(&update) {
                    Ok(_) => Action::Idle,
                    Err(e) => Action::ReportError(e),
                }
            },
            Event::Account(_) => Action::Idle,
            Event::SnapshotDone(snapshot) => {
                let symbol = snapshot.symbol();
                if self.state.has_order_book(symbol) {
                    Action::Idle
                } else {
                    match self.state.on_snapshot_done_at(snapshot, now) {
                        SnapshotOutcome::GapDetected => Action::FetchSnapshot(symbol),
                        SnapshotOutcome::Ready => Action::Idle,
                    }
                }
            },
            Event::SnapshotFailed => Action::Terminate,
            Event::SendOrderTick => {
                if self.state.has_order_book(self.symbol) {
                    let quotes = QuoteStrategy::quotes_at(
                        self.symbol,
                        self.state.bbo_level(self.symbol),
                        now,
                        buy_id,
                        sell_id,
                    );
                    self.state.register_orders(quotes_as_slice(&quotes));
                    Action::OpenOrders(quotes)
                } else {
                    Action::Idle
                }
            },
            Event::CancelOrderTick => {
                Action::CancelOrders(self.state.stale_order_ids_at(self.stale_after_ms, now))
            },
            Event::ReportStateTick => {
                let book = match self.state.order_book(self.symbol) {
                    Some(b) => Some(b.show(REPORT_DEPTH)),
                    None => None,
                };
                Action::Report(
                    StateReport {
                        elapsed_ms: elapsed(self.state.start_time(), now),
                        turnover: self.state.turnover(),
                        position: self.state.get_position(self.symbol),
                        book,
                    },
                )
            },
            Event::KeepaliveTick => Action::Keepalive,
        }
    }

    /// Handles one event now; see [`Engine::handled`]. The clock is read
    /// for the events that carry a time into the state or into the action,
    /// and two fresh identifiers are drawn only when a send tick has quotes
    /// to make.
    pub fn handle(&mut self, event: Event) -> (action: Action)
        requires
            old(self).wf(),
            event matches Event::SnapshotDone(snapshot) ==> snapshot.wf(),
        ensures
            exists|now: Timestamp, buy_id: ClientId, sell_id: ClientId| #[trigger]
                old(self).handled(event, now, buy_id, sell_id, *final(self), action),
    {
        match event {
            Event::SendOrderTick => {
                if self.state.has_order_book(self.symbol) && self.state.bbo_level(
                    self.symbol,
                ).is_some() {
                    let now = now_millis();
                    let buy_id = fresh_client_id();
                    let sell_id = fresh_client_id();
                    self.handle_at(Event::SendOrderTick, now, buy_id, sell_id)
                } else {
                    self.handle_at(Event::SendOrderTick, 0, 0, 0)
                }
            },
            Event::Market(MarketStream::Depth(depth)) => {
                let now = now_millis();
                self.handle_at(Event::Market(MarketStream::Depth(depth)), now, 0, 0)
            },
            Event::SnapshotDone(snapshot) => {
                let now = now_millis();
                self.handle_at(Event::SnapshotDone(snapshot), now, 0, 0)
            },
            Event::CancelOrderTick => {
                let now = now_millis();
                self.handle_at(Event::CancelOrderTick, now, 0, 0)
            },
            Event::ReportStateTick => {
                let now = now_millis();
                self.handle_at(Event::ReportStateTick, now, 0, 0)
            },
            other => self.handle_at(other, 0, 0, 0),
        }
    }
}

} // verus!
