//! The trading state: per-symbol order books, best bid/offer and ledgers,
//! the table of active orders, and the decisions that events call for.
use vstd::prelude::*;
use crate::account::{ExecutionType, OrderTradeUpdateEvent};
use crate::book::{BboPair, BookModel, Continuity, OrderBook, Replay};
use crate::clock::now_millis;
use crate::decimal::Decimal;
use crate::error::EngineError;
use crate::local_order::Order;
use crate::market::{BookTicker, Depth, Level, Timestamp};
use crate::order::{ClientId, OrderStatus, Symbol, SYMBOL_COUNT};
use crate::pnl::ProfitAndLoss;
use crate::tables::{
    id_set_contains, id_set_insert, id_set_items, id_set_new, order_table_get, order_table_get_mut, order_table_ids,
    order_table_insert, order_table_items, order_table_new, order_table_remove, IdSet, OrderTable,
};

verus! {

/// The part of the trading state that order updates act on: the active
/// orders by client order id, the ids of completed orders, the ledger of each
/// symbol and the turnover.
#[verifier::ext_equal]
pub struct Tracking {
    pub active: Map<ClientId, Order>,
    pub hist: Set<ClientId>,
    pub ledgers: Seq<ProfitAndLoss>,
    pub turnover: Decimal,
}

/// Whether an update ends the life of its order: a cancellation, a
/// liquidation, an expiry, a fill that completes the order, or an amendment
/// of an order that is filled or canceled.
pub open spec fn ends_order(update_event: OrderTradeUpdateEvent) -> bool {
    match update_event.update.exec_type {
        ExecutionType::Canceled | ExecutionType::Calculated | ExecutionType::Expired => true,
        ExecutionType::Trade => update_event.update.order_status == OrderStatus::Filled,
        ExecutionType::Amendment => update_event.update.order_status == OrderStatus::Filled
            || update_event.update.order_status == OrderStatus::Canceled,
        ExecutionType::New => false,
    }
}

impl Tracking {
    /// No orders, a fresh ledger for every symbol, and no turnover.
    pub open spec fn empty() -> Tracking {
        Tracking {
            active: Map::empty(),
            hist: Set::empty(),
            ledgers: Seq::new(
                SYMBOL_COUNT as nat,
                |i: int|
                    ProfitAndLoss::spec_new(Decimal::from_parts(0, 0), Decimal::from_parts(0, 0)),
            ),
            turnover: Decimal::from_parts(0, 0),
        }
    }

    /// The order is registered under its client order id.
    pub open spec fn registered(self, order: Order) -> Tracking {
        Tracking { active: self.active.insert(order.client_order_id, order), ..self }
    }

    /// The orders are registered one after the other.
    pub open spec fn registered_all(self, orders: Seq<Order>) -> Tracking
        decreases orders.len(),
    {
        if orders.len() == 0 {
            self
        } else {
            self.registered_all(orders.drop_last()).registered(orders.last())
        }
    }

    /// An active order moves to the completed ones; any other id changes
    /// nothing.
    pub open spec fn completed(self, id: ClientId) -> Tracking {
        if self.active.contains_key(id) {
            Tracking { active: self.active.remove(id), hist: self.hist.insert(id), ..self }
        } else {
            self
        }
    }

    /// The ledger of the update's symbol and the turnover after the fill
    /// that the update reports, or nothing when the fill cannot be booked.
    pub open spec fn booked(self, update_event: OrderTradeUpdateEvent) -> Option<Tracking> {
        let i = update_event.update.symbol.spec_index();
        match (
            self.ledgers[i].spec_on_update(update_event),
            update_event.spec_last_filled_amount(),
        ) {
            (Some(ledger), Some(amount)) => match self.turnover.spec_add(amount) {
                Some(turnover) => Some(
                    Tracking { ledgers: self.ledgers.update(i, ledger), turnover, ..self },
                ),
                None => None,
            },
            _ => None,
        }
    }

    /// The error that an update meets, if any: its order is not active, or
    /// its fill cannot be booked.
    pub open spec fn update_error(self, update_event: OrderTradeUpdateEvent) -> Option<
        EngineError,
    > {
        let id = update_event.update.client_order_id;
        if !self.active.contains_key(id) {
            if self.hist.contains(id) {
                Some(EngineError::OrderCompleted { client_order_id: id })
            } else {
                Some(EngineError::Untracked { client_order_id: id })
            }
        } else if update_event.update.exec_type == ExecutionType::Trade && self.booked(
            update_event,
        ).is_none() {
            Some(EngineError::Arithmetic)
        } else {
            None
        }
    }

    /// The state after an update. An update for an order that is not active
    /// changes nothing. Otherwise the order's record takes the update over; a
    /// trade is booked into the ledger and the turnover where that can be
    /// done; and an update that ends the order moves it to the completed
    /// ones.
    pub open spec fn on_update(self, update_event: OrderTradeUpdateEvent) -> Tracking {
        let id = update_event.update.client_order_id;
        if !self.active.contains_key(id) {
            self
        } else {
            let updated = Tracking {
                active: self.active.insert(id, self.active[id].spec_updated(update_event)),
                ..self
            };
            let booked = if update_event.update.exec_type == ExecutionType::Trade {
                match updated.booked(update_event) {
                    Some(b) => b,
                    None => updated,
                }
            } else {
                updated
            };
            if ends_order(update_event) {
                booked.completed(id)
            } else {
                booked
            }
        }
    }

    /// The state after a run of updates.
    pub open spec fn on_updates(self, events: Seq<OrderTradeUpdateEvent>) -> Tracking
        decreases events.len(),
    {
        if events.len() == 0 {
            self
        } else {
            self.on_updates(events.drop_last()).on_update(events.last())
        }
    }

    /// The ids of the active orders that are stale at `now`.
    pub open spec fn stale_ids(self, now: Timestamp, max_age: i64) -> Set<ClientId> {
        Set::new(
            |id: ClientId| self.active.contains_key(id) && self.active[id].is_stale(now, max_age),
        )
    }

    /// Updates that do not end an order leave it active, and leave the
    /// completed ones as they are as far as this order goes.
    pub proof fn lemma_stays_active(self, events: Seq<OrderTradeUpdateEvent>, id: ClientId)
        requires
            self.active.contains_key(id),
            forall|i: int|
                0 <= i < events.len() ==> (#[trigger] events[i]).update.client_order_id == id
                    && !ends_order(events[i]),
        ensures
            self.on_updates(events).active.contains_key(id),
            self.on_updates(events).hist.contains(id) == self.hist.contains(id),
        decreases events.len(),
    {
        if events.len() > 0 {
            let rest = events.drop_last();
            assert forall|i: int| 0 <= i < rest.len() implies (#[trigger] rest[i]).update.client_order_id
                == id && !ends_order(rest[i]) by {
                assert(rest[i] == events[i]);
            }
            self.lemma_stays_active(rest, id);
            assert(events.last() == events[events.len() - 1]);
        }
    }

    /// The life of an order: after any run of updates for an active order of
    /// which the last one, and no earlier one, ends the order, the order is
    /// no longer active and its id is among the completed ones.
    pub proof fn lemma_order_lifecycle(self, events: Seq<OrderTradeUpdateEvent>, id: ClientId)
        requires
            self.active.contains_key(id),
            events.len() > 0,
            forall|i: int|
                0 <= i < events.len() ==> (#[trigger] events[i]).update.client_order_id == id,
            forall|i: int| 0 <= i < events.len() - 1 ==> !ends_order(#[trigger] events[i]),
            ends_order(events.last()),
        ensures
            !self.on_updates(events).active.contains_key(id),
            self.on_updates(events).hist.contains(id),
    {
        let rest = events.drop_last();
        assert forall|i: int| 0 <= i < rest.len() implies (#[trigger] rest[i]).update.client_order_id
            == id && !ends_order(rest[i]) by {
            assert(rest[i] == events[i]);
        }
        self.lemma_stays_active(rest, id);
        assert(events.last() == events[events.len() - 1]);
    }

    /// The fill that completes an active order ends the order's life
    /// whatever else happens: the order is no longer active and its id is
    /// among the completed ones. Where the fill can be booked, the update
    /// meets no error, the ledger of the fill's symbol is the one after the
    /// fill, and the turnover has grown by the fill's notional; where it
    /// cannot, the update is reported as an arithmetic error and ledgers and
    /// turnover stay as they were.
    pub proof fn lemma_final_fill(self, update_event: OrderTradeUpdateEvent)
        requires
            self.active.contains_key(update_event.update.client_order_id),
            update_event.update.exec_type == ExecutionType::Trade,
            update_event.update.order_status == OrderStatus::Filled,
            self.ledgers.len() == SYMBOL_COUNT,
        ensures
            !self.on_update(update_event).active.contains_key(
                update_event.update.client_order_id,
            ),
            self.on_update(update_event).hist.contains(update_event.update.client_order_id),
            match (
                self.ledgers[update_event.update.symbol.spec_index()].spec_on_update(update_event),
                update_event.spec_last_filled_amount(),
            ) {
                (Some(ledger), Some(amount)) => match self.turnover.spec_add(amount) {
                    Some(turnover) => {
                        &&& self.update_error(update_event).is_none()
                        &&& self.on_update(update_event).turnover == turnover
                        &&& self.on_update(update_event).ledgers == self.ledgers.update(
                            update_event.update.symbol.spec_index(),
                            ledger,
                        )
                    },
                    None => {
                        &&& self.update_error(update_event) == Some(EngineError::Arithmetic)
                        &&& self.on_update(update_event).turnover == self.turnover
                        &&& self.on_update(update_event).ledgers == self.ledgers
                    },
                },
                _ => {
                    &&& self.update_error(update_event) == Some(EngineError::Arithmetic)
                    &&& self.on_update(update_event).turnover == self.turnover
                    &&& self.on_update(update_event).ledgers == self.ledgers
                },
            },
    {
    }

    /// An update for an order that is neither active nor completed changes
    /// nothing and is reported as untracked.
    pub proof fn lemma_unknown_order(self, update_event: OrderTradeUpdateEvent)
        requires
            !self.active.contains_key(update_event.update.client_order_id),
            !self.hist.contains(update_event.update.client_order_id),
        ensures
            self.on_update(update_event) == self,
            self.update_error(update_event) == Some(
                EngineError::Untracked { client_order_id: update_event.update.client_order_id },
            ),
    {
    }
}

/// What the engine holds for one symbol.
#[derive(Debug)]
pub struct Market {
    order_book: Option<OrderBook>,
    bbo_level: Option<BboPair>,
    pnl: ProfitAndLoss,
    depth_buffer: Vec<Depth>,
    /// Whether a delta has been applied to the book since its snapshot.
    synced: bool,
}

/// What became of a depth delta.
#[derive(Debug, Clone, Copy, PartialEq, Eq, Structural)]
pub enum DepthOutcome {
    /// The book was extended by the delta.
    Applied,
    /// There is no book yet: the delta waits for the snapshot.
    Buffered,
    /// The delta does not follow the book. The book was dropped; a new
    /// snapshot has to be fetched.
    GapDetected,
}

/// What became of a snapshot.
#[derive(Debug, Clone, Copy, PartialEq, Eq, Structural)]
pub enum SnapshotOutcome {
    /// The book is in place, with the buffered deltas applied.
    Ready,
    /// The buffered deltas do not follow the snapshot. No book is in place;
    /// a new snapshot has to be fetched.
    GapDetected,
}

/// The state of the engine.
#[derive(Debug)]
pub struct State {
    markets: Vec<Market>,
    active_orders: OrderTable,
    hist_orders: IdSet,
    start_time: Timestamp,
    turnover: Decimal,
}

/// What a sequence holds after one more element is pushed, and that it stays
/// free of duplicates when the element is new.
pub proof fn lemma_push_contains<T>(s: Seq<T>, x: T)
    ensures
        forall|y: T| s.push(x).contains(y) <==> s.contains(y) || y == x,
        s.no_duplicates() && !s.contains(x) ==> s.push(x).no_duplicates(),
{
    let t = s.push(x);
    assert forall|y: T| t.contains(y) <==> s.contains(y) || y == x by {
        if s.contains(y) {
            let j = choose|j: int| 0 <= j < s.len() && s[j] == y;
            assert(t[j] == y);
        }
        if y == x {
            assert(t[s.len() as int] == y);
        }
        if t.contains(y) {
            let j = choose|j: int| 0 <= j < t.len() && t[j] == y;
            if j < s.len() {
                assert(s[j] == y);
            }
        }
    }
    if s.no_duplicates() && !s.contains(x) {
        assert forall|a: int, b: int| 0 <= a < t.len() && 0 <= b < t.len() && a != b implies t[a]
            != t[b] by {
            if a < s.len() && b < s.len() {
                assert(s[a] != s[b]);
            } else if a < s.len() {
                assert(s.contains(s[a]));
            } else if b < s.len() {
                assert(s.contains(s[b]));
            }
        }
    }
}

impl State {
    /// The order book of a symbol, if there is one.
    pub closed spec fn book(self, symbol: Symbol) -> Option<OrderBook> {
        self.markets@[symbol.spec_index()].order_book
    }

    /// The best bid and offer of a symbol, if known.
    pub closed spec fn bbo(self, symbol: Symbol) -> Option<BboPair> {
        self.markets@[symbol.spec_index()].bbo_level
    }

    /// The ledger at a position of the per-symbol table.
    pub closed spec fn ledger_at(self, index: int) -> ProfitAndLoss {
        self.markets@[index].pnl
    }

    /// The ledger of a symbol.
    pub open spec fn ledger(self, symbol: Symbol) -> ProfitAndLoss {
        self.ledger_at(symbol.spec_index())
    }

    /// The depth deltas of a symbol that wait for a snapshot.
    pub closed spec fn buffered(self, symbol: Symbol) -> Seq<Depth> {
        self.markets@[symbol.spec_index()].depth_buffer@
    }

    /// Whether a delta has been applied to the book of a symbol since its
    /// snapshot. Without a book it is false.
    pub closed spec fn synced(self, symbol: Symbol) -> bool {
        self.markets@[symbol.spec_index()].synced
    }

    /// The rule that the next delta of a symbol is held to: it may straddle
    /// the last update of a book that is fresh from its snapshot, and must
    /// start where the book ends once a delta has been applied.
    pub open spec fn continuity(self, symbol: Symbol) -> Continuity {
        if self.synced(symbol) {
            Continuity::Strict
        } else {
            Continuity::Straddle
        }
    }

    /// The active orders by client order id.
    pub closed spec fn active(self) -> Map<ClientId, Order> {
        order_table_items(self.active_orders)
    }

    /// The ids of the orders whose life has ended.
    pub closed spec fn hist(self) -> Set<ClientId> {
        id_set_items(self.hist_orders)
    }

    pub closed spec fn spec_start_time(self) -> Timestamp {
        self.start_time
    }

    pub closed spec fn spec_turnover(self) -> Decimal {
        self.turnover
    }

    /// The orders, ledgers and turnover: the active orders, the completed
    /// ids, the ledger of each symbol at the symbol's index, and the
    /// turnover.
    pub open spec fn tracking(self) -> Tracking {
        Tracking {
            active: self.active(),
            hist: self.hist(),
            ledgers: Seq::new(SYMBOL_COUNT as nat, |i: int| self.ledger_at(i)),
            turnover: self.spec_turnover(),
        }
    }

    /// The state's invariant: one slot per symbol, and every book in order
    /// and filed under its own symbol.
    pub closed spec fn wf(self) -> bool {
        &&& self.markets@.len() == SYMBOL_COUNT
        &&& forall|i: int|
            0 <= i < SYMBOL_COUNT ==> ((#[trigger] self.markets@[i]).order_book matches Some(b)
                ==> b.wf() && b.spec_symbol().spec_index() == i)
        &&& forall|i: int|
            0 <= i < SYMBOL_COUNT ==> ((#[trigger] self.markets@[i]).order_book.is_none()
                ==> !self.markets@[i].synced)
    }

    /// Whether books, best bid/offer and buffers of `symbol` are the same in
    /// both states.
    pub open spec fn same_market(self, other: State, symbol: Symbol) -> bool {
        &&& self.book(symbol) == other.book(symbol)
        &&& self.synced(symbol) == other.synced(symbol)
        &&& self.bbo(symbol) == other.bbo(symbol)
        &&& self.buffered(symbol) == other.buffered(symbol)
    }

    /// Whether the two states differ at most in what they hold for `symbol`.
    pub open spec fn same_except_market(self, other: State, symbol: Symbol) -> bool {
        &&& self.tracking() == other.tracking()
        &&& self.spec_start_time() == other.spec_start_time()
        &&& forall|s: Symbol| s != symbol ==> #[trigger] self.same_market(other, s)
    }

    /// Whether the two states differ at most in orders, ledgers and turnover.
    pub open spec fn same_markets(self, other: State) -> bool {
        &&& self.spec_start_time() == other.spec_start_time()
        &&& forall|s: Symbol| #[trigger] self.same_market(other, s)
    }

    /// What the invariant says of the books: each is in order and filed
    /// under its own symbol.
    pub proof fn lemma_books_in_order(self)
        requires
            self.wf(),
        ensures
            forall|s: Symbol|
                ((#[trigger] self.book(s)) matches Some(b) ==> b.wf() && b.spec_symbol() == s),
            forall|s: Symbol| (#[trigger] self.book(s)).is_none() ==> !self.synced(s),
    {
        assert forall|s: Symbol| (#[trigger] self.book(s)).is_none() implies !self.synced(s) by {
            let i = s.spec_index();
            assert(self.markets@[i].order_book == self.book(s));
        }
        assert forall|s: Symbol|
            ((#[trigger] self.book(s)) matches Some(b) ==> b.wf() && b.spec_symbol() == s) by {
            let i = s.spec_index();
            assert(self.markets@[i].order_book == self.book(s));
        }
    }

    /// Leaving the markets alone twice leaves them alone.
    pub proof fn lemma_same_markets_twice(self, middle: State, first: State)
        requires
            self.same_markets(middle),
            middle.same_markets(first),
        ensures
            self.same_markets(first),
    {
        assert forall|s: Symbol| #[trigger] self.same_market(first, s) by {
            assert(self.same_market(middle, s));
            assert(middle.same_market(first, s));
        }
    }

    /// A state without books or orders, started at `now`.
    pub fn new_at(now: Timestamp) -> (state: State)
        ensures
            state.wf(),
            state.spec_start_time() == now,
            state.spec_turnover() == Decimal::from_parts(0, 0),
            state.active() == Map::<ClientId, Order>::empty(),
            state.hist() == Set::<ClientId>::empty(),
            state.tracking() == Tracking::empty(),
            forall|s: Symbol| (#[trigger] state.book(s)).is_none(),
            forall|s: Symbol| (#[trigger] state.bbo(s)).is_none(),
            forall|s: Symbol| (#[trigger] state.buffered(s)).len() == 0,
            forall|s: Symbol| !(#[trigger] state.synced(s)),
            forall|s: Symbol|
                #[trigger] state.ledger(s) == ProfitAndLoss::spec_new(
                    Decimal::from_parts(0, 0),
                    Decimal::from_parts(0, 0),
                ),
    {
        let mut markets: Vec<Market> = Vec::new();
        let mut i: usize = 0;
        while i < SYMBOL_COUNT
            invariant
                i <= SYMBOL_COUNT,
                markets@.len() == i,
                forall|k: int|
                    0 <= k < i ==> {
                        &&& (#[trigger] markets@[k]).order_book.is_none()
                        &&& markets@[k].bbo_level.is_none()
                        &&& markets@[k].depth_buffer@.len() == 0
                        &&& !markets@[k].synced
                        &&& markets@[k].pnl == ProfitAndLoss::spec_new(
                            Decimal::from_parts(0, 0),
                            Decimal::from_parts(0, 0),
                        )
                    },
            decreases SYMBOL_COUNT - i,
        {
            markets.push(
                Market {
                    order_book: None,
                    bbo_level: None,
                    pnl: ProfitAndLoss::new(Decimal::zero(), Decimal::zero()),
                    depth_buffer: Vec::new(),
                    synced: false,
                },
            );
            i += 1;
        }
        let state = State {
            markets,
            active_orders: order_table_new(128),
            hist_orders: id_set_new(1024),
            start_time: now,
            turnover: Decimal::zero(),
        };
        proof {
            assert(state.tracking().ledgers =~= Tracking::empty().ledgers);
            assert(state.tracking() =~= Tracking::empty());
        }
        state
    }

    /// A state without books or orders, started now.
    pub fn new() -> (state: State)
        ensures
            state.wf(),
            state.spec_turnover() == Decimal::from_parts(0, 0),
            state.active() == Map::<ClientId, Order>::empty(),
            state.hist() == Set::<ClientId>::empty(),
            state.tracking() == Tracking::empty(),
            forall|s: Symbol| (#[trigger] state.book(s)).is_none(),
            forall|s: Symbol| (#[trigger] state.bbo(s)).is_none(),
            forall|s: Symbol| (#[trigger] state.buffered(s)).len() == 0,
            forall|s: Symbol| !(#[trigger] state.synced(s)),
            forall|s: Symbol|
                #[trigger] state.ledger(s) == ProfitAndLoss::spec_new(
                    Decimal::from_parts(0, 0),
                    Decimal::from_parts(0, 0),
                ),
    {
        State::new_at(now_millis())
    }

    pub fn start_time(&self) -> (r: Timestamp)
        ensures
            r == self.spec_start_time(),
    {
        self.start_time
    }

    /// Notional traded so far.
    pub fn turnover(&self) -> (r: Decimal)
        ensures
            r == self.spec_turnover(),
    {
        self.turnover
    }

    /// The signed position in a symbol.
    pub fn get_position(&self, symbol: Symbol) -> (r: Decimal)
        requires
            self.wf(),
        ensures
            r == self.ledger(symbol).position,
            self.ledger(symbol) == self.tracking().ledgers[symbol.spec_index()],
    {
        self.markets[symbol.index()].pnl.position()
    }

    /// The ledger of a symbol.
    pub fn pnl(&self, symbol: Symbol) -> (r: &ProfitAndLoss)
        requires
            self.wf(),
        ensures
            *r == self.ledger(symbol),
            self.ledger(symbol) == self.tracking().ledgers[symbol.spec_index()],
    {
        &self.markets[symbol.index()].pnl
    }

    /// The best bid and offer of a symbol, if known.
    pub fn bbo_level(&self, symbol: Symbol) -> (r: Option<BboPair>)
        requires
            self.wf(),
        ensures
            r == self.bbo(symbol),
    {
        self.markets[symbol.index()].bbo_level
    }

    /// The order book of a symbol, if there is one.
    pub fn order_book(&self, symbol: Symbol) -> (r: Option<&OrderBook>)
        requires
            self.wf(),
        ensures
            match r {
                Some(b) => self.book(symbol) == Some(*b) && b.wf() && b.spec_symbol() == symbol,
                None => self.book(symbol).is_none(),
            },
    {
        self.markets[symbol.index()].order_book.as_ref()
    }

    /// The number of depth deltas of a symbol that wait for a snapshot.
    pub fn buffered_depths(&self, symbol: Symbol) -> (n: usize)
        requires
            self.wf(),
        ensures
            n == self.buffered(symbol).len(),
    {
        self.markets[symbol.index()].depth_buffer.len()
    }

    /// Drops the book of a symbol.
    pub fn remove_order_book(&mut self, symbol: Symbol)
        requires
            old(self).wf(),
        ensures
            final(self).wf(),
            final(self).book(symbol).is_none(),
            !final(self).synced(symbol),
            final(self).bbo(symbol) == old(self).bbo(symbol),
            final(self).buffered(symbol) == old(self).buffered(symbol),
            final(self).same_except_market(*old(self), symbol),
    {
        let i = symbol.index();
        let slot = &mut self.markets[i];
        slot.order_book = None;
        slot.synced = false;
        proof {
            assert(final(self).tracking().ledgers =~= old(self).tracking().ledgers);
            assert forall|s: Symbol| s != symbol implies #[trigger] final(self).same_market(
                *old(self),
                s,
            ) by {
                assert(s.spec_index() != i);
            }
        }
    }

    /// Whether a delta has been applied to the book of a symbol since its
    /// snapshot.
    pub fn is_synced(&self, symbol: Symbol) -> (r: bool)
        requires
            self.wf(),
        ensures
            r == self.synced(symbol),
    {
        self.markets[symbol.index()].synced
    }

    /// Whether there is a book for a symbol.
    pub fn has_order_book(&self, symbol: Symbol) -> (r: bool)
        requires
            self.wf(),
        ensures
            r == self.book(symbol).is_some(),
    {
        self.markets[symbol.index()].order_book.is_some()
    }

    /// Registers an order as active under its client order id.
    pub fn register_order(&mut self, order: Order)
        requires
            old(self).wf(),
        ensures
            final(self).wf(),
            final(self).tracking() == old(self).tracking().registered(order),
            final(self).same_markets(*old(self)),
    {
        let _ = order_table_insert(&mut self.active_orders, order.client_order_id(), order);
        proof {
            assert(final(self).tracking().ledgers =~= old(self).tracking().ledgers);
            assert(final(self).tracking() =~= old(self).tracking().registered(order));
        }
    }

    /// Registers a batch of orders, one after the other.
    pub fn register_orders(&mut self, orders: &[Order])
        requires
            old(self).wf(),
        ensures
            final(self).wf(),
            final(self).tracking() == old(self).tracking().registered_all(orders@),
            final(self).same_markets(*old(self)),
    {
        let mut k: usize = 0;
        let ghost start = *self;
        proof {
            assert(orders@.subrange(0, 0) =~= Seq::<Order>::empty());
        }
        while k < orders.len()
            invariant
                k <= orders.len(),
                self.wf(),
                self.tracking() == start.tracking().registered_all(orders@.subrange(0, k as int)),
                self.same_markets(start),
            decreases orders.len() - k,
        {
            proof {
                let next = orders@.subrange(0, k + 1);
                assert(next.drop_last() =~= orders@.subrange(0, k as int));
                assert(next.last() == orders@[k as int]);
            }
            let ghost before = *self;
            self.register_order(orders[k]);
            proof {
                self.lemma_same_markets_twice(before, start);
            }
            k += 1;
        }
        proof {
            assert(orders@.subrange(0, orders@.len() as int) =~= orders@);
        }
    }

    /// The record of an active order.
    pub fn get_active_order(&self, id: &ClientId) -> (r: Option<&Order>)
        requires
            self.wf(),
        ensures
            match r {
                Some(o) => self.active().contains_key(*id) && self.active()[*id] == *o,
                None => !self.active().contains_key(*id),
            },
    {
        order_table_get(&self.active_orders, id)
    }

    /// The record of an active order, to be changed in place. What the
    /// caller leaves there is the order's record afterwards.
    pub fn get_active_order_mut(&mut self, id: &ClientId) -> (r: Option<&mut Order>)
        requires
            old(self).wf(),
        ensures
            final(self).wf(),
            final(self).same_markets(*old(self)),
            match r {
                Some(o) => {
                    &&& old(self).active().contains_key(*id)
                    &&& *o == old(self).active()[*id]
                    &&& final(self).tracking() == (Tracking {
                        active: old(self).active().insert(*id, *final(o)),
                        ..old(self).tracking()
                    })
                },
                None => {
                    &&& !old(self).active().contains_key(*id)
                    &&& final(self).tracking() == old(self).tracking()
                },
            },
    {
        order_table_get_mut(&mut self.active_orders, id)
    }

    /// Whether the order's life has ended.
    pub fn is_completed(&self, id: &ClientId) -> (r: bool)
        requires
            self.wf(),
        ensures
            r == self.hist().contains(*id),
    {
        id_set_contains(&self.hist_orders, id)
    }

    /// Ends the life of an active order; any other id changes nothing.
    pub fn complete_order(&mut self, id: ClientId)
        requires
            old(self).wf(),
        ensures
            final(self).wf(),
            final(self).tracking() == old(self).tracking().completed(id),
            final(self).same_markets(*old(self)),
    {
        if order_table_remove(&mut self.active_orders, &id).is_some() {
            let _ = id_set_insert(&mut self.hist_orders, id);
        }
        proof {
            assert(final(self).tracking().ledgers =~= old(self).tracking().ledgers);
            assert(final(self).tracking() =~= old(self).tracking().completed(id));
        }
    }

    /// Whether `after` is this state with the ticker's best bid and offer
    /// stored for the ticker's symbol, and nothing else changed.
    pub open spec fn ticker_received(self, book_ticker: BookTicker, after: State) -> bool {
        &&& after.wf()
        &&& after.bbo(book_ticker.symbol) == Some(
            (
                Level { price: book_ticker.bid_price, quantity: book_ticker.bid_qty },
                Level { price: book_ticker.ask_price, quantity: book_ticker.ask_qty },
            ),
        )
        &&& after.book(book_ticker.symbol) == self.book(book_ticker.symbol)
        &&& after.synced(book_ticker.symbol) == self.synced(book_ticker.symbol)
        &&& after.buffered(book_ticker.symbol) == self.buffered(book_ticker.symbol)
        &&& after.same_except_market(self, book_ticker.symbol)
    }

    /// Stores the venue's best bid and offer for the ticker's symbol. The
    /// book is not touched.
    pub fn on_book_ticker_received(&mut self, book_ticker: BookTicker)
        requires
            old(self).wf(),
        ensures
            old(self).ticker_received(book_ticker, *final(self)),
    {
        let bid_level = Level::new(book_ticker.bid_price(), book_ticker.bid_qty());
        let ask_level = Level::new(book_ticker.ask_price(), book_ticker.ask_qty());
        let i = book_ticker.symbol().index();
        let slot = &mut self.markets[i];
        slot.bbo_level = Some((bid_level, ask_level));
        proof {
            assert(final(self).tracking().ledgers =~= old(self).tracking().ledgers);
            assert forall|s: Symbol| s != book_ticker.symbol implies #[trigger] final(self).same_market(*old(self), s) by {
                assert(s.spec_index() != i);
            }
        }
    }

    /// Whether `after` and `result` are what an order update leaves: orders,
    /// ledgers and turnover as [`Tracking::on_update`] says, the markets
    /// untouched, and the error that [`Tracking::update_error`] names.
    pub open spec fn update_received(
        self,
        update_event: OrderTradeUpdateEvent,
        after: State,
        result: Result<(), EngineError>,
    ) -> bool {
        &&& after.wf()
        &&& after.tracking() == self.tracking().on_update(update_event)
        &&& after.same_markets(self)
        &&& result == (match self.tracking().update_error(update_event) {
            Some(e) => Err::<(), EngineError>(e),
            None => Ok(()),
        })
    }

    /// Applies an order update from the venue; see [`Tracking::on_update`]
    /// for the state it leaves and [`Tracking::update_error`] for the errors.
    pub fn on_update_received(&mut self, update_event: &OrderTradeUpdateEvent) -> (r: Result<
        (),
        EngineError,
    >)
        requires
            old(self).wf(),
        ensures
            old(self).update_received(*update_event, *final(self), r),
    {
        let client_id = update_event.client_order_id();
        let mut order = match order_table_get(&self.active_orders, &client_id) {
            Some(order) => *order,
            None => {
                if id_set_contains(&self.hist_orders, &client_id) {
                    return Err(EngineError::OrderCompleted { client_order_id: client_id });
                } else {
                    return Err(EngineError::Untracked { client_order_id: client_id });
                }
            },
        };
        order.on_update_received(update_event);
        let _ = order_table_insert(&mut self.active_orders, client_id, order);
        let ghost updated = Tracking {
            active: old(self).tracking().active.insert(client_id, order),
            ..old(self).tracking()
        };
        proof {
            assert(self.tracking().ledgers =~= old(self).tracking().ledgers);
            assert(self.tracking() =~= updated);
        }
        let mut result: Result<(), EngineError> = Ok(());
        match update_event.exec_type() {
            ExecutionType::Trade => {
                let i = update_event.symbol().index();
                let ledger = self.markets[i].pnl.after_trade(
                    update_event.side(),
                    update_event.last_filled_price(),
                    update_event.last_filled_qty(),
                    update_event.commission(),
                );
                let turnover = match update_event.last_filled_amount() {
                    Some(amount) => self.turnover.checked_add(&amount),
                    None => None,
                };
                match (ledger, turnover) {
                    (Some(ledger), Some(turnover)) => {
                        let slot = &mut self.markets[i];
                        slot.pnl = ledger;
                        self.turnover = turnover;
                        proof {
                            assert(self.tracking().ledgers =~= updated.ledgers.update(
                                i as int,
                                ledger,
                            ));
                            assert(self.tracking() =~= updated.booked(*update_event).unwrap());
                        }
                    },
                    _ => {
                        result = Err(EngineError::Arithmetic);
                    },
                }
            },
            _ => {},
        }
        let ends = match update_event.exec_type() {
            ExecutionType::Canceled | ExecutionType::Calculated | ExecutionType::Expired => true,
            ExecutionType::Trade => update_event.order_status() == OrderStatus::Filled,
            ExecutionType::Amendment => update_event.order_status() == OrderStatus::Filled
                || update_event.order_status() == OrderStatus::Canceled,
            ExecutionType::New => false,
        };
        let ghost booked = *self;
        proof {
            assert forall|s: Symbol| #[trigger] booked.same_market(*old(self), s) by {
                let k = s.spec_index();
                assert(booked.markets@[k].order_book == old(self).markets@[k].order_book);
            }
        }
        if ends {
            self.complete_order(client_id);
            proof {
                self.lemma_same_markets_twice(booked, *old(self));
            }
        }
        result
    }

    /// Whether `after` and `outcome` are what a depth delta leaves when it
    /// is taken in at local time `now`. With a book in place the delta must
    /// follow the book under the rule of [`State::continuity`]: then it is
    /// applied, and from then on deltas must start where the book ends.
    /// Otherwise the book is dropped and the buffer emptied. Without a book
    /// the delta is buffered. Nothing else changes.
    pub open spec fn depth_received(
        self,
        depth: Depth,
        now: Timestamp,
        after: State,
        outcome: DepthOutcome,
    ) -> bool {
        &&& after.wf()
        &&& after.same_except_market(self, depth.symbol)
        &&& after.bbo(depth.symbol) == self.bbo(depth.symbol)
        &&& match self.book(depth.symbol) {
            Some(b) => if b.accepts(depth, self.continuity(depth.symbol)) {
                &&& outcome == DepthOutcome::Applied
                &&& after.buffered(depth.symbol) == self.buffered(depth.symbol)
                &&& after.book(depth.symbol) matches Some(nb) && b.applied(depth, now, nb)
                &&& after.synced(depth.symbol)
            } else {
                &&& outcome == DepthOutcome::GapDetected
                &&& after.book(depth.symbol).is_none()
                &&& after.buffered(depth.symbol).len() == 0
                &&& !after.synced(depth.symbol)
            },
            None => {
                &&& outcome == DepthOutcome::Buffered
                &&& after.book(depth.symbol).is_none()
                &&& after.buffered(depth.symbol) == self.buffered(depth.symbol).push(depth)
                &&& !after.synced(depth.symbol)
            },
        }
    }

    /// Takes in a depth delta at local time `now`; see
    /// [`State::depth_received`]. After a gap the book has to be rebuilt
    /// from a new snapshot.
    pub fn on_depth_received_at(&mut self, depth: Depth, now: Timestamp) -> (r: DepthOutcome)
        requires
            old(self).wf(),
        ensures
            old(self).depth_received(depth, now, *final(self), r),
    {
        let i = depth.symbol().index();
        let slot = &mut self.markets[i];
        let rule = if slot.synced {
            Continuity::Strict
        } else {
            Continuity::Straddle
        };
        let outcome = match &mut slot.order_book {
            Some(book) => {
                if book.apply_at(&depth, rule, now) {
                    DepthOutcome::Applied
                } else {
                    DepthOutcome::GapDetected
                }
            },
            None => DepthOutcome::Buffered,
        };
        match outcome {
            DepthOutcome::Applied => {
                slot.synced = true;
            },
            DepthOutcome::GapDetected => {
                slot.order_book = None;
                slot.depth_buffer.clear();
                slot.synced = false;
            },
            DepthOutcome::Buffered => {
                slot.depth_buffer.push(depth);
            },
        }
        proof {
            assert(final(self).tracking().ledgers =~= old(self).tracking().ledgers);
            assert forall|s: Symbol| s != depth.symbol implies #[trigger] final(self).same_market(
                *old(self),
                s,
            ) by {
                assert(s.spec_index() != i);
            }
        }
        outcome
    }

    /// Takes in a depth delta now; see [`State::depth_received`].
    pub fn on_depth_received(&mut self, depth: Depth) -> (r: DepthOutcome)
        requires
            old(self).wf(),
        ensures
            exists|now: Timestamp| #[trigger]
                old(self).depth_received(depth, now, *final(self), r),
    {
        self.on_depth_received_at(depth, now_millis())
    }

    /// Whether `after` and `outcome` are what a snapshot leaves when it
    /// arrives at local time `now`: the buffered deltas of its symbol are
    /// replayed onto it in order ([`BookModel::drain`]) and the buffer is
    /// emptied. If the replay goes through, the resulting book is in place,
    /// and the next delta may straddle its last update unless the replay
    /// has applied a delta already; if the replay reveals a gap, no book is
    /// in place. Nothing else changes.
    pub open spec fn snapshot_done(
        self,
        snapshot: OrderBook,
        now: Timestamp,
        after: State,
        outcome: SnapshotOutcome,
    ) -> bool {
        let symbol = snapshot.spec_symbol();
        &&& after.wf()
        &&& after.same_except_market(self, symbol)
        &&& after.bbo(symbol) == self.bbo(symbol)
        &&& after.buffered(symbol).len() == 0
        &&& match snapshot.model().drain(self.buffered(symbol), 0, false, now) {
            Some(m) => {
                &&& outcome == SnapshotOutcome::Ready
                &&& after.book(symbol) matches Some(b) && b.wf() && b.model() == m
                &&& after.synced(symbol) == snapshot.model().synced_after(
                    self.buffered(symbol),
                    0,
                    false,
                    now,
                )
            },
            None => {
                &&& outcome == SnapshotOutcome::GapDetected
                &&& after.book(symbol).is_none()
                &&& !after.synced(symbol)
            },
        }
    }

    /// Completes the bootstrap of a symbol's book at local time `now`; see
    /// [`State::snapshot_done`]. After a gap a new snapshot is needed.
    pub fn on_snapshot_done_at(&mut self, snapshot: OrderBook, now: Timestamp) -> (r:
        SnapshotOutcome)
        requires
            old(self).wf(),
            snapshot.wf(),
        ensures
            old(self).snapshot_done(snapshot, now, *final(self), r),
    {
        let i = snapshot.symbol().index();
        let ghost start = snapshot.model();
        let ghost buffer = self.markets@[i as int].depth_buffer@;
        let ghost target = start.drain(buffer, 0, false, now);
        let ghost target_synced = start.synced_after(buffer, 0, false, now);
        let mut book = snapshot;
        let mut synced = false;
        let mut gap = false;
        let mut k: usize = 0;
        while k < self.markets[i].depth_buffer.len() && !gap
            invariant
                *self == *old(self),
                self.wf(),
                i < SYMBOL_COUNT,
                buffer == self.markets@[i as int].depth_buffer@,
                k <= buffer.len(),
                book.wf(),
                book.spec_symbol() == start.symbol,
                gap ==> target.is_none(),
                !gap ==> book.model().drain(buffer, k as int, synced, now) == target,
                !gap ==> book.model().synced_after(buffer, k as int, synced, now) == target_synced,
            decreases buffer.len() - k + if gap { 0int } else { 1int },
        {
            let rule = if synced {
                Continuity::Strict
            } else {
                Continuity::Straddle
            };
            match book.replay_at(&self.markets[i].depth_buffer[k], rule, now) {
                Replay::Discarded => {},
                Replay::Applied => {
                    synced = true;
                },
                Replay::Gap => {
                    gap = true;
                },
            }
            k += 1;
        }
        let slot = &mut self.markets[i];
        slot.depth_buffer.clear();
        let outcome = if gap {
            slot.order_book = None;
            slot.synced = false;
            SnapshotOutcome::GapDetected
        } else {
            slot.order_book = Some(book);
            slot.synced = synced;
            SnapshotOutcome::Ready
        };
        proof {
            assert(final(self).tracking().ledgers =~= old(self).tracking().ledgers);
            assert forall|s: Symbol| s != snapshot.spec_symbol() implies #[trigger] final(self).same_market(*old(self), s) by {
                assert(s.spec_index() != i);
            }
        }
        outcome
    }

    /// Completes the bootstrap of a symbol's book now; see
    /// [`State::snapshot_done`].
    pub fn on_snapshot_done(&mut self, snapshot: OrderBook) -> (r: SnapshotOutcome)
        requires
            old(self).wf(),
            snapshot.wf(),
        ensures
            exists|now: Timestamp| #[trigger]
                old(self).snapshot_done(snapshot, now, *final(self), r),
    {
        let now = now_millis();
        self.on_snapshot_done_at(snapshot, now)
    }

    /// The client order ids of the active orders, each once, in no
    /// particular order.
    pub fn active_order_ids(&self) -> (ids: Vec<ClientId>)
        requires
            self.wf(),
        ensures
            ids@.no_duplicates(),
            ids@.to_set() == self.active().dom(),
    {
        order_table_ids(&self.active_orders)
    }

    /// The ids of the active orders that have gone without an update for at
    /// least `max_age` milliseconds at time `now`, each once, in no
    /// particular order.
    pub fn stale_order_ids_at(&self, max_age: i64, now: Timestamp) -> (ids: Vec<ClientId>)
        requires
            self.wf(),
        ensures
            ids@.no_duplicates(),
            ids@.to_set() == self.tracking().stale_ids(now, max_age),
            ids@.len() == self.tracking().stale_ids(now, max_age).len(),
    {
        let keys = self.active_order_ids();
        let mut ids: Vec<ClientId> = Vec::new();
        let mut k: usize = 0;
        while k < keys.len()
            invariant
                k <= keys.len(),
                keys@.no_duplicates(),
                keys@.to_set() == order_table_items(self.active_orders).dom(),
                ids@.no_duplicates(),
                forall|x: ClientId|
                    ids@.contains(x) <==> (exists|j: int|
                        0 <= j < k && #[trigger] keys@[j] == x && order_table_items(self.active_orders)[x].is_stale(
                            now,
                            max_age,
                        )),
            decreases keys.len() - k,
        {
            let id = keys[k];
            let ghost before = ids@;
            proof {
                assert(keys@.to_set().contains(id)) by {
                    assert(keys@.contains(id));
                }
            }
            let stale = match order_table_get(&self.active_orders, &id) {
                Some(order) => order.stale_at(now, max_age),
                None => false,
            };
            if stale {
                proof {
                    if before.contains(id) {
                        let j = choose|j: int|
                            0 <= j < k && #[trigger] keys@[j] == id
                                && order_table_items(self.active_orders)[id].is_stale(now, max_age);
                        assert(keys@[j] == keys@[k as int]);
                    }
                }
                ids.push(id);
                proof {
                    lemma_push_contains(before, id);
                }
            }
            proof {
                assert forall|x: ClientId|
                    ids@.contains(x) <==> (exists|j: int|
                        0 <= j < k + 1 && #[trigger] keys@[j] == x
                            && order_table_items(self.active_orders)[x].is_stale(now, max_age)) by {
                    if ids@.contains(x) {
                        if before.contains(x) {
                            let j = choose|j: int|
                                0 <= j < k && #[trigger] keys@[j] == x
                                    && order_table_items(self.active_orders)[x].is_stale(now, max_age);
                            assert(0 <= j < k + 1 && keys@[j] == x);
                        } else {
                            assert(x == id);
                            assert(keys@[k as int] == x);
                        }
                    }
                    if exists|j: int|
                        0 <= j < k + 1 && #[trigger] keys@[j] == x
                            && order_table_items(self.active_orders)[x].is_stale(now, max_age) {
                        let j = choose|j: int|
                            0 <= j < k + 1 && #[trigger] keys@[j] == x
                                && order_table_items(self.active_orders)[x].is_stale(now, max_age);
                        if j < k {
                            assert(before.contains(x));
                        } else {
                            assert(x == id);
                        }
                    }
                }
            }
            k += 1;
        }
        proof {
            let want = self.tracking().stale_ids(now, max_age);
            assert forall|x: ClientId| ids@.to_set().contains(x) == want.contains(x) by {
                if ids@.contains(x) {
                    let j = choose|j: int|
                        0 <= j < k && #[trigger] keys@[j] == x
                            && order_table_items(self.active_orders)[x].is_stale(now, max_age);
                    assert(keys@.contains(x));
                    assert(keys@.to_set().contains(x));
                }
                if want.contains(x) {
                    assert(keys@.to_set().contains(x));
                    assert(keys@.contains(x));
                    let j = choose|j: int| 0 <= j < keys@.len() && keys@[j] == x;
                    assert(keys@[j] == x);
                }
            }
            assert(ids@.to_set() =~= want);
            ids@.unique_seq_to_set();
        }
        ids
    }

    /// The ids of the active orders that are stale now; see
    /// [`State::stale_order_ids_at`].
    pub fn stale_order_ids(&self, max_age: i64) -> (ids: Vec<ClientId>)
        requires
            self.wf(),
        ensures
            ids@.no_duplicates(),
            exists|now: Timestamp| ids@.to_set() == #[trigger] self.tracking().stale_ids(now, max_age),
    {
        let now = now_millis();
        self.stale_order_ids_at(max_age, now)
    }
}

} // verus!
