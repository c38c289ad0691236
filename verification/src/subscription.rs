//! Stream subscriptions: the names of the venue's streams, the control
//! frames that subscribe to them, and the bookkeeping of one stream session.
use vstd::prelude::*;
use vstd::string::*;
use crate::account::{AccountUpdateEvent, OrderTradeUpdateEvent, TradeLite};
use crate::codec::{json_array_text, outside_json_array};
use crate::market::{AggTrade, BookTicker, Depth, Trade};
use crate::order::Symbol;
use crate::text::{append_u64, decimal_digits, digit_run_end, digits_value, is_digit, is_word, lemma_decimal_digits, lemma_digit_run, read_digits, to_chars, word_at};

verus! {

/// A stream that a session can subscribe to.
#[derive(Debug, Clone, Copy, Hash)]
pub enum StreamSpec {
    /// Order book deltas, optionally limited to a number of levels and paced
    /// at an interval in milliseconds.
    Depth { symbol: Symbol, levels: Option<u16>, interval_ms: Option<u16> },
    BookTicker { symbol: Symbol },
    AggTrade { symbol: Symbol },
    Trade { symbol: Symbol },
    OrderTradeUpdate,
    TradeLite,
    AccountUpdate,
}

impl PartialEq for StreamSpec {
    fn eq(&self, other: &StreamSpec) -> (r: bool) {
        self.same(other)
    }
}

impl Eq for StreamSpec {

}

impl vstd::std_specs::cmp::PartialEqSpecImpl for StreamSpec {
    open spec fn obeys_eq_spec() -> bool {
        true
    }

    open spec fn eq_spec(&self, other: &StreamSpec) -> bool {
        *self == *other
    }
}

/// The part of a depth stream's name that gives the number of levels.
pub open spec fn levels_part(levels: Option<u16>) -> Seq<char> {
    match levels {
        Some(l) => decimal_digits(l as nat),
        None => Seq::empty(),
    }
}

/// The part of a depth stream's name that gives the update interval.
pub open spec fn interval_part(interval_ms: Option<u16>) -> Seq<char> {
    match interval_ms {
        Some(i) => "@"@ + decimal_digits(i as nat) + "ms"@,
        None => Seq::empty(),
    }
}

/// The symbol that a lower-case name stands for.
pub open spec fn symbol_of_lowercase(s: Seq<char>) -> Option<Symbol> {
    if s == "btcusdt"@ {
        Some(Symbol::BTCUSDT)
    } else if s == "ethusdt"@ {
        Some(Symbol::ETHUSDT)
    } else if s == "solusdt"@ {
        Some(Symbol::SOLUSDT)
    } else if s == "bnbusdt"@ {
        Some(Symbol::BNBUSDT)
    } else {
        None
    }
}

/// The number that the digits of `s` between `from` and `end` give to an
/// optional field: no digits leave the field empty, and a number above
/// 65535 is no field at all.
pub open spec fn field_of_digits(s: Seq<char>, from: int, end: int) -> Option<Option<u16>> {
    if from == end {
        Some(None)
    } else if digits_value(s.subrange(from, end)) <= 0xffff {
        Some(Some(digits_value(s.subrange(from, end)) as u16))
    } else {
        None
    }
}

/// What follows `@depth` in a stream name, read as levels and interval.
pub open spec fn depth_fields(s: Seq<char>) -> Option<(Option<u16>, Option<u16>)> {
    let e1 = digit_run_end(s, 13);
    match field_of_digits(s, 13, e1) {
        None => None,
        Some(levels) => if e1 == s.len() {
            Some((levels, None))
        } else if s[e1] != '@' {
            None
        } else {
            let e2 = digit_run_end(s, e1 + 1);
            match field_of_digits(s, e1 + 1, e2) {
                Some(Some(i)) => if s.subrange(e2, s.len() as int) == "ms"@ {
                    Some((levels, Some(i)))
                } else {
                    None
                },
                _ => None,
            }
        },
    }
}

/// A first reading of a stream name. It finds the stream of every name that
/// [`StreamSpec::spec_param`] writes, and may also read names written
/// otherwise (with leading zeros, say).
pub open spec fn read_name(s: Seq<char>) -> Option<StreamSpec> {
    if s == "ORDER_TRADE_UPDATE"@ {
        Some(StreamSpec::OrderTradeUpdate)
    } else if s == "TRADE_LITE"@ {
        Some(StreamSpec::TradeLite)
    } else if s == "ACCOUNT_UPDATE"@ {
        Some(StreamSpec::AccountUpdate)
    } else if s.len() < 7 {
        None
    } else {
        match symbol_of_lowercase(s.subrange(0, 7)) {
            None => None,
            Some(symbol) => {
                let rest = s.subrange(7, s.len() as int);
                if rest == "@bookTicker"@ {
                    Some(StreamSpec::BookTicker { symbol })
                } else if rest == "@aggTrade"@ {
                    Some(StreamSpec::AggTrade { symbol })
                } else if rest == "@trade"@ {
                    Some(StreamSpec::Trade { symbol })
                } else if s.len() >= 13 && s.subrange(7, 13) == "@depth"@ {
                    match depth_fields(s) {
                        Some((levels, interval_ms)) => Some(
                            StreamSpec::Depth { symbol, levels, interval_ms },
                        ),
                        None => None,
                    }
                } else {
                    None
                }
            },
        }
    }
}

impl StreamSpec {
    /// The stream's name in subscription frames.
    pub open spec fn spec_param(self) -> Seq<char> {
        match self {
            StreamSpec::Depth { symbol, levels, interval_ms } => symbol.spec_lowercase()
                + "@depth"@ + levels_part(levels) + interval_part(interval_ms),
            StreamSpec::BookTicker { symbol } => symbol.spec_lowercase() + "@bookTicker"@,
            StreamSpec::AggTrade { symbol } => symbol.spec_lowercase() + "@aggTrade"@,
            StreamSpec::Trade { symbol } => symbol.spec_lowercase() + "@trade"@,
            StreamSpec::OrderTradeUpdate => "ORDER_TRADE_UPDATE"@,
            StreamSpec::TradeLite => "TRADE_LITE"@,
            StreamSpec::AccountUpdate => "ACCOUNT_UPDATE"@,
        }
    }

    /// The stream that a name stands for: the one whose name it is.
    pub open spec fn spec_parse(name: Seq<char>) -> Option<StreamSpec> {
        match read_name(name) {
            Some(x) => if x.spec_param() == name {
                Some(x)
            } else {
                None
            },
            None => None,
        }
    }

    /// Whether two specs are the same stream.
    pub fn same(&self, other: &StreamSpec) -> (b: bool)
        ensures
            b == (*self == *other),
    {
        match (self, other) {
            (
                StreamSpec::Depth { symbol: s1, levels: l1, interval_ms: i1 },
                StreamSpec::Depth { symbol: s2, levels: l2, interval_ms: i2 },
            ) => {
                let same_levels = match (l1, l2) {
                    (Some(a), Some(b)) => *a == *b,
                    (None, None) => true,
                    _ => false,
                };
                let same_interval = match (i1, i2) {
                    (Some(a), Some(b)) => *a == *b,
                    (None, None) => true,
                    _ => false,
                };
                s1.index() == s2.index() && same_levels && same_interval
            },
            (StreamSpec::BookTicker { symbol: s1 }, StreamSpec::BookTicker { symbol: s2 }) => {
                s1.index() == s2.index()
            },
            (StreamSpec::AggTrade { symbol: s1 }, StreamSpec::AggTrade { symbol: s2 }) => {
                s1.index() == s2.index()
            },
            (StreamSpec::Trade { symbol: s1 }, StreamSpec::Trade { symbol: s2 }) => {
                s1.index() == s2.index()
            },
            (StreamSpec::OrderTradeUpdate, StreamSpec::OrderTradeUpdate) => true,
            (StreamSpec::TradeLite, StreamSpec::TradeLite) => true,
            (StreamSpec::AccountUpdate, StreamSpec::AccountUpdate) => true,
            _ => false,
        }
    }

    /// Writes the stream's name:
    /// `<symbol>@depth[<levels>][@<interval>ms]`, `<symbol>@bookTicker`,
    /// `<symbol>@aggTrade`, `<symbol>@trade` with the symbol in lower case,
    /// or the bare upper-case name of a user stream.
    pub fn as_param(&self) -> (s: String)
        ensures
            s@ == self.spec_param(),
    {
        match self {
            StreamSpec::Depth { symbol, levels, interval_ms } => {
                let mut s = String::from_str(symbol.as_str_lowercase());
                s.append("@depth");
                match levels {
                    Some(l) => {
                        append_u64(&mut s, *l as u64);
                    },
                    None => {
                        assert(s@ + Seq::<char>::empty() =~= s@);
                    },
                }
                let ghost before = s@;
                match interval_ms {
                    Some(i) => {
                        s.append("@");
                        append_u64(&mut s, *i as u64);
                        s.append("ms");
                        assert(s@ =~= before + ("@"@ + decimal_digits(*i as nat) + "ms"@));
                    },
                    None => {
                        assert(s@ + Seq::<char>::empty() =~= s@);
                    },
                }
                s
            },
            StreamSpec::BookTicker { symbol } => {
                let mut s = String::from_str(symbol.as_str_lowercase());
                s.append("@bookTicker");
                s
            },
            StreamSpec::AggTrade { symbol } => {
                let mut s = String::from_str(symbol.as_str_lowercase());
                s.append("@aggTrade");
                s
            },
            StreamSpec::Trade { symbol } => {
                let mut s = String::from_str(symbol.as_str_lowercase());
                s.append("@trade");
                s
            },
            StreamSpec::OrderTradeUpdate => String::from_str("ORDER_TRADE_UPDATE"),
            StreamSpec::TradeLite => String::from_str("TRADE_LITE"),
            StreamSpec::AccountUpdate => String::from_str("ACCOUNT_UPDATE"),
        }
    }

    /// Reads a stream name. The result is the one stream whose name is
    /// `name`, and nothing when no stream has that name.
    pub fn parse(name: &str) -> (r: Option<StreamSpec>)
        ensures
            r == StreamSpec::spec_parse(name@),
            match r {
                Some(x) => x.spec_param() == name@,
                None => forall|x: StreamSpec| x.spec_param() != name@,
            },
    {
        let text = to_chars(name);
        let first = read_stream_name(&text);
        match first {
            Some(x) => {
                let written = x.as_param();
                let given = String::from_str(name);
                if written == given {
                    Some(x)
                } else {
                    proof {
                        assert forall|y: StreamSpec| y.spec_param() != name@ by {
                            lemma_read_name_of_param(y);
                        }
                    }
                    None
                }
            },
            None => {
                proof {
                    assert forall|y: StreamSpec| y.spec_param() != name@ by {
                        lemma_read_name_of_param(y);
                    }
                }
                None
            },
        }
    }
}

/// Reads the symbol at the start of a stream name.
fn read_symbol(text: &Vec<char>) -> (r: Option<Symbol>)
    requires
        text@.len() >= 7,
    ensures
        r == symbol_of_lowercase(text@.subrange(0, 7)),
{
    proof {
        reveal_strlit("btcusdt");
        reveal_strlit("ethusdt");
        reveal_strlit("solusdt");
        reveal_strlit("bnbusdt");
    }
    if word_at(text, 0, "btcusdt") {
        Some(Symbol::BTCUSDT)
    } else if word_at(text, 0, "ethusdt") {
        Some(Symbol::ETHUSDT)
    } else if word_at(text, 0, "solusdt") {
        Some(Symbol::SOLUSDT)
    } else if word_at(text, 0, "bnbusdt") {
        Some(Symbol::BNBUSDT)
    } else {
        None
    }
}

/// Narrows a number that is known to fit.
fn to_u16(v: u64) -> (r: u16)
    requires
        v <= 0xffff,
    ensures
        r == v,
{
    v as u16
}

/// Reads an optional numeric field from `from`.
fn read_field(text: &Vec<char>, from: usize) -> (r: (usize, Option<Option<u16>>))
    requires
        from <= text@.len(),
    ensures
        r.0 == digit_run_end(text@, from as int),
        from <= r.0 <= text@.len(),
        r.1 == field_of_digits(text@, from as int, r.0 as int),
{
    let (end, value) = read_digits(text, from, 0xffff);
    if end == from {
        (end, Some(None))
    } else {
        match value {
            Some(v) => (end, Some(Some(to_u16(v)))),
            None => (end, None),
        }
    }
}

/// Reads what follows `@depth`.
fn read_depth_fields(text: &Vec<char>) -> (r: Option<(Option<u16>, Option<u16>)>)
    requires
        text@.len() >= 13,
    ensures
        r == depth_fields(text@),
{
    let (e1, levels) = read_field(text, 13);
    match levels {
        None => None,
        Some(levels) => {
            if e1 == text.len() {
                Some((levels, None))
            } else if text[e1] != '@' {
                None
            } else {
                let (e2, interval) = read_field(text, e1 + 1);
                match interval {
                    Some(Some(i)) => {
                        proof {
                            reveal_strlit("ms");
                        }
                        let tail = word_at(text, e2, "ms");
                        if tail && text.len() - e2 == 2 {
                            Some((levels, Some(i)))
                        } else {
                            None
                        }
                    },
                    _ => None,
                }
            }
        },
    }
}

/// A first reading of a stream name; see [`read_name`].
fn read_stream_name(text: &Vec<char>) -> (r: Option<StreamSpec>)
    ensures
        r == read_name(text@),
{
    if is_word(text, "ORDER_TRADE_UPDATE") {
        return Some(StreamSpec::OrderTradeUpdate);
    }
    if is_word(text, "TRADE_LITE") {
        return Some(StreamSpec::TradeLite);
    }
    if is_word(text, "ACCOUNT_UPDATE") {
        return Some(StreamSpec::AccountUpdate);
    }
    if text.len() < 7 {
        return None;
    }
    let symbol = match read_symbol(text) {
        Some(symbol) => symbol,
        None => {
            return None;
        },
    };
    proof {
        reveal_strlit("@bookTicker");
        reveal_strlit("@aggTrade");
        reveal_strlit("@trade");
        reveal_strlit("@depth");
    }
    let n = text.len();
    proof {
        let rest = text@.subrange(7, n as int);
        assert(rest.len() == n - 7);
        assert("@bookTicker"@.len() == 11);
        assert("@aggTrade"@.len() == 9);
        assert("@trade"@.len() == 6);
        assert("@depth"@.len() == 6);
    }
    if n == 18 && word_at(text, 7, "@bookTicker") {
        Some(StreamSpec::BookTicker { symbol })
    } else if n == 16 && word_at(text, 7, "@aggTrade") {
        Some(StreamSpec::AggTrade { symbol })
    } else if n == 13 && word_at(text, 7, "@trade") {
        Some(StreamSpec::Trade { symbol })
    } else if n >= 13 && word_at(text, 7, "@depth") {
        match read_depth_fields(text) {
            Some((levels, interval_ms)) => Some(StreamSpec::Depth { symbol, levels, interval_ms }),
            None => None,
        }
    } else {
        None
    }
}

/// The first reading of a name that [`StreamSpec::spec_param`] wrote finds
/// the stream it was written for.
pub proof fn lemma_read_name_of_param(x: StreamSpec)
    ensures
        read_name(x.spec_param()) == Some(x),
{
    reveal_strlit("ORDER_TRADE_UPDATE");
    reveal_strlit("TRADE_LITE");
    reveal_strlit("ACCOUNT_UPDATE");
    reveal_strlit("btcusdt");
    reveal_strlit("ethusdt");
    reveal_strlit("solusdt");
    reveal_strlit("bnbusdt");
    reveal_strlit("@bookTicker");
    reveal_strlit("@aggTrade");
    reveal_strlit("@trade");
    reveal_strlit("@depth");
    let s = x.spec_param();
    match x {
        StreamSpec::OrderTradeUpdate => {},
        StreamSpec::TradeLite => {
            assert("TRADE_LITE"@.len() != "ORDER_TRADE_UPDATE"@.len());
        },
        StreamSpec::AccountUpdate => {
            assert("ACCOUNT_UPDATE"@.len() != "ORDER_TRADE_UPDATE"@.len());
            assert("ACCOUNT_UPDATE"@.len() != "TRADE_LITE"@.len());
        },
        StreamSpec::BookTicker { symbol } => {
            lemma_symbol_prefix(symbol, "@bookTicker"@);
            assert(s.subrange(7, s.len() as int) =~= "@bookTicker"@);
        },
        StreamSpec::AggTrade { symbol } => {
            lemma_symbol_prefix(symbol, "@aggTrade"@);
            assert(s.subrange(7, s.len() as int) =~= "@aggTrade"@);
            assert("@aggTrade"@.len() != "@bookTicker"@.len());
        },
        StreamSpec::Trade { symbol } => {
            lemma_symbol_prefix(symbol, "@trade"@);
            assert(s.subrange(7, s.len() as int) =~= "@trade"@);
            assert("@trade"@.len() != "@bookTicker"@.len());
            assert("@trade"@.len() != "@aggTrade"@.len());
        },
        StreamSpec::Depth { symbol, levels, interval_ms } => {
            let tail = "@depth"@ + levels_part(levels) + interval_part(interval_ms);
            assert(s =~= symbol.spec_lowercase() + tail);
            lemma_symbol_prefix(symbol, tail);
            let rest = s.subrange(7, s.len() as int);
            assert(rest =~= tail);
            assert(rest[1] == 'd');
            assert("@bookTicker"@[1] == 'b');
            assert("@aggTrade"@[1] == 'a');
            assert("@trade"@[1] == 't');
            assert(s.subrange(7, 13) =~= "@depth"@);
            assert(s.subrange(13, s.len() as int) =~= levels_part(levels) + interval_part(
                interval_ms,
            ));
            lemma_depth_fields(s, levels, interval_ms);
        },
    }
}

/// A name that starts with a symbol in lower case is none of the user
/// streams' names, and its first seven characters give the symbol back.
proof fn lemma_symbol_prefix(symbol: Symbol, tail: Seq<char>)
    ensures
        symbol.spec_lowercase().len() == 7,
        (symbol.spec_lowercase() + tail).len() == 7 + tail.len(),
        (symbol.spec_lowercase() + tail) != "ORDER_TRADE_UPDATE"@,
        (symbol.spec_lowercase() + tail) != "TRADE_LITE"@,
        (symbol.spec_lowercase() + tail) != "ACCOUNT_UPDATE"@,
        symbol_of_lowercase((symbol.spec_lowercase() + tail).subrange(0, 7)) == Some(symbol),
{
    reveal_strlit("ORDER_TRADE_UPDATE");
    reveal_strlit("TRADE_LITE");
    reveal_strlit("ACCOUNT_UPDATE");
    reveal_strlit("btcusdt");
    reveal_strlit("ethusdt");
    reveal_strlit("solusdt");
    reveal_strlit("bnbusdt");
    let p = symbol.spec_lowercase();
    let s = p + tail;
    assert(s.subrange(0, 7) =~= p);
    assert(s[0] == p[0]);
    assert("ORDER_TRADE_UPDATE"@[0] == 'O');
    assert("TRADE_LITE"@[0] == 'T');
    assert("ACCOUNT_UPDATE"@[0] == 'A');
    assert("btcusdt"@[0] == 'b');
    assert("ethusdt"@[0] == 'e');
    assert("solusdt"@[0] == 's');
    assert("bnbusdt"@[0] == 'b');
    assert("btcusdt"@[1] == 't');
    assert("bnbusdt"@[1] == 'n');
}

/// Reading the fields behind `@depth` in a written name gives the fields
/// that were written.
proof fn lemma_depth_fields(s: Seq<char>, levels: Option<u16>, interval_ms: Option<u16>)
    requires
        s.len() >= 13,
        s.subrange(13, s.len() as int) == levels_part(levels) + interval_part(interval_ms),
    ensures
        depth_fields(s) == Some((levels, interval_ms)),
{
    reveal_strlit("@");
    reveal_strlit("ms");
    let lp = levels_part(levels);
    let ip = interval_part(interval_ms);
    let after = s.subrange(13, s.len() as int);
    let e1: int = 13 + lp.len() as int;
    assert(after.len() == s.len() - 13);
    assert(after.len() == lp.len() + ip.len());
    assert("@"@.len() == 1 && "@"@[0] == '@');
    assert("ms"@.len() == 2 && "ms"@[0] == 'm' && "ms"@[1] == 's');
    assert(!is_digit('@') && !is_digit('m'));
    match levels {
        Some(l) => {
            lemma_decimal_digits(l as nat);
        },
        None => {},
    }
    match interval_ms {
        Some(i) => {
            lemma_decimal_digits(i as nat);
        },
        None => {},
    }
    assert forall|i: int| 13 <= i < e1 implies is_digit(#[trigger] s[i]) by {
        assert(s[i] == after[i - 13]);
        assert(after[i - 13] == lp[i - 13]);
    }
    if e1 < s.len() {
        assert(s[e1] == after[e1 - 13]);
        assert(after[e1 - 13] == ip[0]);
        assert(ip[0] == '@');
    }
    lemma_digit_run(s, 13, e1);
    assert(s.subrange(13, e1) =~= lp);
    match interval_ms {
        None => {
            assert(e1 == s.len());
        },
        Some(i) => {
            let d = decimal_digits(i as nat);
            assert(ip.len() == 1 + d.len() + 2);
            let e2: int = e1 + 1 + d.len() as int;
            assert forall|k: int| e1 + 1 <= k < e2 implies is_digit(#[trigger] s[k]) by {
                assert(s[k] == after[k - 13]);
                assert(after[k - 13] == ip[k - e1]);
                assert(ip[k - e1] == d[k - e1 - 1]);
            }
            assert(s[e2] == after[e2 - 13]);
            assert(after[e2 - 13] == ip[e2 - e1]);
            assert(ip[e2 - e1] == 'm');
            lemma_digit_run(s, e1 + 1, e2);
            assert(s.len() == e2 + 2);
            assert forall|k: int| 0 <= k < d.len() implies s.subrange(e1 + 1, e2)[k] == d[k] by {
                assert(s[e1 + 1 + k] == after[e1 + 1 + k - 13]);
                assert(after[e1 + 1 + k - 13] == ip[1 + k]);
            }
            assert(s.subrange(e1 + 1, e2) =~= d);
            assert forall|k: int| 0 <= k < 2 implies s.subrange(e2, s.len() as int)[k] == "ms"@[k] by {
                assert(s[e2 + k] == after[e2 + k - 13]);
                assert(after[e2 + k - 13] == ip[1 + d.len() + k]);
            }
            assert(s.subrange(e2, s.len() as int) =~= "ms"@);
        },
    }
}

/// Writing a stream's name and reading it gives the stream back.
pub proof fn lemma_param_round_trip(x: StreamSpec)
    ensures
        StreamSpec::spec_parse(x.spec_param()) == Some(x),
{
    lemma_read_name_of_param(x);
}

/// Two streams with the same name are the same stream.
pub proof fn lemma_param_injective(x: StreamSpec, y: StreamSpec)
    requires
        x.spec_param() == y.spec_param(),
    ensures
        x == y,
{
    lemma_read_name_of_param(x);
    lemma_read_name_of_param(y);
}


/// What a control frame asks for.
#[derive(Debug, Clone, Copy, PartialEq, Eq, Structural)]
pub enum WsSubscriptionMethod {
    Subscribe,
    Unsubscribe,
}

impl WsSubscriptionMethod {
    /// The upper-case name used on the wire.
    pub open spec fn spec_name(self) -> Seq<char> {
        match self {
            WsSubscriptionMethod::Subscribe => "SUBSCRIBE"@,
            WsSubscriptionMethod::Unsubscribe => "UNSUBSCRIBE"@,
        }
    }

    pub fn as_str(&self) -> (s: &'static str)
        ensures
            s@ == self.spec_name(),
    {
        match self {
            WsSubscriptionMethod::Subscribe => "SUBSCRIBE",
            WsSubscriptionMethod::Unsubscribe => "UNSUBSCRIBE",
        }
    }
}

/// The text of a control frame, given its list of stream names as JSON:
/// `{"method":"<METHOD>","params":<names>,"id":<id>}`.
pub open spec fn frame_text(method: WsSubscriptionMethod, params_json: Seq<char>, id: u64) -> Seq<
    char,
> {
    "{\"method\":\""@ + method.spec_name() + "\",\"params\":"@ + params_json + ",\"id\":"@
        + decimal_digits(id as nat) + "}"@
}

/// The names of a list of streams.
pub open spec fn param_texts(specs: Seq<StreamSpec>) -> Seq<Seq<char>> {
    Seq::new(specs.len(), |i: int| specs[i].spec_param())
}

/// A control frame that subscribes to streams or unsubscribes from them.
#[derive(Debug)]
pub struct WsSubscriptionCommand {
    pub method: WsSubscriptionMethod,
    /// Stream names.
    pub params: Vec<String>,
    pub id: u64,
}

impl WsSubscriptionCommand {
    pub fn new(method: WsSubscriptionMethod, params: Vec<String>, id: u64) -> (r: Self)
        ensures
            r == (WsSubscriptionCommand { method, params, id }),
    {
        Self { method, params, id }
    }

    /// Puts a control frame together from its list of stream names as JSON.
    pub fn frame(method: WsSubscriptionMethod, params_json: &str, id: u64) -> (s: String)
        ensures
            s@ == frame_text(method, params_json@, id),
    {
        let mut s = String::from_str("{\"method\":\"");
        s.append(method.as_str());
        s.append("\",\"params\":");
        s.append(params_json);
        s.append(",\"id\":");
        append_u64(&mut s, id);
        s.append("}");
        s
    }

    /// The frame as JSON text. The list of stream names is written by the
    /// JSON library: where that gives a text, the frame is built around it,
    /// and where it reports an error, the error comes back.
    pub fn to_text(&self) -> (r: Result<String, serde_json::Error>)
        ensures
            match json_array_text(self.params.deep_view()) {
                Some(params_json) => (r matches Ok(text) && text@ == frame_text(
                    self.method,
                    params_json,
                    self.id,
                )),
                None => r is Err,
            },
    {
        match outside_json_array(&self.params) {
            Ok(params_json) => Ok(
                WsSubscriptionCommand::frame(self.method, params_json.as_str(), self.id),
            ),
            Err(e) => Err(e),
        }
    }
}

/// What a session is told to do.
#[derive(Debug)]
pub enum StreamCommand {
    Subscribe(Vec<StreamSpec>),
    Unsubscribe(Vec<StreamSpec>),
    Shutdown,
}

/// Events that can be read from the text of a stream message.
pub trait ParseStream: Sized {
    /// Reads a message. A text that cannot be read is kept as a raw event.
    fn parse(text: &str) -> Self;
}

/// A message of the market streams.
#[derive(Debug)]
pub enum MarketStream {
    Depth(Depth),
    BookTicker(BookTicker),
    AggTrade(AggTrade),
    Trade(Trade),
    /// A message that could not be read, as it came.
    Raw(String),
}

/// A message of the user data streams.
#[derive(Debug)]
pub enum AccountStream {
    OrderTradeUpdate(OrderTradeUpdateEvent),
    TradeLite(TradeLite),
    AccountUpdate(AccountUpdateEvent),
    /// A message that could not be read, as it came.
    Raw(String),
}

/// What arrived on the socket.
#[derive(Debug, Clone, Copy, PartialEq, Eq, Structural)]
pub enum Inbound {
    Text,
    Binary,
    Ping,
    Pong,
    Close,
    Frame,
    /// Receiving failed.
    Failed,
    /// The stream has ended.
    Ended,
}

/// What to do with what arrived.
#[derive(Debug, Clone, Copy, PartialEq, Eq, Structural)]
pub enum InboundAction {
    /// Read the payload as a stream message and pass the event on.
    Decode,
    /// Note the frame and go on.
    Ignore,
    /// End the session.
    Stop,
}

/// What to do after a command.
#[derive(Debug)]
pub enum SessionAction {
    /// Send the control frame with this text. A failure to send is not
    /// reported back: the command is then lost.
    Send(String),
    /// Nothing to send: the frame could not be written.
    Skip,
    /// End the session.
    Stop,
}

/// Whether `action` is what a control frame for the given streams calls
/// for: to send the frame with the streams' names and the given id, or, where
/// the names cannot be written as JSON, to skip it.
pub open spec fn sends_frame(
    action: SessionAction,
    method: WsSubscriptionMethod,
    specs: Seq<StreamSpec>,
    id: u64,
) -> bool {
    match json_array_text(param_texts(specs)) {
        Some(params_json) => (action matches SessionAction::Send(text) && text@ == frame_text(
            method,
            params_json,
            id,
        )),
        None => action is Skip,
    }
}

/// The bookkeeping of one stream session: the streams subscribed to and the
/// id of the next control frame.
#[derive(Debug)]
pub struct WsSession {
    active: Vec<StreamSpec>,
    next_id: u64,
}

impl WsSession {
    /// The streams subscribed to.
    pub closed spec fn active_set(self) -> Set<StreamSpec> {
        self.active@.to_set()
    }

    /// The id that the next control frame gets.
    pub closed spec fn spec_next_id(self) -> u64 {
        self.next_id
    }

    /// The session's invariant: no stream is listed twice, and ids start at 1.
    pub closed spec fn wf(self) -> bool {
        self.active@.no_duplicates() && self.next_id >= 1
    }

    /// What the name of an arriving frame calls for: text and binary
    /// payloads are decoded, a close, a failure or the end of the stream
    /// end the session, and anything else is passed over.
    pub open spec fn spec_on_inbound(inbound: Inbound) -> InboundAction {
        match inbound {
            Inbound::Text | Inbound::Binary => InboundAction::Decode,
            Inbound::Ping | Inbound::Pong | Inbound::Frame => InboundAction::Ignore,
            Inbound::Close | Inbound::Failed | Inbound::Ended => InboundAction::Stop,
        }
    }

    /// A session without subscriptions whose first control frame gets id 1.
    pub fn new() -> (session: WsSession)
        ensures
            session.wf(),
            session.active_set() == Set::<StreamSpec>::empty(),
            session.spec_next_id() == 1,
    {
        let session = WsSession { active: Vec::new(), next_id: 1 };
        assert(session.active@.to_set() =~= Set::<StreamSpec>::empty());
        session
    }

    pub fn next_id(&self) -> (id: u64)
        ensures
            id == self.spec_next_id(),
    {
        self.next_id
    }

    /// Whether the session is subscribed to a stream.
    pub fn is_active(&self, spec: &StreamSpec) -> (b: bool)
        ensures
            b == self.active_set().contains(*spec),
    {
        find_spec(&self.active, spec).is_some()
    }

    /// The number of streams subscribed to.
    pub fn active_len(&self) -> (n: usize)
        requires
            self.wf(),
        ensures
            n == self.active_set().len(),
    {
        proof {
            self.active@.unique_seq_to_set();
        }
        self.active.len()
    }

    /// See [`WsSession::spec_on_inbound`].
    pub fn on_inbound(inbound: Inbound) -> (action: InboundAction)
        ensures
            action == WsSession::spec_on_inbound(inbound),
    {
        match inbound {
            Inbound::Text | Inbound::Binary => InboundAction::Decode,
            Inbound::Ping | Inbound::Pong | Inbound::Frame => InboundAction::Ignore,
            Inbound::Close | Inbound::Failed | Inbound::Ended => InboundAction::Stop,
        }
    }

    /// Carries out a command. Subscribing adds the streams to the active
    /// ones, unsubscribing takes them away; either way a control frame with
    /// the streams' names and the next id is to be sent, and the id moves
    /// on by one. A shutdown ends the session, and so does a command that
    /// comes when the ids are used up.
    pub fn on_command(&mut self, command: &StreamCommand) -> (action: SessionAction)
        requires
            old(self).wf(),
        ensures
            final(self).wf(),
            match *command {
                StreamCommand::Shutdown => action is Stop && *final(self) == *old(self),
                StreamCommand::Subscribe(specs) => if old(self).spec_next_id() == u64::MAX {
                    action is Stop && *final(self) == *old(self)
                } else {
                    &&& final(self).active_set() == old(self).active_set().union(specs@.to_set())
                    &&& final(self).spec_next_id() == old(self).spec_next_id() + 1
                    &&& sends_frame(
                        action,
                        WsSubscriptionMethod::Subscribe,
                        specs@,
                        old(self).spec_next_id(),
                    )
                },
                StreamCommand::Unsubscribe(specs) => if old(self).spec_next_id() == u64::MAX {
                    action is Stop && *final(self) == *old(self)
                } else {
                    &&& final(self).active_set() == old(self).active_set().difference(
                        specs@.to_set(),
                    )
                    &&& final(self).spec_next_id() == old(self).spec_next_id() + 1
                    &&& sends_frame(
                        action,
                        WsSubscriptionMethod::Unsubscribe,
                        specs@,
                        old(self).spec_next_id(),
                    )
                },
            },
    {
        match command {
            StreamCommand::Shutdown => SessionAction::Stop,
            StreamCommand::Subscribe(specs) => {
                if self.next_id == u64::MAX {
                    return SessionAction::Stop;
                }
                add_specs(&mut self.active, specs);
                let id = self.next_id;
                self.next_id = id + 1;
                control_frame(WsSubscriptionMethod::Subscribe, specs, id)
            },
            StreamCommand::Unsubscribe(specs) => {
                if self.next_id == u64::MAX {
                    return SessionAction::Stop;
                }
                remove_specs(&mut self.active, specs);
                let id = self.next_id;
                self.next_id = id + 1;
                control_frame(WsSubscriptionMethod::Unsubscribe, specs, id)
            },
        }
    }
}

/// Where a stream stands in a list, if it is there.
fn find_spec(list: &Vec<StreamSpec>, spec: &StreamSpec) -> (r: Option<usize>)
    ensures
        r.is_some() == list@.to_set().contains(*spec),
        r matches Some(i) ==> i < list@.len() && list@[i as int] == *spec,
{
    let mut k: usize = 0;
    while k < list.len()
        invariant
            k <= list.len(),
            forall|j: int| 0 <= j < k ==> list@[j] != *spec,
        decreases list.len() - k,
    {
        if list[k].same(spec) {
            assert(list@.contains(*spec));
            return Some(k);
        }
        k += 1;
    }
    assert(!list@.contains(*spec));
    None
}

/// Adds streams to a list that holds none twice.
fn add_specs(list: &mut Vec<StreamSpec>, specs: &Vec<StreamSpec>)
    requires
        old(list)@.no_duplicates(),
    ensures
        final(list)@.no_duplicates(),
        final(list)@.to_set() == old(list)@.to_set().union(specs@.to_set()),
{
    let ghost start = list@.to_set();
    let mut k: usize = 0;
    proof {
        assert(specs@.subrange(0, 0).to_set() =~= Set::<StreamSpec>::empty());
        assert(start.union(Set::<StreamSpec>::empty()) =~= start);
    }
    while k < specs.len()
        invariant
            k <= specs.len(),
            list@.no_duplicates(),
            list@.to_set() == start.union(specs@.subrange(0, k as int).to_set()),
        decreases specs.len() - k,
    {
        let ghost before = list@;
        let spec = specs[k];
        let known = find_spec(list, &spec).is_some();
        if !known {
            list.push(spec);
        }
        proof {
            let done = specs@.subrange(0, k as int);
            let next = specs@.subrange(0, k + 1);
            assert(next =~= done.push(spec));
            assert forall|x: StreamSpec| list@.to_set().contains(x) == start.union(
                next.to_set(),
            ).contains(x) by {
                assert(before.to_set().contains(x) == start.union(done.to_set()).contains(x));
                if list@.contains(x) {
                    let j = choose|j: int| 0 <= j < list@.len() && list@[j] == x;
                    if j < before.len() {
                        assert(before[j] == x);
                        assert(before.contains(x));
                    } else {
                        assert(x == spec);
                        assert(next[k as int] == x);
                        assert(next.contains(x));
                    }
                }
                if before.contains(x) {
                    let j = choose|j: int| 0 <= j < before.len() && before[j] == x;
                    assert(list@[j] == x);
                }
                if next.contains(x) {
                    let j = choose|j: int| 0 <= j < next.len() && next[j] == x;
                    if j < k {
                        assert(done[j] == x);
                        assert(done.contains(x));
                    } else {
                        assert(x == spec);
                        if !known {
                            assert(list@[before.len() as int] == x);
                        }
                    }
                }
                if done.contains(x) {
                    let j = choose|j: int| 0 <= j < done.len() && done[j] == x;
                    assert(next[j] == x);
                }
            }
            assert(list@.to_set() =~= start.union(next.to_set()));
            if !known {
                assert forall|a: int, b: int|
                    0 <= a < list@.len() && 0 <= b < list@.len() && a != b implies list@[a]
                    != list@[b] by {
                    if a < before.len() && b < before.len() {
                        assert(before[a] != before[b]);
                    } else if a < before.len() {
                        assert(before.contains(before[a]));
                    } else if b < before.len() {
                        assert(before.contains(before[b]));
                    }
                }
            }
        }
        k += 1;
    }
    proof {
        assert(specs@.subrange(0, specs@.len() as int) =~= specs@);
    }
}

/// Takes streams away from a list that holds none twice.
fn remove_specs(list: &mut Vec<StreamSpec>, specs: &Vec<StreamSpec>)
    requires
        old(list)@.no_duplicates(),
    ensures
        final(list)@.no_duplicates(),
        final(list)@.to_set() == old(list)@.to_set().difference(specs@.to_set()),
{
    let ghost start = list@.to_set();
    let mut k: usize = 0;
    proof {
        assert(specs@.subrange(0, 0).to_set() =~= Set::<StreamSpec>::empty());
        assert(start.difference(Set::<StreamSpec>::empty()) =~= start);
    }
    while k < specs.len()
        invariant
            k <= specs.len(),
            list@.no_duplicates(),
            list@.to_set() == start.difference(specs@.subrange(0, k as int).to_set()),
        decreases specs.len() - k,
    {
        let ghost before = list@;
        let spec = specs[k];
        let found = find_spec(list, &spec);
        let ghost at: int = -1;
        match found {
            Some(i) => {
                let _ = list.remove(i);
                proof {
                    at = i as int;
                }
            },
            None => {},
        }
        proof {
            let done = specs@.subrange(0, k as int);
            let next = specs@.subrange(0, k + 1);
            assert(next =~= done.push(spec));
            assert forall|a: int, b: int|
                0 <= a < list@.len() && 0 <= b < list@.len() && a != b implies list@[a]
                != list@[b] by {
                if at >= 0 {
                    let a0 = if a < at { a } else { a + 1 };
                    let b0 = if b < at { b } else { b + 1 };
                    assert(before[a0] != before[b0]);
                }
            }
            assert forall|x: StreamSpec| list@.to_set().contains(x) == start.difference(
                next.to_set(),
            ).contains(x) by {
                assert(before.to_set().contains(x) == start.difference(done.to_set()).contains(x));
                if list@.contains(x) {
                    let j = choose|j: int| 0 <= j < list@.len() && list@[j] == x;
                    if at >= 0 {
                        let j0 = if j < at { j } else { j + 1 };
                        assert(before[j0] == x);
                        assert(j0 != at);
                        assert(before[at] == spec);
                        assert(x != spec);
                    } else {
                        assert(before[j] == x);
                        assert(!before.contains(spec));
                    }
                    assert(before.contains(x));
                    if next.contains(x) {
                        let n = choose|n: int| 0 <= n < next.len() && next[n] == x;
                        if n < k {
                            assert(done[n] == x);
                            assert(done.contains(x));
                        }
                    }
                }
                if start.difference(next.to_set()).contains(x) {
                    assert(!next.contains(x));
                    assert(next[k as int] == spec);
                    assert(x != spec);
                    if done.contains(x) {
                        let n = choose|n: int| 0 <= n < done.len() && done[n] == x;
                        assert(next[n] == x);
                    }
                    assert(before.contains(x));
                    let j0 = choose|j: int| 0 <= j < before.len() && before[j] == x;
                    if at >= 0 {
                        let j = if j0 < at { j0 } else { j0 - 1 };
                        assert(list@[j] == x);
                    } else {
                        assert(list@[j0] == x);
                    }
                }
            }
            assert(list@.to_set() =~= start.difference(next.to_set()));
        }
        k += 1;
    }
    proof {
        assert(specs@.subrange(0, specs@.len() as int) =~= specs@);
    }
}

/// The names of a list of streams.
fn params_of(specs: &Vec<StreamSpec>) -> (params: Vec<String>)
    ensures
        params.deep_view() == param_texts(specs@),
{
    let mut params: Vec<String> = Vec::new();
    let mut k: usize = 0;
    while k < specs.len()
        invariant
            k <= specs.len(),
            params@.len() == k,
            forall|j: int| 0 <= j < k ==> (#[trigger] params@[j])@ == specs@[j].spec_param(),
        decreases specs.len() - k,
    {
        params.push(specs[k].as_param());
        k += 1;
    }
    assert(params.deep_view() =~= param_texts(specs@));
    params
}

/// The action that a control frame for a list of streams calls for: to
/// send the frame with the streams' names and the given id, or to skip it
/// where the names cannot be written as JSON.
fn control_frame(method: WsSubscriptionMethod, specs: &Vec<StreamSpec>, id: u64) -> (action:
    SessionAction)
    ensures
        sends_frame(action, method, specs@, id),
{
    let command = WsSubscriptionCommand::new(method, params_of(specs), id);
    match command.to_text() {
        Ok(text) => SessionAction::Send(text),
        Err(_) => SessionAction::Skip,
    }
}

} // verus!
