//! The REST side of the venue: what to send and how to read what comes
//! back. Sending is left to the caller.
use vstd::prelude::*;
use vstd::string::*;
use vstd::utf8::encode_utf8;
use crate::clock::now_millis;
use crate::codec::{
    hex_text, hmac_sha256, json_field_text, outside_hex, outside_hmac_sha256, outside_json_field,
};
use crate::config::AccountConfidential;
use crate::error::{ApiError, DataError, MessageCodecError, TradingCoreError};
use crate::ids::{outside_uuid_text, uuid_text};
use crate::market::Timestamp;
use crate::order::{ClientId, Symbol, TimeInForce};
use crate::request::RequestOpen;
use crate::text::{append_u64, decimal_digits};

verus! {

/// REST address of the venue's test network.
pub const TEST_ENDPOINT_REST: &'static str = "https://demo-fapi.binance.com";

/// REST address of the venue.
pub const ENDPOINT_REST: &'static str = "https://fapi.binance.com";

/// Path of the order endpoint.
pub const ORDER_PATH: &'static str = "/fapi/v1/order";

/// Path of the listen key endpoint.
pub const LISTEN_KEY_PATH: &'static str = "/fapi/v1/listenKey";

/// Name of the header that carries the API key.
pub const API_KEY_HEADER: &'static str = "X-MBX-APIKEY";

/// Whether a status says that the request went well: 200 to 299.
pub open spec fn spec_is_success(status: u16) -> bool {
    200 <= status < 300
}

/// The error that a failed response stands for: a status of 429 is a rate
/// limit, any other is unknown.
pub open spec fn spec_api_error(status: u16, body: String) -> ApiError {
    if status == 429 {
        ApiError::RateLimit { status, body }
    } else {
        ApiError::Unknown { status, body }
    }
}

/// A query with its signature appended.
pub open spec fn spec_signed(query: Seq<char>, code: Seq<u8>) -> Seq<char> {
    query + "&signature="@ + hex_text(code)
}

/// A reading of the clock as an unsigned number of milliseconds since the
/// epoch: a reading before the epoch counts as zero.
pub open spec fn spec_unsigned_millis(reading: Timestamp) -> u64 {
    if reading < 0 {
        0
    } else {
        reading as u64
    }
}

/// Turns a reading of the clock into an unsigned number of milliseconds
/// since the epoch; see [`spec_unsigned_millis`].
pub fn unsigned_millis(reading: Timestamp) -> (r: u64)
    ensures
        r == spec_unsigned_millis(reading),
{
    if reading < 0 {
        0
    } else {
        reading as u64
    }
}

/// Whether a status says that the request went well.
pub fn is_success(status: u16) -> (b: bool)
    ensures
        b == spec_is_success(status),
{
    200 <= status && status < 300
}

/// Sorts a failed response into the kinds of API errors.
pub fn map_api_error(status: u16, body: String) -> (e: ApiError)
    ensures
        e == spec_api_error(status, body),
{
    if status == 429 {
        ApiError::RateLimit { status, body }
    } else {
        ApiError::Unknown { status, body }
    }
}

/// The body of a response that went well, or the API error of one that did
/// not.
pub fn check_response(status: u16, body: String) -> (r: Result<String, ApiError>)
    ensures
        r == (if spec_is_success(status) {
            Ok::<String, ApiError>(body)
        } else {
            Err::<String, ApiError>(spec_api_error(status, body))
        }),
{
    if is_success(status) {
        Ok(body)
    } else {
        Err(map_api_error(status, body))
    }
}

/// Appends the signature to a query: `<query>&signature=<code in hex>`.
pub fn signed_query(query: &str, code: &[u8]) -> (s: String)
    ensures
        s@ == spec_signed(query@, code@),
{
    let mut s = String::from_str(query);
    s.append("&signature=");
    let hex = outside_hex(code);
    s.append(hex.as_str());
    s
}

/// Checks that time in force and expiry of a request go together.
pub fn check_open_request(request: &RequestOpen) -> (r: Result<(), DataError>)
    ensures
        r.is_ok() == request.is_consistent(),
        r matches Err(e) ==> (e matches DataError::BadDefinition { reason } && reason@
            == "Unmatched timeInForce and goodTilDate"@),
{
    match (request.time_in_force(), request.good_till_date()) {
        (TimeInForce::GoodUntilDate, Some(_)) => Ok(()),
        (TimeInForce::GoodUntilDate, None) => Err(
            DataError::BadDefinition { reason: "Unmatched timeInForce and goodTilDate" },
        ),
        (_, Some(_)) => Err(
            DataError::BadDefinition { reason: "Unmatched timeInForce and goodTilDate" },
        ),
        (_, None) => Ok(()),
    }
}

/// The listen key of a response body that has been read as JSON: the string
/// under `listenKey`, an error if there is none, and the JSON error if the
/// body was no JSON.
pub fn listen_key_of(field: Result<Option<String>, serde_json::Error>) -> (r: Result<
    String,
    TradingCoreError,
>)
    ensures
        match field {
            Ok(Some(key)) => r == Ok::<String, TradingCoreError>(key),
            Ok(None) => (r matches Err(
                TradingCoreError::MessageCodec(MessageCodecError::MissingField(field)),
            ) && field@ == "listenKey"@),
            Err(e) => (r matches Err(TradingCoreError::MessageCodec(MessageCodecError::Serde(x)))
                && x == e),
        },
{
    match field {
        Ok(Some(key)) => Ok(key),
        Ok(None) => Err(
            TradingCoreError::MessageCodec(MessageCodecError::MissingField("listenKey")),
        ),
        Err(e) => Err(TradingCoreError::MessageCodec(MessageCodecError::Serde(e))),
    }
}

/// Reads the listen key out of the venue's response to a listen key
/// request: a failed response gives its API error, a body without a string
/// under `listenKey` gives a codec error.
pub fn read_listen_key(status: u16, body: String) -> (r: Result<String, TradingCoreError>)
    ensures
        !spec_is_success(status) ==> (r matches Err(TradingCoreError::Api(e)) && e
            == spec_api_error(status, body)),
        spec_is_success(status) ==> (match json_field_text(body@, "listenKey"@) {
            Some(Some(key)) => (r matches Ok(k) && k@ == key),
            Some(None) => (r matches Err(
                TradingCoreError::MessageCodec(MessageCodecError::MissingField(field)),
            ) && field@ == "listenKey"@),
            None => r matches Err(TradingCoreError::MessageCodec(MessageCodecError::Serde(_))),
        }),
{
    if !is_success(status) {
        return Err(TradingCoreError::Api(map_api_error(status, body)));
    }
    listen_key_of(outside_json_field(body.as_str(), "listenKey"))
}

/// The address of a depth snapshot:
/// `<endpoint>/fapi/v1/depth?symbol=<SYMBOL>&limit=<depth>`.
pub fn snapshot_url(endpoint: &str, symbol: Symbol, depth: u16) -> (s: String)
    ensures
        s@ == endpoint@ + "/fapi/v1/depth?symbol="@ + symbol.spec_name() + "&limit="@
            + decimal_digits(depth as nat),
{
    let mut s = String::from_str(endpoint);
    s.append("/fapi/v1/depth?symbol=");
    s.append(symbol.as_str());
    s.append("&limit=");
    append_u64(&mut s, depth as u64);
    s
}

/// The address of the user data stream: `<endpoint>/<listen key>`.
pub fn account_stream_url(ws_endpoint: &str, listen_key: &str) -> (s: String)
    ensures
        s@ == ws_endpoint@ + "/"@ + listen_key@,
{
    let mut s = String::from_str(ws_endpoint);
    s.append("/");
    s.append(listen_key);
    s
}

/// The venue's REST interface for one account and symbol.
#[derive(Debug)]
pub struct Client {
    pub symbol: Symbol,
    pub api_key: String,
    pub api_secret: String,
    pub is_testnet: bool,
    pub endpoint: String,
}

impl Client {
    /// The text of a request to cancel an order: symbol, client order id
    /// and timestamp.
    pub open spec fn spec_cancel_query(self, client_id: ClientId, timestamp: u64) -> Seq<char> {
        "symbol="@ + self.symbol.spec_name() + "&origClientOrderId="@ + uuid_text(client_id as int)
            + "&timestamp="@ + decimal_digits(timestamp as nat)
    }

    /// An URL-encoded open request with symbol and timestamp appended.
    pub open spec fn spec_open_query(self, encoded: Seq<char>, timestamp: u64) -> Seq<char> {
        encoded + "&symbol="@ + self.symbol.spec_name() + "&timestamp="@ + decimal_digits(
            timestamp as nat,
        )
    }

    /// The client for an account: the test network's address for a test
    /// account, the venue's own for any other.
    pub fn new(confidential: AccountConfidential, symbol: Symbol) -> (client: Client)
        ensures
            client.symbol == symbol,
            client.api_key == confidential.api_key,
            client.api_secret == confidential.api_secret,
            client.is_testnet == confidential.is_testnet,
            client.endpoint@ == (if confidential.is_testnet {
                TEST_ENDPOINT_REST@
            } else {
                ENDPOINT_REST@
            }),
    {
        let is_testnet = confidential.is_testnet();
        let endpoint = if is_testnet {
            String::from_str(TEST_ENDPOINT_REST)
        } else {
            String::from_str(ENDPOINT_REST)
        };
        Client {
            symbol,
            api_key: confidential.api_key,
            api_secret: confidential.api_secret,
            is_testnet,
            endpoint,
        }
    }

    /// The current time in milliseconds since the epoch, zero for a clock
    /// that stands before the epoch: some reading of the clock, turned into
    /// an unsigned number by [`unsigned_millis`].
    pub fn now_u64() -> (now: u64)
        ensures
            exists|reading: Timestamp| now == #[trigger] spec_unsigned_millis(reading),
    {
        unsigned_millis(now_millis())
    }

    /// Signs a query with the account's secret:
    /// `<query>&signature=<HMAC-SHA256 of the query, in hex>`. Signing
    /// succeeds for every secret and every query.
    pub fn sign(&self, query_string: &str) -> (r: Result<String, TradingCoreError>)
        ensures
            r matches Ok(signed) && signed@ == spec_signed(
                query_string@,
                hmac_sha256(encode_utf8(self.api_secret@), encode_utf8(query_string@)),
            ),
    {
        let code = outside_hmac_sha256(self.api_secret.as_str().as_bytes(), query_string.as_bytes());
        match code {
            Ok(code) => Ok(signed_query(query_string, code.as_slice())),
            Err(e) => Err(TradingCoreError::MessageCodec(MessageCodecError::Hmac(e))),
        }
    }

    /// The address of an endpoint: the venue's address followed by the
    /// path.
    pub fn url(&self, path: &str) -> (s: String)
        ensures
            s@ == self.endpoint@ + path@,
    {
        let mut s = String::from_str(self.endpoint.as_str());
        s.append(path);
        s
    }

    /// The address of a signed DELETE request, which carries its query in
    /// the address.
    pub fn delete_url(&self, path: &str, signed_request: &str) -> (s: String)
        ensures
            s@ == self.endpoint@ + path@ + "?"@ + signed_request@,
    {
        let mut s = String::from_str(self.endpoint.as_str());
        s.append(path);
        s.append("?");
        s.append(signed_request);
        s
    }

    /// Completes an URL-encoded open request with symbol and timestamp.
    pub fn open_order_query(&self, encoded_request: &str, timestamp: u64) -> (s: String)
        ensures
            s@ == self.spec_open_query(encoded_request@, timestamp),
    {
        let mut s = String::from_str(encoded_request);
        s.append("&symbol=");
        s.append(self.symbol.as_str());
        s.append("&timestamp=");
        append_u64(&mut s, timestamp);
        s
    }

    /// The query of a request to cancel the order with the given client
    /// order id.
    pub fn cancel_order_query(&self, client_id: ClientId, timestamp: u64) -> (s: String)
        ensures
            s@ == self.spec_cancel_query(client_id, timestamp),
    {
        let mut s = String::from_str("symbol=");
        s.append(self.symbol.as_str());
        s.append("&origClientOrderId=");
        let id = outside_uuid_text(client_id);
        s.append(id.as_str());
        s.append("&timestamp=");
        append_u64(&mut s, timestamp);
        s
    }
}

} // verus!
