//! What is sent to the exchange and how its answers are read: endpoints,
//! request bodies, signatures, clock correction, error answers, and the
//! filters on what the public endpoints return.
//!
//! Nothing here performs a request. The caller sends what these functions
//! build and hands back what came in.

use vstd::prelude::*;
use vstd::string::StringSliceAdditionalSpecFns;
use hmac::Mac;
use crate::decimal::{fixed_text, parse_decimal, parsed, push_fixed};
use crate::engine::{OrderError, OrderRequest};
use crate::models::ticker::Kline;
use crate::fixed::clamp;
use crate::symbol::texts_of;
use crate::text::{decimal_digits, push_decimal, push_str, string_from_chars};

verus! {

/// Seconds after which a request to the exchange is given up.
pub const REQUEST_TIMEOUT_SECS: u64 = 10;

/// The address of the exchange: the test network or the main network.
pub open spec fn base_url_text(testnet: bool) -> Seq<char> {
    if testnet {
        "https://testnet.binance.vision"@
    } else {
        "https://api.binance.com"@
    }
}

/// Returns the address of the exchange.
pub fn base_url(testnet: bool) -> (r: &'static str)
    ensures
        r@ == base_url_text(testnet),
{
    if testnet {
        "https://testnet.binance.vision"
    } else {
        "https://api.binance.com"
    }
}

/// The endpoints the engine uses.
#[derive(Debug, Clone, Copy, PartialEq, Eq, Structural)]
pub enum Endpoint {
    Ping,
    Time,
    ExchangeInfo,
    Klines,
    TickerPrice,
    Account,
    Order,
}

impl Endpoint {
    /// The path of an endpoint.
    pub open spec fn path_text(&self) -> Seq<char> {
        match self {
            Endpoint::Ping => "/api/v3/ping"@,
            Endpoint::Time => "/api/v3/time"@,
            Endpoint::ExchangeInfo => "/api/v3/exchangeInfo"@,
            Endpoint::Klines => "/api/v3/klines"@,
            Endpoint::TickerPrice => "/api/v3/ticker/price"@,
            Endpoint::Account => "/api/v3/account"@,
            Endpoint::Order => "/api/v3/order"@,
        }
    }

    /// Returns the path of an endpoint.
    pub fn path(&self) -> (r: &'static str)
        ensures
            r@ == self.path_text(),
    {
        match self {
            Endpoint::Ping => "/api/v3/ping",
            Endpoint::Time => "/api/v3/time",
            Endpoint::ExchangeInfo => "/api/v3/exchangeInfo",
            Endpoint::Klines => "/api/v3/klines",
            Endpoint::TickerPrice => "/api/v3/ticker/price",
            Endpoint::Account => "/api/v3/account",
            Endpoint::Order => "/api/v3/order",
        }
    }

    /// Returns the address of an endpoint on the network chosen.
    pub fn url(&self, testnet: bool) -> (r: String)
        ensures
            r@ == base_url_text(testnet) + self.path_text(),
    {
        let mut out: Vec<char> = Vec::new();
        push_str(&mut out, base_url(testnet));
        push_str(&mut out, self.path());
        string_from_chars(&out)
    }
}

// ----------------------------------------------------------------------
// Signatures
// ----------------------------------------------------------------------

/// The HMAC-SHA256 code of `message` under `key`.
pub uninterp spec fn hmac_sha256(key: Seq<u8>, message: Seq<u8>) -> Seq<u8>;

/// The lower-case hexadecimal digit of a value below 16.
pub open spec fn hex_digit(v: int) -> char {
    if v == 0 {
        '0'
    } else if v == 1 {
        '1'
    } else if v == 2 {
        '2'
    } else if v == 3 {
        '3'
    } else if v == 4 {
        '4'
    } else if v == 5 {
        '5'
    } else if v == 6 {
        '6'
    } else if v == 7 {
        '7'
    } else if v == 8 {
        '8'
    } else if v == 9 {
        '9'
    } else if v == 10 {
        'a'
    } else if v == 11 {
        'b'
    } else if v == 12 {
        'c'
    } else if v == 13 {
        'd'
    } else if v == 14 {
        'e'
    } else {
        'f'
    }
}

/// Bytes written in lower-case hexadecimal, two digits each.
pub open spec fn hex_lower(bytes: Seq<u8>) -> Seq<char>
    decreases bytes.len(),
{
    if bytes.len() == 0 {
        Seq::empty()
    } else {
        hex_lower(bytes.drop_last()).push(hex_digit(bytes.last() as int / 16)).push(
            hex_digit(bytes.last() as int % 16),
        )
    }
}

/// Hexadecimal text has two characters per byte.
pub proof fn lemma_hex_lower_len(bytes: Seq<u8>)
    ensures
        hex_lower(bytes).len() == 2 * bytes.len(),
    decreases bytes.len(),
{
    if bytes.len() > 0 {
        lemma_hex_lower_len(bytes.drop_last());
    }
}

/// Computes an HMAC-SHA256 code with the `hmac` and `sha2` crates:
/// `Mac::new_from_slice`, `Mac::update`, `Mac::finalize`.
///
/// Trusted: the result is the code of the message under the key, a function
/// of the two alone, and has the 32 bytes of a SHA-256 output.
/// `new_from_slice` returns no error for HMAC, whatever the key's length.
#[verifier::external_body]
fn hmac_sha256_code(key: &[u8], message: &[u8]) -> (r: Vec<u8>)
    ensures
        r@ == hmac_sha256(key@, message@),
        r@.len() == 32,
{
    let mut mac = hmac::Hmac::<sha2::Sha256>::new_from_slice(key).unwrap();
    mac.update(message);
    mac.finalize().into_bytes().to_vec()
}

/// Writes bytes in hexadecimal with `hex::encode`.
///
/// Trusted: the text has two lower-case hexadecimal digits per byte, high
/// digit first, in the order of the bytes, as the crate documents.
#[verifier::external_body]
fn hex_encode(bytes: &Vec<u8>) -> (r: String)
    ensures
        r@ == hex_lower(bytes@),
{
    hex::encode(bytes)
}

/// The signature of a payload: its HMAC-SHA256 code under the secret, in
/// hexadecimal.
pub open spec fn signature(secret: &str, payload: &str) -> Seq<char> {
    hex_lower(hmac_sha256(secret.spec_bytes(), payload.spec_bytes()))
}

/// Signs a payload with the API secret.
pub fn sign(secret: &str, payload: &str) -> (r: String)
    ensures
        r@ == signature(secret, payload),
        r@.len() == 64,
{
    let code = hmac_sha256_code(secret.as_bytes(), payload.as_bytes());
    proof {
        lemma_hex_lower_len(code@);
    }
    hex_encode(&code)
}

/// A payload with its signature appended.
pub open spec fn signed_text(payload: Seq<char>, signature: Seq<char>) -> Seq<char> {
    payload + "&signature="@ + signature
}

/// Appends the signature to a payload.
pub fn with_signature(payload: &str, signature: &str) -> (r: String)
    ensures
        r@ == signed_text(payload@, signature@),
{
    let mut out: Vec<char> = Vec::new();
    push_str(&mut out, payload);
    push_str(&mut out, "&signature=");
    push_str(&mut out, signature);
    string_from_chars(&out)
}

// ----------------------------------------------------------------------
// Clock correction
// ----------------------------------------------------------------------

/// Half of `sum`, rounded toward zero.
pub open spec fn half(sum: int) -> int {
    if sum >= 0 {
        sum / 2
    } else {
        -((-sum) / 2)
    }
}

/// How far the exchange's clock is ahead of the local one, in
/// milliseconds: the server's time minus the middle of the local times
/// before and after the request.
pub open spec fn offset_of(local_before: i64, local_after: i64, server_time: i64) -> int {
    server_time - half(local_before + local_after)
}

/// Computes the clock offset of the exchange, limited to 64 bits.
pub fn clock_offset(local_before: i64, local_after: i64, server_time: i64) -> (r: i64)
    ensures
        r == clamp(offset_of(local_before, local_after, server_time), i64::MIN as int, i64::MAX as int),
{
    let sum: i128 = local_before as i128 + local_after as i128;
    let middle: i128 = if sum >= 0 {
        sum / 2
    } else {
        -((-sum) / 2)
    };
    let offset: i128 = server_time as i128 - middle;
    if offset < i64::MIN as i128 {
        i64::MIN
    } else if offset > i64::MAX as i128 {
        i64::MAX
    } else {
        offset as i64
    }
}

/// The timestamp of a signed request: the local time corrected by the
/// offset, in milliseconds; never negative.
pub fn timestamp_ms(local_ms: i64, offset_ms: i64) -> (r: u64)
    ensures
        r == clamp(local_ms + offset_ms, 0, u64::MAX as int),
{
    let corrected: i128 = local_ms as i128 + offset_ms as i128;
    if corrected < 0 {
        0
    } else {
        corrected as u64
    }
}

// ----------------------------------------------------------------------
// Request bodies
// ----------------------------------------------------------------------

/// The body of an order, before it is signed.
pub open spec fn order_text(request: &OrderRequest, timestamp: u64) -> Seq<char> {
    match request {
        OrderRequest::MarketBuyQuote { symbol, quote_amount } => "symbol="@ + symbol@
            + "&side=BUY&type=MARKET&quoteOrderQty="@ + fixed_text(*quote_amount as u128)
            + "&timestamp="@ + decimal_digits(timestamp as nat),
        OrderRequest::MarketBuyQty { symbol, quantity } => "symbol="@ + symbol@
            + "&side=BUY&type=MARKET&quantity="@ + fixed_text(*quantity) + "&timestamp="@
            + decimal_digits(timestamp as nat),
        OrderRequest::MarketSellQty { symbol, quantity } => "symbol="@ + symbol@
            + "&side=SELL&type=MARKET&quantity="@ + fixed_text(*quantity) + "&timestamp="@
            + decimal_digits(timestamp as nat),
    }
}

/// Builds the body of an order, before it is signed. Amounts are written
/// with eight decimals.
pub fn order_body(request: &OrderRequest, timestamp: u64) -> (r: String)
    ensures
        r@ == order_text(request, timestamp),
{
    let mut out: Vec<char> = Vec::new();
    push_str(&mut out, "symbol=");
    match request {
        OrderRequest::MarketBuyQuote { symbol, quote_amount } => {
            push_str(&mut out, symbol.as_str());
            push_str(&mut out, "&side=BUY&type=MARKET&quoteOrderQty=");
            push_fixed(&mut out, *quote_amount as u128);
        },
        OrderRequest::MarketBuyQty { symbol, quantity } => {
            push_str(&mut out, symbol.as_str());
            push_str(&mut out, "&side=BUY&type=MARKET&quantity=");
            push_fixed(&mut out, *quantity);
        },
        OrderRequest::MarketSellQty { symbol, quantity } => {
            push_str(&mut out, symbol.as_str());
            push_str(&mut out, "&side=SELL&type=MARKET&quantity=");
            push_fixed(&mut out, *quantity);
        },
    }
    push_str(&mut out, "&timestamp=");
    push_decimal(&mut out, timestamp as u128);
    proof {
        assert(out@ =~= order_text(request, timestamp));
    }
    string_from_chars(&out)
}

/// The body that cancels an order, before it is signed.
pub open spec fn cancel_text(symbol: Seq<char>, order_id: u64, timestamp: u64) -> Seq<char> {
    "symbol="@ + symbol + "&orderId="@ + decimal_digits(order_id as nat) + "&timestamp="@
        + decimal_digits(timestamp as nat)
}

/// Builds the body that cancels an order, before it is signed.
pub fn cancel_body(symbol: &str, order_id: u64, timestamp: u64) -> (r: String)
    ensures
        r@ == cancel_text(symbol@, order_id, timestamp),
{
    let mut out: Vec<char> = Vec::new();
    push_str(&mut out, "symbol=");
    push_str(&mut out, symbol);
    push_str(&mut out, "&orderId=");
    push_decimal(&mut out, order_id as u128);
    push_str(&mut out, "&timestamp=");
    push_decimal(&mut out, timestamp as u128);
    proof {
        assert(out@ =~= cancel_text(symbol@, order_id, timestamp));
    }
    string_from_chars(&out)
}

/// The query of the account endpoint, before it is signed.
pub open spec fn account_text(timestamp: u64) -> Seq<char> {
    "timestamp="@ + decimal_digits(timestamp as nat)
}

/// Builds the query of the account endpoint, before it is signed.
pub fn account_query(timestamp: u64) -> (r: String)
    ensures
        r@ == account_text(timestamp),
{
    let mut out: Vec<char> = Vec::new();
    push_str(&mut out, "timestamp=");
    push_decimal(&mut out, timestamp as u128);
    string_from_chars(&out)
}

/// The query of the candle endpoint.
pub open spec fn klines_text(symbol: Seq<char>, interval: Seq<char>, limit: u32) -> Seq<char> {
    "?symbol="@ + symbol + "&interval="@ + interval + "&limit="@ + decimal_digits(limit as nat)
}

/// Builds the query of the candle endpoint.
pub fn klines_query(symbol: &str, interval: &str, limit: u32) -> (r: String)
    ensures
        r@ == klines_text(symbol@, interval@, limit),
{
    let mut out: Vec<char> = Vec::new();
    push_str(&mut out, "?symbol=");
    push_str(&mut out, symbol);
    push_str(&mut out, "&interval=");
    push_str(&mut out, interval);
    push_str(&mut out, "&limit=");
    push_decimal(&mut out, limit as u128);
    proof {
        assert(out@ =~= klines_text(symbol@, interval@, limit));
    }
    string_from_chars(&out)
}

// ----------------------------------------------------------------------
// Error answers
// ----------------------------------------------------------------------

/// A parsed JSON document of the `serde_json` crate.
#[verifier::external_type_specification]
#[verifier::external_body]
pub struct ExJsonValue(serde_json::Value);

/// The document that a text reads as with `serde_json::from_str`; `None`
/// where the text is no JSON.
pub uninterp spec fn json_document(text: Seq<char>) -> Option<serde_json::Value>;

/// What a JSON document holds of integers: each member of an object whose
/// value is an integer that fits in 64 bits with a sign, by its key.
pub uninterp spec fn json_integers(document: serde_json::Value) -> Map<Seq<char>, i64>;

/// What a JSON document holds of strings: each member of an object whose
/// value is a string, by its key.
pub uninterp spec fn json_strings(document: serde_json::Value) -> Map<Seq<char>, Seq<char>>;

/// Parses JSON text with `serde_json::from_str`.
///
/// Trusted: the document is a function of the text alone; text that is no
/// JSON gives `None`.
#[verifier::external_body]
fn parse_json(text: &str) -> (r: Option<serde_json::Value>)
    ensures
        r == json_document(text@),
{
    serde_json::from_str::<serde_json::Value>(text).ok()
}

/// Reads an integer member of a JSON document by indexing it with the key
/// and calling `Value::as_i64`.
///
/// Trusted: the result is the member among the document's integers, if
/// there is one. Indexing does not panic: a document that is no object, or
/// has no such member, gives null, which is no integer.
#[verifier::external_body]
fn json_i64(document: &serde_json::Value, key: &str) -> (r: Option<i64>)
    ensures
        r == (if json_integers(*document).contains_key(key@) {
            Some(json_integers(*document)[key@])
        } else {
            None::<i64>
        }),
{
    document[key].as_i64()
}

/// Reads a string member of a JSON document by indexing it with the key
/// and calling `Value::as_str`.
///
/// Trusted: the result is the member among the document's strings, if
/// there is one. Indexing does not panic.
#[verifier::external_body]
fn json_str<'a>(document: &'a serde_json::Value, key: &str) -> (r: Option<&'a str>)
    ensures
        match r {
            Some(s) => json_strings(*document).contains_key(key@) && s@ == json_strings(*document)[key@],
            None => !json_strings(*document).contains_key(key@),
        },
{
    document[key].as_str()
}

/// What an error answer held, as far as it could be read.
#[derive(Debug)]
pub enum ErrorBody {
    /// The body is JSON, with the members `code` and `msg` where present.
    Json { code: Option<i64>, msg: Option<String> },
    /// The body is no JSON.
    Other,
}

/// The message of an error answer of the exchange. A JSON body gives
/// `Binance error <code>: <msg> (HTTP <status>)`, with the whole body in
/// place of a missing message; any other body gives `HTTP <status>: <body>`.
pub open spec fn error_text(status: Seq<char>, text: Seq<char>, body: &ErrorBody) -> Seq<char> {
    match body {
        ErrorBody::Json { code, msg } => "Binance error "@ + signed_digits(error_code(body)) + ": "@
            + (match msg {
            Some(m) => m@,
            None => text,
        }) + " (HTTP "@ + status + ")"@,
        ErrorBody::Other => "HTTP "@ + status + ": "@ + text,
    }
}

/// Describes an error answer whose body has been read.
pub fn describe_error(status: &str, text: &str, body: &ErrorBody) -> (r: OrderError)
    ensures
        r.code == error_code(body),
        r.message@ == error_text(status@, text@, body),
{
    let mut out: Vec<char> = Vec::new();
    match body {
        ErrorBody::Json { code, msg } => {
            let number = match code {
                Some(c) => *c,
                None => 0,
            };
            push_str(&mut out, "Binance error ");
            push_signed(&mut out, number);
            push_str(&mut out, ": ");
            match msg {
                Some(m) => push_str(&mut out, m.as_str()),
                None => push_str(&mut out, text),
            }
            push_str(&mut out, " (HTTP ");
            push_str(&mut out, status);
            push_str(&mut out, ")");
            proof {
                assert(out@ =~= error_text(status@, text@, body));
            }
            OrderError { code: number, message: string_from_chars(&out) }
        },
        ErrorBody::Other => {
            push_str(&mut out, "HTTP ");
            push_str(&mut out, status);
            push_str(&mut out, ": ");
            push_str(&mut out, text);
            proof {
                assert(out@ =~= error_text(status@, text@, body));
            }
            OrderError { code: 0, message: string_from_chars(&out) }
        },
    }
}

/// Reads the body of an error answer: the members `code` and `msg` of the
/// document that the text reads as, or `Other` where the text is no JSON.
fn read_error_body(text: &str) -> (r: ErrorBody)
    ensures
        r.read_from(text@),
{
    match parse_json(text) {
        Some(document) => {
            let code = json_i64(&document, "code");
            let msg = match json_str(&document, "msg") {
                Some(m) => Some(m.to_owned()),
                None => None,
            };
            ErrorBody::Json { code, msg }
        },
        None => ErrorBody::Other,
    }
}

/// Turns an answer that is no success into an error with the exchange's
/// code and a message for the user: the description of what the body of the
/// answer reads as.
pub fn check_response(status: &str, text: &str) -> (r: OrderError)
    ensures
        r.code == answer_code(text@),
        r.message@ == answer_text(status@, text@),
{
    let body = read_error_body(text);
    describe_error(status, text, &body)
}

/// The code of an error answer: the member `code`, or 0 without one.
pub open spec fn error_code(body: &ErrorBody) -> i64 {
    match body {
        ErrorBody::Json { code: Some(c), .. } => *c,
        _ => 0,
    }
}

/// The decimal text of a signed number.
pub open spec fn signed_digits(n: i64) -> Seq<char> {
    if n < 0 {
        seq!['-'] + decimal_digits((-(n as int)) as nat)
    } else {
        decimal_digits(n as nat)
    }
}

/// Appends the decimal text of a signed number to `out`.
pub fn push_signed(out: &mut Vec<char>, n: i64)
    ensures
        final(out)@ == old(out)@ + signed_digits(n),
{
    if n < 0 {
        out.push('-');
        push_decimal(out, (-(n as i128)) as u128);
    } else {
        push_decimal(out, n as u128);
    }
}

/// The integer member of a document under a key, if it has one.
pub open spec fn integer_member(document: serde_json::Value, key: Seq<char>) -> Option<i64> {
    if json_integers(document).contains_key(key) {
        Some(json_integers(document)[key])
    } else {
        None
    }
}

/// The string member of a document under a key, if it has one.
pub open spec fn string_member(document: serde_json::Value, key: Seq<char>) -> Option<Seq<char>> {
    if json_strings(document).contains_key(key) {
        Some(json_strings(document)[key])
    } else {
        None
    }
}

impl ErrorBody {
    /// The body is what `text` reads as: `Json` with the integer member
    /// `code` and the string member `msg` of the document, each where the
    /// document has it, or `Other` where the text is no JSON.
    pub open spec fn read_from(&self, text: Seq<char>) -> bool {
        match json_document(text) {
            Some(document) => {
                &&& *self matches ErrorBody::Json { code, msg }
                &&& code == integer_member(document, "code"@)
                &&& match msg {
                    Some(m) => string_member(document, "msg"@) == Some(m@),
                    None => string_member(document, "msg"@) is None,
                }
            },
            None => *self is Other,
        }
    }
}

/// The code of an answer that is no success: the integer member `code` of
/// its body, or 0 where the body is no JSON or has no such member.
pub open spec fn answer_code(text: Seq<char>) -> i64 {
    match json_document(text) {
        Some(document) => match integer_member(document, "code"@) {
            Some(code) => code,
            None => 0,
        },
        None => 0,
    }
}

/// The message of an answer that is no success. A JSON body gives
/// `Binance error <code>: <msg> (HTTP <status>)`, with the whole body in
/// place of a missing string member `msg`; any other body gives
/// `HTTP <status>: <body>`.
pub open spec fn answer_text(status: Seq<char>, text: Seq<char>) -> Seq<char> {
    match json_document(text) {
        Some(document) => "Binance error "@ + signed_digits(answer_code(text)) + ": "@ + (
        match string_member(document, "msg"@) {
            Some(msg) => msg,
            None => text,
        }) + " (HTTP "@ + status + ")"@,
        None => "HTTP "@ + status + ": "@ + text,
    }
}

// ----------------------------------------------------------------------
// Public data
// ----------------------------------------------------------------------

/// What the exchange tells of one trading pair.
#[derive(Debug)]
pub struct SymbolInfo {
    pub symbol: String,
    pub status: String,
    pub quote_asset: String,
    pub is_spot_trading_allowed: bool,
    pub permissions: Vec<String>,
}

/// One of the permissions is `wanted`.
pub open spec fn permits(permissions: Seq<String>, wanted: Seq<char>) -> bool {
    exists|i: int| 0 <= i < permissions.len() && (#[trigger] permissions[i])@ == wanted
}

impl SymbolInfo {
    /// The pair is offered: it trades, is quoted in USDT, and is open to
    /// spot and to margin trading.
    pub open spec fn offered(&self) -> bool {
        &&& self.status@ == "TRADING"@
        &&& self.quote_asset@ == "USDT"@
        &&& self.is_spot_trading_allowed
        &&& (permits(self.permissions@, "MARGIN"@) || permits(self.permissions@, "ISOLATED_MARGIN"@))
    }

    /// Tells whether the pair is offered.
    pub fn is_offered(&self) -> (r: bool)
        ensures
            r == self.offered(),
    {
        let trading: String = "TRADING".to_owned();
        let usdt: String = "USDT".to_owned();
        if !(self.status == trading) || !(self.quote_asset == usdt) || !self.is_spot_trading_allowed {
            return false;
        }
        let margin: String = "MARGIN".to_owned();
        let isolated: String = "ISOLATED_MARGIN".to_owned();
        let mut i: usize = 0;
        while i < self.permissions.len()
            invariant
                i <= self.permissions.len(),
                margin@ == "MARGIN"@,
                isolated@ == "ISOLATED_MARGIN"@,
                self.status@ == "TRADING"@,
                self.quote_asset@ == "USDT"@,
                self.is_spot_trading_allowed,
                forall|j: int|
                    0 <= j < i ==> (#[trigger] self.permissions@[j])@ != "MARGIN"@
                        && self.permissions@[j]@ != "ISOLATED_MARGIN"@,
            decreases self.permissions.len() - i,
        {
            if self.permissions[i] == margin || self.permissions[i] == isolated {
                proof {
                    let found = self.permissions@[i as int];
                    assert(permits(self.permissions@, found@));
                }
                return true;
            }
            i = i + 1;
        }
        false
    }
}

/// The symbols of the pairs that are offered, in the order given.
pub open spec fn offered_symbols(infos: Seq<SymbolInfo>) -> Seq<Seq<char>>
    decreases infos.len(),
{
    if infos.len() == 0 {
        Seq::empty()
    } else if infos.last().offered() {
        offered_symbols(infos.drop_last()).push(infos.last().symbol@)
    } else {
        offered_symbols(infos.drop_last())
    }
}

/// `a` comes before `b`, or is `b`, in the order of strings: the first
/// character in which they differ decides, and a prefix comes first.
pub open spec fn text_le(a: Seq<char>, b: Seq<char>) -> bool
    decreases a.len(),
{
    if a.len() == 0 {
        true
    } else if b.len() == 0 {
        false
    } else if a[0] != b[0] {
        (a[0] as u32) < (b[0] as u32)
    } else {
        text_le(a.drop_first(), b.drop_first())
    }
}

/// The texts are in ascending order.
pub open spec fn ascending(s: Seq<Seq<char>>) -> bool {
    forall|i: int, j: int| 0 <= i <= j < s.len() ==> text_le(#[trigger] s[i], #[trigger] s[j])
}

/// Sorts strings with `slice::sort`.
///
/// Trusted: the list afterwards holds the same strings as before, each as
/// often, in ascending order. Strings are ordered as std documents for
/// `str`: byte by byte, which for UTF-8 is character by character.
#[verifier::external_body]
fn sort_strings(strings: &mut Vec<String>)
    ensures
        texts_of(final(strings)@).to_multiset() == texts_of(old(strings)@).to_multiset(),
        ascending(texts_of(final(strings)@)),
{
    strings.sort();
}

/// Selects the pairs that are offered and sorts their symbols.
pub fn usdt_symbols(infos: &Vec<SymbolInfo>) -> (r: Vec<String>)
    ensures
        texts_of(r@).to_multiset() == offered_symbols(infos@).to_multiset(),
        ascending(texts_of(r@)),
{
    let mut out: Vec<String> = Vec::new();
    let mut i: usize = 0;
    while i < infos.len()
        invariant
            i <= infos.len(),
            texts_of(out@) == offered_symbols(infos@.take(i as int)),
        decreases infos.len() - i,
    {
        proof {
            assert(infos@.take(i + 1).drop_last() =~= infos@.take(i as int));
            assert(infos@.take(i + 1).last() == infos@[i as int]);
        }
        if infos[i].is_offered() {
            let ghost before = out@;
            out.push(infos[i].symbol.clone());
            proof {
                assert(texts_of(out@) =~= texts_of(before).push(infos@[i as int].symbol@));
            }
        }
        i = i + 1;
    }
    proof {
        assert(infos@.take(i as int) =~= infos@);
    }
    sort_strings(&mut out);
    out
}

/// The candle that two decimal texts stand for, if both are decimals.
pub open spec fn kline_of(high: Seq<char>, low: Seq<char>) -> Option<Kline> {
    match (parsed(high), parsed(low)) {
        (Some(h), Some(l)) => Some(Kline { high: h, low: l }),
        _ => None,
    }
}

/// Reads high and low of a candle; `None` unless both are decimals.
pub fn parse_kline(high: &str, low: &str) -> (r: Option<Kline>)
    ensures
        r == kline_of(high@, low@),
{
    match parse_decimal(high) {
        Some(h) => match parse_decimal(low) {
            Some(l) => Some(Kline { high: h, low: l }),
            None => None,
        },
        None => None,
    }
}

} // verus!
