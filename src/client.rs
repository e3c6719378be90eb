//! The API client: credentials, the calibrated clock offset, and the request
//! that each endpoint makes.

use crate::clock::{apply_offset, calibrate, fits_i64, offset_of};
use crate::error::Error;
use crate::query::{canonical, decimal, decimal_of, join_pairs, pair_text, pairs_of, Param};
use crate::signature::{is_lower_hex_char, signature, signature_of};
use vstd::prelude::*;
use vstd::string::StringExecFns;

verus! {

/// The origin that every request goes to.
pub const BASE_URL: &'static str = "https://api.binance.com";

/// The HTTP header that carries the API key of a signed request.
pub const API_KEY_HEADER: &'static str = "X-MBX-APIKEY";

/// The HTTP method of a request.
#[derive(Clone, Copy, Debug, PartialEq, Eq, Structural)]
pub enum Method {
    Get,
    Post,
    Delete,
}

/// A request ready for the transport: its method, its absolute URL, and the
/// API key to send in the authentication header, if it is signed.
#[derive(Clone, Debug)]
pub struct Request {
    pub method: Method,
    pub url: String,
    pub api_key: Option<String>,
}

/// The credentials of a client: none, or both keys.
#[derive(Clone, Debug)]
pub enum Credentials {
    Unauthenticated,
    Authenticated { api_key: String, secret_key: String },
}

/// The query of a signed endpoint: its own parameters in their declared order,
/// and the timestamp that the caller declares for it, in milliseconds.
#[derive(Clone, Debug)]
pub struct SignedQuery {
    pub params: Vec<Param>,
    pub timestamp: i64,
}

/// The canonical string of a signed query: its parameters, then the
/// `timestamp` pair.
pub open spec fn signed_text_of(pairs: Seq<(Seq<char>, Seq<char>)>, timestamp: int) -> Seq<char> {
    join_pairs(pairs.push(("timestamp"@, decimal_of(timestamp))))
}

/// The path and query of a signed call: the canonical string with the
/// signature of that string appended as the last pair.
pub open spec fn signed_target_of(
    path: Seq<char>,
    pairs: Seq<(Seq<char>, Seq<char>)>,
    timestamp: int,
    secret_key: Seq<char>,
) -> Seq<char> {
    let text = signed_text_of(pairs, timestamp);
    path + "?"@ + text + "&signature="@ + signature_of(text, secret_key)
}

/// Whether `req` is the request `method` to `target` on the base origin,
/// sent with `api_key` in the authentication header when it is `Some`.
pub open spec fn is_request(req: Request, method: Method, target: Seq<char>, api_key: Option<Seq<char>>) -> bool {
    &&& req.method == method
    &&& req.url@ == BASE_URL@ + target
    &&& match api_key {
        None => req.api_key is None,
        Some(k) => req.api_key matches Some(a) && a@ == k,
    }
}

/// The client of the exchange's REST API.
#[derive(Clone, Debug)]
pub struct Client {
    credentials: Credentials,
    timestamp_offset: i64,
}

impl Client {
    /// The API key and secret key, when the client has them.
    pub closed spec fn keys(&self) -> Option<(Seq<char>, Seq<char>)> {
        match self.credentials {
            Credentials::Unauthenticated => None,
            Credentials::Authenticated { api_key, secret_key } => Some((api_key@, secret_key@)),
        }
    }

    /// The calibrated timestamp offset, in milliseconds.
    pub closed spec fn offset(&self) -> int {
        self.timestamp_offset as int
    }

    /// What a signed call to `path` with `query` gives: without credentials,
    /// the missing-keys error; when the timestamp less the offset is out of
    /// range, that error; otherwise the request with the signed query and the
    /// API key, whose signature is sixty-four lowercase hex digits.
    pub open spec fn signed_outcome(
        &self,
        r: Result<Request, Error>,
        method: Method,
        path: Seq<char>,
        query: SignedQuery,
    ) -> bool {
        match self.keys() {
            None => r matches Err(Error::AuthorizationKeysMissing),
            Some((api_key, secret_key)) => {
                let t = query.timestamp - self.offset();
                if !fits_i64(t) {
                    r matches Err(Error::TimestampOutOfRange)
                } else {
                    let text = signed_text_of(pairs_of(query.params@), t);
                    &&& r matches Ok(req)
                    &&& is_request(
                        req,
                        method,
                        signed_target_of(path, pairs_of(query.params@), t, secret_key),
                        Some(api_key),
                    )
                    &&& signature_of(text, secret_key).len() == 64
                    &&& forall|i: int|
                        0 <= i < 64 ==> is_lower_hex_char(#[trigger] signature_of(text, secret_key)[i])
                }
            },
        }
    }

    /// Creates a client without credentials, calibrated from one server-time
    /// call (see `calibrate`). Fails when the offset is out of range.
    pub fn new(local_start_ms: i64, server_time_ms: i64, round_trip_ms: u64) -> (r: Result<Client, Error>)
        ensures
            fits_i64(offset_of(local_start_ms as int, server_time_ms as int, round_trip_ms as int))
                ==> (r matches Ok(c) && c.keys() is None && c.offset() == offset_of(
                local_start_ms as int,
                server_time_ms as int,
                round_trip_ms as int,
            )),
            !fits_i64(offset_of(local_start_ms as int, server_time_ms as int, round_trip_ms as int))
                ==> r matches Err(Error::TimestampOutOfRange),
    {
        match calibrate(local_start_ms, server_time_ms, round_trip_ms) {
            Some(offset) => Ok(Client { credentials: Credentials::Unauthenticated, timestamp_offset: offset }),
            None => Err(Error::TimestampOutOfRange),
        }
    }

    /// Creates a client with both keys, calibrated as `new` is.
    pub fn new_with_auth(
        api_key: String,
        secret_key: String,
        local_start_ms: i64,
        server_time_ms: i64,
        round_trip_ms: u64,
    ) -> (r: Result<Client, Error>)
        ensures
            fits_i64(offset_of(local_start_ms as int, server_time_ms as int, round_trip_ms as int))
                ==> (r matches Ok(c) && c.keys() == Some((api_key@, secret_key@)) && c.offset()
                == offset_of(local_start_ms as int, server_time_ms as int, round_trip_ms as int)),
            !fits_i64(offset_of(local_start_ms as int, server_time_ms as int, round_trip_ms as int))
                ==> r matches Err(Error::TimestampOutOfRange),
    {
        match calibrate(local_start_ms, server_time_ms, round_trip_ms) {
            Some(offset) => Ok(
                Client {
                    credentials: Credentials::Authenticated { api_key, secret_key },
                    timestamp_offset: offset,
                },
            ),
            None => Err(Error::TimestampOutOfRange),
        }
    }

    /// The calibrated timestamp offset, in milliseconds.
    pub fn timestamp_offset(&self) -> (r: i64)
        ensures
            r == self.offset(),
    {
        self.timestamp_offset
    }

    /// Whether the client holds both keys.
    pub fn is_authenticated(&self) -> (r: bool)
        ensures
            r == self.keys() is Some,
    {
        match self.credentials {
            Credentials::Unauthenticated => false,
            Credentials::Authenticated { .. } => true,
        }
    }

    /// The request for an unsigned call: `url` is the path and query, appended
    /// to the base origin; no authentication header.
    pub fn execute(&self, method: Method, url: String) -> (r: Request)
        ensures
            is_request(r, method, url@, None),
    {
        let mut full = String::from_str(BASE_URL);
        full.append(url.as_str());
        Request { method, url: full, api_key: None }
    }

    /// The request for a signed call whose path and query are already signed:
    /// it adds the API key, and fails without credentials.
    fn execute_signed(&self, method: Method, url: String) -> (r: Result<Request, Error>)
        ensures
            match self.keys() {
                None => r matches Err(Error::AuthorizationKeysMissing),
                Some((api_key, _)) => r matches Ok(req) && is_request(req, method, url@, Some(api_key)),
            },
    {
        match &self.credentials {
            Credentials::Unauthenticated => Err(Error::AuthorizationKeysMissing),
            Credentials::Authenticated { api_key, .. } => {
                let mut full = String::from_str(BASE_URL);
                full.append(url.as_str());
                Ok(Request { method, url: full, api_key: Some(api_key.clone()) })
            },
        }
    }

    /// The signature of a canonical parameter string under a secret key.
    pub fn signature(params: &str, secret_key: &str) -> (r: String)
        ensures
            r@ == signature_of(params@, secret_key@),
            r@.len() == 64,
            forall|i: int| 0 <= i < r@.len() ==> is_lower_hex_char(#[trigger] r@[i]),
    {
        signature(params, secret_key)
    }

    /// The common protocol of the signed endpoints: require the keys, take
    /// the offset off the declared timestamp, sign the canonical string, and
    /// append the signature as the last pair.
    fn signed_call(&self, method: Method, path: &str, request: SignedQuery) -> (r: Result<Request, Error>)
        ensures
            self.signed_outcome(r, method, path@, request),
    {
        let secret_key = match &self.credentials {
            Credentials::Unauthenticated => {
                return Err(Error::AuthorizationKeysMissing);
            },
            Credentials::Authenticated { secret_key, .. } => secret_key,
        };
        let timestamp = match apply_offset(request.timestamp, self.timestamp_offset) {
            Some(t) => t,
            None => {
                return Err(Error::TimestampOutOfRange);
            },
        };
        let params = signed_text(&request.params, timestamp);
        let sig = signature(params.as_str(), secret_key.as_str());
        let mut url = String::from_str(path);
        url.append("?");
        url.append(params.as_str());
        url.append("&signature=");
        url.append(sig.as_str());
        self.execute_signed(method, url)
    }

    /// Test connectivity to the REST API.
    pub fn ping(&self) -> (r: Request)
        ensures
            is_request(r, Method::Get, "/api/v3/ping"@, None),
    {
        self.execute(Method::Get, String::from_str("/api/v3/ping"))
    }

    /// The current server time.
    pub fn time(&self) -> (r: Request)
        ensures
            is_request(r, Method::Get, "/api/v3/time"@, None),
    {
        self.execute(Method::Get, String::from_str("/api/v3/time"))
    }

    /// The exchange's trading rules and symbol information.
    pub fn exchange_info(&self) -> (r: Request)
        ensures
            is_request(r, Method::Get, "/api/v3/exchangeInfo"@, None),
    {
        self.execute(Method::Get, String::from_str("/api/v3/exchangeInfo"))
    }

    /// Kline/candlestick bars for a symbol.
    pub fn klines(&self, request: Vec<Param>) -> (r: Request)
        ensures
            is_request(r, Method::Get, "/api/v3/klines?"@ + join_pairs(pairs_of(request@)), None),
    {
        let mut url = String::from_str("/api/v3/klines?");
        url.append(canonical(&request).as_str());
        self.execute(Method::Get, url)
    }

    /// The market depth of a symbol.
    pub fn depth(&self, request: Vec<Param>) -> (r: Request)
        ensures
            is_request(r, Method::Get, "/api/v3/depth?"@ + join_pairs(pairs_of(request@)), None),
    {
        let mut url = String::from_str("/api/v3/depth?");
        url.append(canonical(&request).as_str());
        self.execute(Method::Get, url)
    }

    /// The best bid and ask of every symbol.
    pub fn depth_ticker(&self) -> (r: Request)
        ensures
            is_request(r, Method::Get, "/api/v3/ticker/bookTicker"@, None),
    {
        self.execute(Method::Get, String::from_str("/api/v3/ticker/bookTicker"))
    }

    /// The account information and balances.
    pub fn account_get(&self, request: SignedQuery) -> (r: Result<Request, Error>)
        ensures
            self.signed_outcome(r, Method::Get, "/api/v3/account"@, request),
    {
        self.signed_call(Method::Get, "/api/v3/account", request)
    }

    /// The account's open orders.
    pub fn open_orders_get(&self, request: SignedQuery) -> (r: Result<Request, Error>)
        ensures
            self.signed_outcome(r, Method::Get, "/api/v3/openOrders"@, request),
    {
        self.signed_call(Method::Get, "/api/v3/openOrders", request)
    }

    /// Cancels the account's open orders.
    pub fn open_orders_delete(&self, request: SignedQuery) -> (r: Result<Request, Error>)
        ensures
            self.signed_outcome(r, Method::Delete, "/api/v3/openOrders"@, request),
    {
        self.signed_call(Method::Delete, "/api/v3/openOrders", request)
    }

    /// The status of an order.
    pub fn order_get(&self, request: SignedQuery) -> (r: Result<Request, Error>)
        ensures
            self.signed_outcome(r, Method::Get, "/api/v3/order"@, request),
    {
        self.signed_call(Method::Get, "/api/v3/order", request)
    }

    /// Sends in a new order.
    pub fn order_post(&self, request: SignedQuery) -> (r: Result<Request, Error>)
        ensures
            self.signed_outcome(r, Method::Post, "/api/v3/order"@, request),
    {
        self.signed_call(Method::Post, "/api/v3/order", request)
    }

    /// Cancels an active order.
    pub fn order_delete(&self, request: SignedQuery) -> (r: Result<Request, Error>)
        ensures
            self.signed_outcome(r, Method::Delete, "/api/v3/order"@, request),
    {
        self.signed_call(Method::Delete, "/api/v3/order", request)
    }

    /// Validates a new order without sending it to the matching engine.
    pub fn order_post_test(&self, request: SignedQuery) -> (r: Result<Request, Error>)
        ensures
            self.signed_outcome(r, Method::Post, "/api/v3/order/test"@, request),
    {
        self.signed_call(Method::Post, "/api/v3/order/test", request)
    }
}

/// The canonical string of a signed query's parameters with `timestamp` as
/// the last pair.
pub fn signed_text(params: &Vec<Param>, timestamp: i64) -> (r: String)
    ensures
        r@ == signed_text_of(pairs_of(params@), timestamp as int),
{
    let mut s = canonical(params);
    let ghost head = s@;
    if params.len() > 0 {
        s.append("&");
    }
    s.append("timestamp");
    s.append("=");
    s.append(decimal(timestamp).as_str());
    proof {
        let ps = pairs_of(params@);
        let last = ("timestamp"@, decimal_of(timestamp as int));
        assert(ps.push(last).drop_last() =~= ps);
        assert(ps.push(last).last() == last);
        if params.len() == 0 {
            assert(head =~= Seq::<char>::empty());
            assert(s@ =~= pair_text(last));
            assert(ps.push(last)[0] == last);
        } else {
            assert(s@ =~= head + "&"@ + pair_text(last));
        }
    }
    s
}

/// In a signed query the `timestamp` pair comes last, after the request's own
/// parameters, and the signed call's path and query end with the signature of
/// exactly that text.
pub proof fn lemma_signed_query_layout(
    path: Seq<char>,
    pairs: Seq<(Seq<char>, Seq<char>)>,
    timestamp: int,
    secret_key: Seq<char>,
)
    ensures
        signed_text_of(pairs, timestamp) == (if pairs.len() == 0 {
            Seq::empty()
        } else {
            join_pairs(pairs) + "&"@
        }) + "timestamp"@ + "="@ + decimal_of(timestamp),
        signed_target_of(path, pairs, timestamp, secret_key) == path + "?"@ + signed_text_of(
            pairs,
            timestamp,
        ) + "&signature="@ + signature_of(signed_text_of(pairs, timestamp), secret_key),
{
    let last = ("timestamp"@, decimal_of(timestamp));
    assert(pairs.push(last).drop_last() =~= pairs);
    assert(pairs.push(last).last() == last);
    if pairs.len() == 0 {
        assert(pairs.push(last)[0] == last);
        assert(signed_text_of(pairs, timestamp) =~= Seq::<char>::empty() + "timestamp"@ + "="@
            + decimal_of(timestamp));
    } else {
        assert(signed_text_of(pairs, timestamp) =~= join_pairs(pairs) + "&"@ + "timestamp"@ + "="@
            + decimal_of(timestamp));
    }
}

} // verus!
