//! OKX REST API: credentials, HMAC-SHA256 request signing, the requests the
//! portfolio poller and the force-recall path send, and how an order reply
//! is judged. The application performs the HTTP exchange.

use vstd::prelude::*;
use crate::bridge::{
    base64_encode, base64_of, format_iso_millis, hmac_sha256, hmac_sha256_of, iso_millis_text, json_quote,
    json_quoted,
};
use crate::text::{cents_of, fixed2_text, push_fixed2, cents};
use crate::types::AppError;

verus! {

/// The OKX REST endpoint.
pub const OKX_BASE_URL: &'static str = "https://www.okx.com";

/// OKX REST API credentials.
#[derive(Debug)]
pub struct OkxCredentials {
    pub api_key: String,
    pub secret_key: String,
    pub passphrase: String,
}

impl Clone for OkxCredentials {
    fn clone(&self) -> (r: Self)
        ensures
            r == *self,
    {
        OkxCredentials {
            api_key: self.api_key.clone(),
            secret_key: self.secret_key.clone(),
            passphrase: self.passphrase.clone(),
        }
    }
}

/// Whether an optional text is present and not empty.
pub open spec fn given(v: Option<String>) -> bool {
    v matches Some(s) && s@.len() > 0
}

impl OkxCredentials {
    /// Credentials from their three parts; `None` unless all three are
    /// present and not empty.
    pub fn from_parts(api_key: Option<String>, secret_key: Option<String>, passphrase: Option<String>) -> (r: Option<OkxCredentials>)
        ensures
            r is Some <==> given(api_key) && given(secret_key) && given(passphrase),
            r matches Some(c) ==> Some(c.api_key) == api_key && Some(c.secret_key) == secret_key
                && Some(c.passphrase) == passphrase,
    {
        match (api_key, secret_key, passphrase) {
            (Some(api_key), Some(secret_key), Some(passphrase)) => {
                if api_key.unicode_len() == 0 || secret_key.unicode_len() == 0 || passphrase.unicode_len() == 0 {
                    None
                } else {
                    Some(OkxCredentials { api_key, secret_key, passphrase })
                }
            },
            _ => None,
        }
    }
}

/// The text an OKX request signature covers: timestamp, method, path and
/// body, concatenated.
pub open spec fn prehash(timestamp: Seq<char>, method: Seq<char>, path: Seq<char>, body: Seq<char>) -> Seq<char> {
    timestamp + method + path + body
}

/// The OKX signature of a request: base64 of the HMAC-SHA256 of the prehash
/// text under the secret key.
pub open spec fn okx_signature_of(secret: Seq<char>, timestamp: Seq<char>, method: Seq<char>, path: Seq<char>, body: Seq<char>) -> Seq<char> {
    base64_of(hmac_sha256_of(secret, prehash(timestamp, method, path, body)))
}

/// Sign an OKX request (see [`okx_signature_of`]). A key the MAC refused
/// would be reported as an `OkxError`; HMAC-SHA256 accepts every key.
pub fn okx_signature(secret: &str, timestamp: &str, method: &str, path: &str, body: &str) -> (r: Result<String, AppError>)
    ensures
        r matches Ok(s) && s@ == okx_signature_of(secret@, timestamp@, method@, path@, body@),
{
    let mut text = String::from_str(timestamp);
    text.append(method);
    text.append(path);
    text.append(body);
    match hmac_sha256(secret, text.as_str()) {
        Ok(mac) => Ok(base64_encode(mac.as_slice())),
        Err(e) => {
            let mut m = String::from_str("HMAC key error: ");
            m.append(e.as_str());
            Err(AppError::OkxError(m))
        },
    }
}

/// A signed OKX request, ready to send.
#[derive(Debug)]
pub struct OkxRequest {
    /// `GET` or `POST`.
    pub method: String,
    pub url: String,
    /// Header names and values, in order.
    pub headers: Vec<(String, String)>,
    /// The body (empty for `GET`).
    pub body: String,
}

/// Whether `r` is the request for `method` on `path` with `body`, signed at
/// `timestamp` with `c`: the endpoint URL, the four `OK-ACCESS-*` headers and
/// a JSON content type.
pub open spec fn signed_request(
    r: OkxRequest,
    c: OkxCredentials,
    timestamp: Seq<char>,
    method: Seq<char>,
    path: Seq<char>,
    body: Seq<char>,
) -> bool {
    &&& r.method@ == method
    &&& r.url@ == OKX_BASE_URL@ + path
    &&& r.body@ == body
    &&& r.headers@.len() == 5
    &&& r.headers@[0].0@ == "OK-ACCESS-KEY"@ && r.headers@[0].1@ == c.api_key@
    &&& r.headers@[1].0@ == "OK-ACCESS-SIGN"@
        && r.headers@[1].1@ == okx_signature_of(c.secret_key@, timestamp, method, path, body)
    &&& r.headers@[2].0@ == "OK-ACCESS-TIMESTAMP"@ && r.headers@[2].1@ == timestamp
    &&& r.headers@[3].0@ == "OK-ACCESS-PASSPHRASE"@ && r.headers@[3].1@ == c.passphrase@
    &&& r.headers@[4].0@ == "Content-Type"@ && r.headers@[4].1@ == "application/json"@
}

/// The request timestamp OKX expects for an instant: ISO 8601 in UTC with
/// milliseconds.
pub fn request_timestamp(now_ms: i64) -> (r: Option<String>)
    ensures
        match r { Some(t) => iso_millis_text(now_ms) == Some(t@), None => iso_millis_text(now_ms) is None },
{
    format_iso_millis(now_ms)
}

fn header(name: &str, value: &str) -> (r: (String, String))
    ensures
        r.0@ == name@,
        r.1@ == value@,
{
    (String::from_str(name), String::from_str(value))
}

/// Sign and assemble a request (see [`signed_request`]).
pub fn sign_request(c: &OkxCredentials, timestamp: &str, method: &str, path: &str, body: String) -> (r: Result<OkxRequest, AppError>)
    ensures
        r matches Ok(q) && signed_request(q, *c, timestamp@, method@, path@, body@),
{
    let sign = match okx_signature(c.secret_key.as_str(), timestamp, method, path, body.as_str()) {
        Ok(s) => s,
        Err(e) => {
            return Err(e);
        },
    };
    let mut url = String::from_str(OKX_BASE_URL);
    url.append(path);
    let headers = vec![
        header("OK-ACCESS-KEY", c.api_key.as_str()),
        header("OK-ACCESS-SIGN", sign.as_str()),
        header("OK-ACCESS-TIMESTAMP", timestamp),
        header("OK-ACCESS-PASSPHRASE", c.passphrase.as_str()),
        header("Content-Type", "application/json"),
    ];
    Ok(OkxRequest { method: String::from_str(method), url, headers, body })
}

/// The body cancelling every pending order of an instrument.
pub open spec fn cancel_body(inst_id: Seq<char>) -> Seq<char> {
    "[{\"instId\":"@ + json_quoted(inst_id) + "}]"@
}

/// The body of a spot market order spending `amount_usd` micro-dollars of the
/// quote currency, shown with two decimals (keys in the order `serde_json`
/// writes them).
pub open spec fn order_body(inst_id: Seq<char>, side: Seq<char>, amount_usd: u64) -> Seq<char> {
    "{\"instId\":"@ + json_quoted(inst_id) + ",\"ordType\":\"market\",\"side\":"@ + json_quoted(side)
        + ",\"sz\":\""@ + fixed2_text(cents_of(amount_usd as nat))
        + "\",\"tdMode\":\"cash\",\"tgtCcy\":\"quote_ccy\"}"@
}

/// OKX REST client: builds the signed requests the application sends.
/// Without credentials every call is simulated: the balances are simulated,
/// positions are empty, cancelling is skipped, and orders are simulated
/// without any request being built.
pub struct OkxRestClient {
    credentials: Option<OkxCredentials>,
}

impl OkxRestClient {
    /// The credentials the client signs with, if any.
    pub closed spec fn creds(&self) -> Option<OkxCredentials> {
        self.credentials
    }

    /// A client signing with `credentials` (simulating without them).
    pub fn with_credentials(credentials: Option<OkxCredentials>) -> (r: OkxRestClient)
        ensures
            r.creds() == credentials,
    {
        OkxRestClient { credentials }
    }

    /// Whether the client has credentials.
    pub fn has_credentials(&self) -> (r: bool)
        ensures
            r == self.creds() is Some,
    {
        self.credentials.is_some()
    }

    /// The signed `GET /api/v5/account/balance` request at `timestamp`; `None`
    /// without credentials (the balances are then simulated).
    pub fn balance_request(&self, timestamp: &str) -> (r: Option<OkxRequest>)
        ensures
            match self.creds() {
                None => r is None,
                Some(c) => r matches Some(q)
                    && signed_request(q, c, timestamp@, "GET"@, "/api/v5/account/balance"@, Seq::empty()),
            },
    {
        match &self.credentials {
            None => None,
            Some(c) => match sign_request(c, timestamp, "GET", "/api/v5/account/balance", String::new()) {
                Ok(q) => Some(q),
                Err(_) => None,
            },
        }
    }

    /// The signed `GET /api/v5/account/positions` request at `timestamp`;
    /// `None` without credentials (there are then no positions).
    pub fn positions_request(&self, timestamp: &str) -> (r: Option<OkxRequest>)
        ensures
            match self.creds() {
                None => r is None,
                Some(c) => r matches Some(q)
                    && signed_request(q, c, timestamp@, "GET"@, "/api/v5/account/positions"@, Seq::empty()),
            },
    {
        match &self.credentials {
            None => None,
            Some(c) => match sign_request(c, timestamp, "GET", "/api/v5/account/positions", String::new()) {
                Ok(q) => Some(q),
                Err(_) => None,
            },
        }
    }

    /// The signed request cancelling all pending orders of `inst_id` at
    /// `timestamp`; `None` without credentials (nothing is cancelled).
    pub fn cancel_orders_request(&self, inst_id: &str, timestamp: &str) -> (r: Option<OkxRequest>)
        ensures
            match self.creds() {
                None => r is None,
                Some(c) => r matches Some(q) && signed_request(
                    q,
                    c,
                    timestamp@,
                    "POST"@,
                    "/api/v5/trade/cancel-batch-orders"@,
                    cancel_body(inst_id@),
                ),
            },
    {
        match &self.credentials {
            None => None,
            Some(c) => {
                let mut body = String::from_str("[{\"instId\":");
                body.append(json_quote(inst_id).as_str());
                body.append("}]");
                match sign_request(c, timestamp, "POST", "/api/v5/trade/cancel-batch-orders", body) {
                    Ok(q) => Some(q),
                    Err(_) => None,
                }
            },
        }
    }

    /// The spot market order for `amount_usd` micro-dollars of `inst_id` on
    /// `side`, at `timestamp`: signed with the credentials, or simulated
    /// (no request at all) without them.
    pub fn order_request(&self, inst_id: &str, side: &str, amount_usd: u64, timestamp: &str) -> (r: Result<OkxOrder, AppError>)
        ensures
            match self.creds() {
                None => r matches Ok(OkxOrder::Simulated { inst_id: i, side: d, size: z })
                    && i@ == inst_id@ && d@ == side@ && z@ == fixed2_text(cents_of(amount_usd as nat)),
                Some(c) => r matches Ok(OkxOrder::Signed(q)) && signed_request(
                    q,
                    c,
                    timestamp@,
                    "POST"@,
                    "/api/v5/trade/order"@,
                    order_body(inst_id@, side@, amount_usd),
                ),
            },
    {
        match &self.credentials {
            None => {
                let mut size = String::new();
                push_fixed2(&mut size, cents(amount_usd));
                proof {
                    assert(size@ =~= fixed2_text(cents_of(amount_usd as nat)));
                }
                Ok(OkxOrder::Simulated { inst_id: String::from_str(inst_id), side: String::from_str(side), size })
            },
            Some(c) => {
                let mut body = String::from_str("{\"instId\":");
                body.append(json_quote(inst_id).as_str());
                body.append(",\"ordType\":\"market\",\"side\":");
                body.append(json_quote(side).as_str());
                body.append(",\"sz\":\"");
                push_fixed2(&mut body, cents(amount_usd));
                body.append("\",\"tdMode\":\"cash\",\"tgtCcy\":\"quote_ccy\"}");
                match sign_request(c, timestamp, "POST", "/api/v5/trade/order", body) {
                    Ok(q) => Ok(OkxOrder::Signed(q)),
                    Err(e) => Err(e),
                }
            },
        }
    }
}

/// A market order: the signed request to send, or, without credentials, the
/// simulated order (instrument, side and size with two decimals) that stands
/// for it.
#[derive(Debug)]
pub enum OkxOrder {
    Signed(OkxRequest),
    Simulated { inst_id: String, side: String, size: String },
}

/// The verdict on an order reply from its `code`, `msg` and first `sMsg`:
/// accepted only with code `0`; otherwise an `OkxError` quoting all three (a
/// missing code reads `?`, missing texts read empty).
pub open spec fn order_reply_error(code: Option<String>, msg: Option<String>, detail: Option<String>) -> Option<Seq<char>> {
    let c = match code { Some(t) => t@, None => "?"@ };
    if c == "0"@ {
        None
    } else {
        let m = match msg { Some(t) => t@, None => Seq::empty() };
        let d = match detail { Some(t) => t@, None => Seq::empty() };
        Some("OKX order failed: code="@ + c + " msg="@ + m + " detail="@ + d)
    }
}

/// Judge an order reply (see [`order_reply_error`]).
pub fn order_outcome(code: Option<String>, msg: Option<String>, detail: Option<String>) -> (r: Result<(), AppError>)
    ensures
        match order_reply_error(code, msg, detail) {
            None => r is Ok,
            Some(e) => r matches Err(AppError::OkxError(m)) && m@ == e,
        },
{
    let c = match code {
        Some(t) => t,
        None => String::from_str("?"),
    };
    if c == String::from_str("0") {
        return Ok(());
    }
    let mut m = String::from_str("OKX order failed: code=");
    m.append(c.as_str());
    m.append(" msg=");
    match msg {
        Some(t) => m.append(t.as_str()),
        None => {},
    }
    m.append(" detail=");
    match detail {
        Some(t) => m.append(t.as_str()),
        None => {},
    }
    Err(AppError::OkxError(m))
}

/// An open OKX position, for P&L tracking.
#[derive(Debug)]
pub struct OkxPosition {
    pub inst_id: String,
    /// Unrealized P&L, micro-dollars (negative for a loss).
    pub unrealized_pnl: i64,
    /// Notional value, micro-dollars.
    pub notional_usd: i64,
}

impl Clone for OkxPosition {
    fn clone(&self) -> (r: Self)
        ensures
            r == *self,
    {
        OkxPosition { inst_id: self.inst_id.clone(), unrealized_pnl: self.unrealized_pnl, notional_usd: self.notional_usd }
    }
}

} // verus!
