//! REST requests as plain values: what to send, with which headers, and how
//! the venue signs it. The transport that sends them lives outside.
use vstd::prelude::*;
use crate::session::Credentials;
use crate::sign::{canonical_body, canonical_query, is_lower_hex, sign, signature, ParamView, Params};
use crate::text::{decimal, u64_to_decimal};

verus! {

/// The validity window, in milliseconds, that signed Bybit requests carry.
pub const RECV_WINDOW: &'static str = "5000";

/// The timeout of one REST request, in seconds.
pub const REQUEST_TIMEOUT_SECS: u64 = 10;

#[derive(Clone, Copy, PartialEq, Eq, Structural, Debug)]
pub enum HttpMethod {
    Get,
    Post,
}

/// A request ready to send: one attempt, no retry.
pub struct HttpRequest {
    pub method: HttpMethod,
    pub url: String,
    pub headers: Vec<(String, String)>,
    pub body: Option<String>,
}

/// The headers of a request, as texts.
pub open spec fn header_texts(h: Seq<(String, String)>) -> Seq<(Seq<char>, Seq<char>)> {
    h.map_values(|p: (String, String)| (p.0@, p.1@))
}

/// The authentication headers of a signed request.
pub open spec fn auth_headers(api_key: Seq<char>, sig: Seq<char>, timestamp: Seq<char>) -> Seq<(Seq<char>, Seq<char>)> {
    seq![
        ("X-BAPI-API-KEY"@, api_key),
        ("X-BAPI-SIGN"@, sig),
        ("X-BAPI-SIGN-TYPE"@, "2"@),
        ("X-BAPI-TIMESTAMP"@, timestamp),
        ("X-BAPI-RECV-WINDOW"@, RECV_WINDOW@),
        ("Content-Type"@, "application/json"@),
    ]
}

fn auth_header_list(api_key: &str, sig: &str, timestamp: &str) -> (r: Vec<(String, String)>)
    ensures
        header_texts(r@) == auth_headers(api_key@, sig@, timestamp@),
{
    let mut h: Vec<(String, String)> = Vec::new();
    h.push(("X-BAPI-API-KEY".to_owned(), api_key.to_owned()));
    h.push(("X-BAPI-SIGN".to_owned(), sig.to_owned()));
    h.push(("X-BAPI-SIGN-TYPE".to_owned(), "2".to_owned()));
    h.push(("X-BAPI-TIMESTAMP".to_owned(), timestamp.to_owned()));
    h.push(("X-BAPI-RECV-WINDOW".to_owned(), RECV_WINDOW.to_owned()));
    h.push(("Content-Type".to_owned(), "application/json".to_owned()));
    assert(header_texts(h@) =~= auth_headers(api_key@, sig@, timestamp@));
    h
}

/// `host/endpoint`.
pub open spec fn endpoint_url(host: Seq<char>, endpoint: Seq<char>) -> Seq<char> {
    host + "/"@ + endpoint
}

fn join_url(host: &str, endpoint: &str) -> (r: String)
    ensures
        r@ == endpoint_url(host@, endpoint@),
{
    let mut url = host.to_owned();
    url.append("/");
    url.append(endpoint);
    url
}

/// The Bybit REST client's own part: credentials, the host, and the
/// request shapes of each operation.
pub struct BybitRest {
    pub creds: Credentials,
    pub host: String,
}

/// The timestamp text of a request signed at `ts` milliseconds.
pub open spec fn ts_text(ts: u64) -> Seq<char> {
    decimal(ts as nat)
}

/// `r` is the GET request of `rest` for `endpoint` with parameters `ps`,
/// signed at `auth_ts` when that is given.
pub open spec fn is_get(rest: &BybitRest, endpoint: Seq<char>, ps: Seq<(Seq<char>, ParamView)>, auth_ts: Option<u64>, r: &HttpRequest) -> bool {
    &&& r.method == HttpMethod::Get
    &&& r.url@ == endpoint_url(rest.host@, endpoint) + "?"@ + canonical_query(ps)
    &&& r.body is None
    &&& auth_ts is None ==> r.headers@.len() == 0
    &&& auth_ts is Some ==> header_texts(r.headers@) == auth_headers(
        rest.creds.api_key@,
        signature(rest.creds.api_secret@, ts_text(auth_ts->Some_0) + rest.creds.api_key@ + RECV_WINDOW@ + canonical_query(ps)),
        ts_text(auth_ts->Some_0),
    )
    &&& auth_ts is Some ==> hex_signature(signature(
        rest.creds.api_secret@,
        ts_text(auth_ts->Some_0) + rest.creds.api_key@ + RECV_WINDOW@ + canonical_query(ps),
    ))
}

/// A signature as sent: 64 lower-case hexadecimal digits.
pub open spec fn hex_signature(s: Seq<char>) -> bool {
    s.len() == 64 && is_lower_hex(s)
}

/// `r` is the POST request of `rest` for `endpoint` with body parameters
/// `ps`, signed at `ts`.
pub open spec fn is_post(rest: &BybitRest, endpoint: Seq<char>, ps: Seq<(Seq<char>, ParamView)>, ts: u64, r: &HttpRequest) -> bool {
    &&& r.method == HttpMethod::Post
    &&& r.url@ == endpoint_url(rest.host@, endpoint)
    &&& r.body is Some && r.body->Some_0@ == canonical_body(ps)
    &&& header_texts(r.headers@) == auth_headers(
        rest.creds.api_key@,
        signature(rest.creds.api_secret@, ts_text(ts) + rest.creds.api_key@ + RECV_WINDOW@ + canonical_body(ps)),
        ts_text(ts),
    )
    &&& hex_signature(signature(rest.creds.api_secret@, ts_text(ts) + rest.creds.api_key@ + RECV_WINDOW@ + canonical_body(ps)))
}

impl BybitRest {
    pub fn new(creds: Credentials, host: String) -> (r: BybitRest)
        ensures
            r.creds == creds,
            r.host == host,
    {
        BybitRest { creds, host }
    }

    /// A GET request: the canonical query after `?`; when `auth_ts` is given,
    /// signed over that query at that time.
    pub fn get_request(&self, endpoint: &str, params: &Params, auth_ts: Option<u64>) -> (r: HttpRequest)
        requires
            params.wf(),
        ensures
            is_get(self, endpoint@, params@, auth_ts, &r),
    {
        let query = params.canonical_query();
        let mut url = join_url(self.host.as_str(), endpoint);
        url.append("?");
        url.append(query.as_str());
        let headers = match auth_ts {
            Some(ts) => {
                let stamp = u64_to_decimal(ts);
                let sig = sign(
                    self.creds.api_secret.as_str(),
                    stamp.as_str(),
                    self.creds.api_key.as_str(),
                    RECV_WINDOW,
                    query.as_str(),
                );
                auth_header_list(self.creds.api_key.as_str(), sig.as_str(), stamp.as_str())
            },
            None => Vec::new(),
        };
        HttpRequest { method: HttpMethod::Get, url, headers, body: None }
    }

    /// A signed POST request whose body is the canonical JSON of the parameters.
    pub fn post_request(&self, endpoint: &str, params: &Params, ts: u64) -> (r: HttpRequest)
        requires
            params.wf(),
        ensures
            is_post(self, endpoint@, params@, ts, &r),
    {
        let body = params.canonical_body();
        let url = join_url(self.host.as_str(), endpoint);
        let stamp = u64_to_decimal(ts);
        let sig = sign(
            self.creds.api_secret.as_str(),
            stamp.as_str(),
            self.creds.api_key.as_str(),
            RECV_WINDOW,
            body.as_str(),
        );
        let headers = auth_header_list(self.creds.api_key.as_str(), sig.as_str(), stamp.as_str());
        HttpRequest { method: HttpMethod::Post, url, headers, body: Some(body) }
    }
}

/// The Binance REST client's own part: credentials and the host.
pub struct BinanceRest {
    pub creds: Credentials,
    pub host: String,
}

impl BinanceRest {
    pub fn new(creds: Credentials, host: String) -> (r: BinanceRest)
        ensures
            r.creds == creds,
            r.host == host,
    {
        BinanceRest { creds, host }
    }

    /// An unsigned GET request: the canonical query after `?`, or no `?`
    /// when there are no parameters.
    pub fn get_request(&self, endpoint: &str, params: &Params) -> (r: HttpRequest)
        requires
            params.wf(),
        ensures
            r.method == HttpMethod::Get,
            params@.len() == 0 ==> r.url@ == endpoint_url(self.host@, endpoint@),
            params@.len() > 0 ==> r.url@ == endpoint_url(self.host@, endpoint@) + "?"@ + canonical_query(params@),
            r.body is None,
            r.headers@.len() == 0,
    {
        let mut url = join_url(self.host.as_str(), endpoint);
        if params.len() > 0 {
            let query = params.canonical_query();
            url.append("?");
            url.append(query.as_str());
        }
        HttpRequest { method: HttpMethod::Get, url, headers: Vec::new(), body: None }
    }
}

} // verus!
