//! Turning raw response bodies into payloads or typed errors.
use vstd::prelude::*;
use crate::errors::{raw_and_cause, reports_raw, BybitError};
use crate::json::{
    error_text, get_member, i64_member, int_member, json_of, json_parse, member, parse_value,
    str_member, text_member, Json,
};
use crate::text::{decimal, push_char, push_decimal};

verus! {

/// Where an enveloped response keeps its status code, message and payload.
pub struct EnvelopeLayout {
    pub code: String,
    pub message: String,
    pub payload: String,
}

impl EnvelopeLayout {
    /// Bybit's layout: `retCode`, `retMsg`, `result`.
    pub fn bybit() -> (r: EnvelopeLayout)
        ensures
            r.code@ == "retCode"@,
            r.message@ == "retMsg"@,
            r.payload@ == "result"@,
    {
        EnvelopeLayout {
            code: "retCode".to_owned(),
            message: "retMsg".to_owned(),
            payload: "result".to_owned(),
        }
    }

    /// A layout with the given member names.
    pub fn new(code: &str, message: &str, payload: &str) -> (r: EnvelopeLayout)
        ensures
            r.code@ == code@,
            r.message@ == message@,
            r.payload@ == payload@,
    {
        EnvelopeLayout { code: code.to_owned(), message: message.to_owned(), payload: payload.to_owned() }
    }
}

/// What an enveloped body says.
pub enum Outcome {
    /// Not JSON, or not an envelope of the layout.
    Malformed,
    /// A nonzero code with its message.
    Rejected(i64, Seq<char>),
    /// Code zero with its payload.
    Accepted(Json),
}

/// Reads an enveloped body: a nonzero code yields the code and message and
/// leaves the payload unread; code zero yields the payload.
pub open spec fn envelope_outcome(code_key: Seq<char>, msg_key: Seq<char>, payload_key: Seq<char>, body: Seq<char>) -> Outcome {
    match json_parse(body) {
        None => Outcome::Malformed,
        Some(j) => match int_member(j, code_key) {
            None => Outcome::Malformed,
            Some(code) => if code != 0 {
                match str_member(j, msg_key) {
                    Some(m) => Outcome::Rejected(code, m),
                    None => Outcome::Malformed,
                }
            } else {
                match member(j, payload_key) {
                    Some(p) => Outcome::Accepted(p),
                    None => Outcome::Malformed,
                }
            },
        },
    }
}

/// What a Bybit body says.
pub open spec fn bybit_outcome(body: Seq<char>) -> Outcome {
    envelope_outcome("retCode"@, "retMsg"@, "result"@, body)
}

/// A rejection does not read the payload: two envelopes that differ only in
/// their payload member are rejected alike, and a decoding of a rejected
/// body yields the venue's code and message whatever the payload decoder.
pub proof fn lemma_rejection_ignores_payload(
    code_key: Seq<char>,
    msg_key: Seq<char>,
    payload_key: Seq<char>,
    a: Seq<char>,
    b: Seq<char>,
    ma: Map<Seq<char>, Json>,
    mb: Map<Seq<char>, Json>,
)
    requires
        json_parse(a) == Some(Json::Obj(ma)),
        json_parse(b) == Some(Json::Obj(mb)),
        ma.remove(payload_key) == mb.remove(payload_key),
        code_key != payload_key,
        msg_key != payload_key,
        envelope_outcome(code_key, msg_key, payload_key, a) is Rejected,
    ensures
        envelope_outcome(code_key, msg_key, payload_key, b) == envelope_outcome(code_key, msg_key, payload_key, a),
{
    assert(ma.contains_key(code_key) == ma.remove(payload_key).contains_key(code_key));
    assert(mb.contains_key(code_key) == mb.remove(payload_key).contains_key(code_key));
    assert(ma.contains_key(msg_key) == ma.remove(payload_key).contains_key(msg_key));
    assert(mb.contains_key(msg_key) == mb.remove(payload_key).contains_key(msg_key));
    if ma.contains_key(code_key) {
        assert(ma[code_key] == ma.remove(payload_key)[code_key]);
        assert(mb[code_key] == mb.remove(payload_key)[code_key]);
    }
    if ma.contains_key(msg_key) {
        assert(ma[msg_key] == ma.remove(payload_key)[msg_key]);
        assert(mb[msg_key] == mb.remove(payload_key)[msg_key]);
    }
}

/// `r` is what decoding `body` with outcome `o` returns.
pub open spec fn decoded_as(o: Outcome, body: Seq<char>, r: Result<serde_json::Value, BybitError>) -> bool {
    match o {
        Outcome::Malformed => r is Err && is_deserialize_error(r->Err_0, body),
        Outcome::Rejected(c, m) => r is Err && is_api_error(r->Err_0, c, m),
        Outcome::Accepted(p) => r is Ok && json_of(r->Ok_0) == p,
    }
}

pub open spec fn is_deserialize_error(e: BybitError, raw: Seq<char>) -> bool {
    e matches BybitError::DeserializeError(m) && reports_raw(m@, raw)
}

pub open spec fn is_api_error(e: BybitError, code: i64, msg: Seq<char>) -> bool {
    e matches BybitError::ApiError(c, m) && c == code && m@ == msg
}

/// Decodes an enveloped body into its payload or the venue's rejection.
pub fn decode_envelope(layout: &EnvelopeLayout, body: &str) -> (r: Result<serde_json::Value, BybitError>)
    ensures
        decoded_as(envelope_outcome(layout.code@, layout.message@, layout.payload@, body@), body@, r),
{
    let doc = match parse_value(body) {
        Ok(d) => d,
        Err(e) => {
            let cause = error_text(&e);
            return Err(BybitError::DeserializeError(raw_and_cause(body, cause.as_str())));
        },
    };
    let code = match i64_member(&doc, layout.code.as_str()) {
        Some(c) => c,
        None => {
            return Err(BybitError::DeserializeError(raw_and_cause(body, "no integer status code")));
        },
    };
    if code != 0 {
        match text_member(&doc, layout.message.as_str()) {
            Some(m) => Err(BybitError::ApiError(code, m)),
            None => Err(BybitError::DeserializeError(raw_and_cause(body, "no text message"))),
        }
    } else {
        match get_member(&doc, layout.payload.as_str()) {
            Some(p) => Ok(p.clone()),
            None => Err(BybitError::DeserializeError(raw_and_cause(body, "no payload"))),
        }
    }
}

/// A status in the 2xx range.
pub open spec fn http_success(status: u16) -> bool {
    200 <= status < 300
}

/// The detail of a transport-level failure: `HTTP <status>: <body>`.
pub open spec fn transport_detail(status: u16, body: Seq<char>) -> Seq<char> {
    seq!['H', 'T', 'T', 'P', ' '] + decimal(status as nat) + seq![':', ' '] + body
}

/// `HTTP <status>: <body>`.
pub fn transport_detail_text(status: u16, body: &str) -> (r: String)
    ensures
        r@ == transport_detail(status, body@),
{
    let mut out = String::new();
    out.append("HTTP ");
    proof { reveal_strlit("HTTP "); }
    push_decimal(&mut out, status as u64);
    push_char(&mut out, ':');
    push_char(&mut out, ' ');
    out.append(body);
    assert(out@ =~= transport_detail(status, body@));
    out
}

/// Decodes a Bybit response: a failing status whose body is not JSON is a
/// transport failure; any other body is read as an envelope.
pub fn finish_bybit(status: u16, body: &str) -> (r: Result<serde_json::Value, BybitError>)
    ensures
        !http_success(status) && json_parse(body@) is None
            ==> (r matches Err(BybitError::Unknown(d)) && d@ == transport_detail(status, body@)),
        http_success(status) || json_parse(body@) is Some
            ==> decoded_as(bybit_outcome(body@), body@, r),
{
    let ok = 200 <= status && status < 300;
    if !ok {
        if parse_value(body).is_err() {
            return Err(BybitError::Unknown(transport_detail_text(status, body)));
        }
    }
    let layout = EnvelopeLayout::bybit();
    decode_envelope(&layout, body)
}

} // verus!
