//! The error taxonomy shared by the venue adapters.
use vstd::prelude::*;

verus! {

/// A failure of a Bybit request.
pub enum BybitError {
    /// The venue rejected the request with its own code and message.
    ApiError(i64, String),
    /// The response did not have the expected shape; the message holds the
    /// raw text and the cause.
    DeserializeError(String),
    /// The transport failed (timeout, connection reset, DNS, TLS).
    Unknown(String),
}

/// A failure of a Binance request.
pub enum BinanceError {
    /// The venue rejected the request with its own code and message.
    ApiError(i64, String),
    /// The response did not have the expected shape; the message holds the
    /// raw text and the cause.
    DeserializeError(String),
    /// The transport failed (timeout, connection reset, DNS, TLS).
    Unknown(String),
}

/// `m` begins with the raw text `raw`, then `": "`, then a cause.
pub open spec fn reports_raw(m: Seq<char>, raw: Seq<char>) -> bool {
    m.len() >= raw.len() + 2 && m.subrange(0, raw.len() as int) == raw
        && m[raw.len() as int] == ':' && m[raw.len() as int + 1] == ' '
}

/// The message of a deserialization failure: the raw text, `": "`, the cause.
pub fn raw_and_cause(raw: &str, cause: &str) -> (r: String)
    ensures
        r@ == raw@ + seq![':', ' '] + cause@,
        reports_raw(r@, raw@),
{
    let mut m = raw.to_owned();
    crate::text::push_char(&mut m, ':');
    crate::text::push_char(&mut m, ' ');
    m.append(cause);
    let ghost full = raw@ + seq![':', ' '] + cause@;
    assert(full.subrange(0, raw@.len() as int) =~= raw@);
    assert(full[raw@.len() as int] == ':');
    assert(full[raw@.len() as int + 1] == ' ');
    m
}

impl BybitError {
    /// A description of the failure, with its code where the venue gave one.
    pub fn describe(&self) -> (r: String)
        ensures
            self matches BybitError::DeserializeError(m) ==> r@ == m@,
            self matches BybitError::Unknown(m) ==> r@ == m@,
            self matches BybitError::ApiError(c, m) ==> r@ == api_text(*c, m@),
    {
        match self {
            BybitError::ApiError(code, msg) => describe_api(*code, msg.as_str()),
            BybitError::DeserializeError(m) => m.clone(),
            BybitError::Unknown(m) => m.clone(),
        }
    }
}

impl BinanceError {
    /// A description of the failure, with its code where the venue gave one.
    pub fn describe(&self) -> (r: String)
        ensures
            self matches BinanceError::DeserializeError(m) ==> r@ == m@,
            self matches BinanceError::Unknown(m) ==> r@ == m@,
            self matches BinanceError::ApiError(c, m) ==> r@ == api_text(*c, m@),
    {
        match self {
            BinanceError::ApiError(code, msg) => describe_api(*code, msg.as_str()),
            BinanceError::DeserializeError(m) => m.clone(),
            BinanceError::Unknown(m) => m.clone(),
        }
    }
}

/// `code <n>: <message>`, with the code's sign.
pub open spec fn api_text(code: i64, msg: Seq<char>) -> Seq<char> {
    seq!['c', 'o', 'd', 'e', ' ']
        + (if code < 0 { seq!['-'] } else { Seq::empty() })
        + crate::text::decimal(if code < 0 { (-(code as int)) as nat } else { code as nat })
        + seq![':', ' '] + msg
}

fn describe_api(code: i64, msg: &str) -> (r: String)
    ensures
        r@ == api_text(code, msg@),
{
    let mut out = String::new();
    out.append("code ");
    proof { reveal_strlit("code "); }
    let magnitude: u64 = if code < 0 {
        crate::text::push_char(&mut out, '-');
        (-(code as i128)) as u64
    } else {
        code as u64
    };
    crate::text::push_decimal(&mut out, magnitude);
    crate::text::push_char(&mut out, ':');
    crate::text::push_char(&mut out, ' ');
    out.append(msg);
    assert(out@ =~= api_text(code, msg@));
    out
}

} // verus!
