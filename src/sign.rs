//! Request signing: the parameter set, its canonical text forms, and the
//! HMAC-SHA256 signature over them.
use hmac::Mac;
use vstd::prelude::*;
use crate::json::{json_quoted, quote};
use crate::order::{
    arranged, is_arrangement, key_less, key_lt, lemma_arrangement_exists, lemma_is_arranged,
    lemma_key_lt_total, same_entries, unique_keys,
};
use crate::text::{push_char, push_signed, signed_decimal};

verus! {

/// The HMAC-SHA256 tag of a message under a key, both taken as UTF-8.
pub uninterp spec fn hmac_sha256(key: Seq<char>, msg: Seq<char>) -> Seq<u8>;

/// A lower-case hexadecimal digit.
pub open spec fn hex_digit(d: int) -> char {
    if d < 10 {
        crate::text::digit_char(d)
    } else if d == 10 { 'a' }
    else if d == 11 { 'b' }
    else if d == 12 { 'c' }
    else if d == 13 { 'd' }
    else if d == 14 { 'e' }
    else { 'f' }
}

/// Two lower-case hexadecimal digits per byte, high nibble first.
pub open spec fn hex_lower(b: Seq<u8>) -> Seq<char>
    decreases b.len(),
{
    if b.len() == 0 {
        Seq::empty()
    } else {
        hex_lower(b.drop_last()) + seq![hex_digit(b.last() as int / 16), hex_digit(b.last() as int % 16)]
    }
}

/// The signature of a message: its hex-encoded HMAC-SHA256 under the secret.
pub open spec fn signature(secret: Seq<char>, msg: Seq<char>) -> Seq<char> {
    hex_lower(hmac_sha256(secret, msg))
}

/// Relies on `hmac::Hmac<sha2::Sha256>` (`new_from_slice`, `update`,
/// `finalize`): the tag of the message's UTF-8 bytes under the key's.
/// A key of any length is accepted.
#[verifier::external_body]
fn hmac_tag(key: &str, msg: &str) -> (r: Vec<u8>)
    ensures
        r@ == hmac_sha256(key@, msg@),
        r@.len() == 32,
{
    let mut mac = hmac::Hmac::<sha2::Sha256>::new_from_slice(key.as_bytes())
        .expect("HMAC takes a key of any size");
    mac.update(msg.as_bytes());
    mac.finalize().into_bytes().to_vec()
}

/// Relies on `hex::encode`: two lower-case digits per byte.
#[verifier::external_body]
fn to_hex(b: &Vec<u8>) -> (r: String)
    ensures
        r@ == hex_lower(b@),
{
    hex::encode(b)
}

/// Every character is a lower-case hexadecimal digit.
pub open spec fn is_lower_hex(s: Seq<char>) -> bool {
    forall|i: int| 0 <= i < s.len() ==> exists|d: int| 0 <= d < 16 && #[trigger] s[i] == hex_digit(d)
}

/// Hex encoding writes two lower-case digits per byte.
pub proof fn lemma_hex_lower(b: Seq<u8>)
    ensures
        hex_lower(b).len() == 2 * b.len(),
        is_lower_hex(hex_lower(b)),
    decreases b.len(),
{
    if b.len() > 0 {
        lemma_hex_lower(b.drop_last());
        let h = hex_lower(b);
        let prev = hex_lower(b.drop_last());
        let hi = b.last() as int / 16;
        let lo = b.last() as int % 16;
        assert forall|i: int| 0 <= i < h.len() implies exists|d: int| 0 <= d < 16 && #[trigger] h[i] == hex_digit(d) by {
            if i < prev.len() {
                assert(h[i] == prev[i]);
            } else if i == prev.len() {
                assert(h[i] == hex_digit(hi));
            } else {
                assert(h[i] == hex_digit(lo));
            }
        }
    }
}

/// The hex-encoded HMAC-SHA256 of `msg` under `secret`: 64 lower-case hex
/// digits.
pub fn sign_message(secret: &str, msg: &str) -> (r: String)
    ensures
        r@ == signature(secret@, msg@),
        r@.len() == 64,
        is_lower_hex(r@),
{
    let tag = hmac_tag(secret, msg);
    proof { lemma_hex_lower(tag@); }
    to_hex(&tag)
}

/// The REST signature: the message is timestamp, API key, receive window
/// and canonical payload, concatenated with no delimiter.
pub fn sign(secret: &str, timestamp: &str, api_key: &str, recv_window: &str, payload: &str) -> (r: String)
    ensures
        r@ == signature(secret@, timestamp@ + api_key@ + recv_window@ + payload@),
        r@.len() == 64,
        is_lower_hex(r@),
{
    let mut msg = timestamp.to_owned();
    msg.append(api_key);
    msg.append(recv_window);
    msg.append(payload);
    sign_message(secret, msg.as_str())
}

/// The value of a request parameter: text, or an integer.
pub enum ParamValue {
    Text(String),
    Int(i64),
}

/// What a parameter value denotes.
pub enum ParamView {
    Text(Seq<char>),
    Int(int),
}

impl View for ParamValue {
    type V = ParamView;

    open spec fn view(&self) -> ParamView {
        match self {
            ParamValue::Text(s) => ParamView::Text(s@),
            ParamValue::Int(n) => ParamView::Int(*n as int),
        }
    }
}

impl ParamValue {
    pub fn copy(&self) -> (r: ParamValue)
        ensures
            r@ == self@,
    {
        match self {
            ParamValue::Text(s) => ParamValue::Text(s.clone()),
            ParamValue::Int(n) => ParamValue::Int(*n),
        }
    }
}

/// One entry as a name and what its value denotes.
pub open spec fn entry_view(e: (String, ParamValue)) -> (Seq<char>, ParamView) {
    (e.0@, e.1@)
}

/// A parameter value as it stands in a query string.
pub open spec fn query_value(v: ParamView) -> Seq<char> {
    match v {
        ParamView::Text(s) => s,
        ParamView::Int(n) => signed_decimal(n),
    }
}

/// A parameter value as JSON.
pub open spec fn json_value(v: ParamView) -> Seq<char> {
    match v {
        ParamView::Text(s) => json_quoted(s),
        ParamView::Int(n) => signed_decimal(n),
    }
}

/// `name=value` pairs joined by `&`, in the order given.
pub open spec fn query_text(s: Seq<(Seq<char>, ParamView)>) -> Seq<char>
    decreases s.len(),
{
    if s.len() == 0 {
        Seq::empty()
    } else if s.len() == 1 {
        s[0].0 + seq!['='] + query_value(s[0].1)
    } else {
        query_text(s.drop_last()) + seq!['&'] + s.last().0 + seq!['='] + query_value(s.last().1)
    }
}

/// The members of a JSON object, `"name":value` joined by `,`, in the order given.
pub open spec fn members_text(s: Seq<(Seq<char>, ParamView)>) -> Seq<char>
    decreases s.len(),
{
    if s.len() == 0 {
        Seq::empty()
    } else if s.len() == 1 {
        json_quoted(s[0].0) + seq![':'] + json_value(s[0].1)
    } else {
        members_text(s.drop_last()) + seq![','] + json_quoted(s.last().0) + seq![':'] + json_value(s.last().1)
    }
}

/// A JSON object with the given members.
pub open spec fn object_text(s: Seq<(Seq<char>, ParamView)>) -> Seq<char> {
    seq!['{'] + members_text(s) + seq!['}']
}

/// The canonical query string of a parameter set: its pairs sorted by name.
pub open spec fn canonical_query(s: Seq<(Seq<char>, ParamView)>) -> Seq<char> {
    query_text(arranged(s))
}

/// The canonical JSON body of a parameter set: its members sorted by name.
pub open spec fn canonical_body(s: Seq<(Seq<char>, ParamView)>) -> Seq<char> {
    object_text(arranged(s))
}

/// Position `j` occurs in `order`.
pub open spec fn lists(order: Seq<usize>, j: int) -> bool {
    exists|a: int| 0 <= a < order.len() && order[a] == j
}

/// A set of request parameters with distinct names, in insertion order.
pub struct Params {
    entries: Vec<(String, ParamValue)>,
}

impl View for Params {
    type V = Seq<(Seq<char>, ParamView)>;

    closed spec fn view(&self) -> Seq<(Seq<char>, ParamView)> {
        self.entries@.map_values(|e: (String, ParamValue)| entry_view(e))
    }
}

impl Params {
    /// Names are distinct.
    pub open spec fn wf(&self) -> bool {
        unique_keys(self@)
    }

    pub fn new() -> (r: Params)
        ensures
            r@ == Seq::<(Seq<char>, ParamView)>::empty(),
            r.wf(),
    {
        let r = Params { entries: Vec::new() };
        assert(r@ =~= Seq::<(Seq<char>, ParamView)>::empty());
        r
    }

    pub fn len(&self) -> (r: usize)
        ensures
            r == self@.len(),
    {
        self.entries.len()
    }

    /// Sets a parameter: an entry of the same name has its value replaced in
    /// place, else the entry is added at the end.
    pub fn insert(&mut self, key: &str, value: ParamValue)
        requires
            old(self).wf(),
        ensures
            final(self).wf(),
            forall|i: int| 0 <= i < old(self)@.len() && old(self)@[i].0 == key@
                ==> final(self)@ == old(self)@.update(i, (key@, value@)),
            (forall|i: int| 0 <= i < old(self)@.len() ==> old(self)@[i].0 != key@)
                ==> final(self)@ == old(self)@.push((key@, value@)),
    {
        let n = self.entries.len();
        let wanted = key.to_owned();
        let mut i: usize = 0;
        while i < n
            invariant
                n == self.entries@.len(),
                self == old(self),
                self.wf(),
                wanted@ == key@,
                i <= n,
                forall|j: int| 0 <= j < i ==> self@[j].0 != key@,
            decreases n - i,
        {
            if self.entries[i].0 == wanted {
                let ghost before = self@;
                assert(self.entries@[i as int].0@ == key@);
                self.entries.set(i, (key.to_owned(), value));
                proof {
                    assert(before[i as int].0 == key@);
                    assert(self@ =~= before.update(i as int, (key@, value@)));
                    assert forall|a: int, b: int| 0 <= a < b < self@.len() implies self@[a].0 != self@[b].0 by {
                        assert(before[a].0 != before[b].0);
                    }
                    assert forall|j: int| 0 <= j < before.len() && before[j].0 == key@ implies j == i by {
                        if j < i {
                            assert(before[j].0 != before[i as int].0);
                        } else if j > i {
                            assert(before[i as int].0 != before[j].0);
                        }
                    }
                }
                return;
            }
            i = i + 1;
        }
        let ghost before = self@;
        self.entries.push((key.to_owned(), value));
        assert(self@ =~= before.push((key@, value@)));
    }

    /// The positions of the entries in increasing order of name.
    fn sorted_positions(&self) -> (order: Vec<usize>)
        requires
            self.wf(),
        ensures
            is_arrangement(order@.map_values(|k: usize| self@[k as int]), self@),
            forall|a: int| 0 <= a < order@.len() ==> order@[a] < self@.len(),
    {
        let n = self.entries.len();
        let mut order: Vec<usize> = Vec::new();
        let mut k: usize = 0;
        while k < n
            invariant
                n == self@.len(),
                self.wf(),
                k <= n,
                order@.len() == k,
                forall|a: int| 0 <= a < order@.len() ==> order@[a] < k,
                forall|a: int, b: int| 0 <= a < b < order@.len()
                    ==> key_lt(self@[order@[a] as int].0, self@[order@[b] as int].0),
                forall|j: int| 0 <= j < k ==> #[trigger] lists(order@, j),
            decreases n - k,
        {
            let key = self.entries[k].0.as_str();
            let mut pos: usize = 0;
            while pos < order.len() && !key_less(key, self.entries[order[pos]].0.as_str())
                invariant
                    n == self@.len(),
                    self.wf(),
                    k < n,
                    key@ == self@[k as int].0,
                    order@.len() == k,
                    pos <= order@.len(),
                    forall|a: int| 0 <= a < order@.len() ==> order@[a] < k,
                    forall|a: int| 0 <= a < pos ==> key_lt(self@[order@[a] as int].0, key@),
                decreases order@.len() - pos,
            {
                proof {
                    let o = order@[pos as int] as int;
                    assert(self@[o].0 != self@[k as int].0);
                    lemma_key_lt_total(self@[o].0, key@);
                }
                pos = pos + 1;
            }
            let ghost prev = order@;
            proof {
                assert forall|c: int| pos <= c < prev.len() implies key_lt(key@, self@[prev[c] as int].0) by {
                    if c > pos {
                        crate::order::lemma_key_lt_transitive(key@, self@[prev[pos as int] as int].0, self@[prev[c] as int].0);
                    }
                }
            }
            order.insert(pos, k);
            proof {
                assert(order@ == prev.insert(pos as int, k));
                assert forall|a: int, b: int| 0 <= a < b < order@.len()
                    implies key_lt(self@[order@[a] as int].0, self@[order@[b] as int].0) by {
                    if b == pos as int {
                        assert(order@[a] == prev[a]);
                    } else if a == pos as int {
                        assert(order@[b] == prev[b - 1]);
                    } else if a < pos && b > pos {
                        assert(order@[a] == prev[a] && order@[b] == prev[b - 1]);
                        crate::order::lemma_key_lt_transitive(self@[prev[a] as int].0, key@, self@[prev[b - 1] as int].0);
                    } else if b < pos {
                        assert(order@[a] == prev[a] && order@[b] == prev[b]);
                    } else {
                        assert(order@[a] == prev[a - 1] && order@[b] == prev[b - 1]);
                    }
                }
                assert forall|j: int| 0 <= j < k + 1 implies #[trigger] lists(order@, j) by {
                    if j == k {
                        assert(order@[pos as int] == j);
                    } else {
                        assert(lists(prev, j));
                        let a = choose|a: int| 0 <= a < prev.len() && prev[a] == j;
                        if a < pos {
                            assert(order@[a] == j);
                        } else {
                            assert(order@[a + 1] == j);
                        }
                    }
                }
            }
            k = k + 1;
        }
        proof {
            let t = order@.map_values(|k: usize| self@[k as int]);
            assert forall|a: int, b: int| 0 <= a < b < t.len() implies key_lt(t[a].0, t[b].0) by {}
            assert forall|e: (Seq<char>, ParamView)| t.contains(e) <==> self@.contains(e) by {
                if t.contains(e) {
                    let a = choose|a: int| 0 <= a < t.len() && t[a] == e;
                    assert(self@[order@[a] as int] == e);
                }
                if self@.contains(e) {
                    let j = choose|j: int| 0 <= j < self@.len() && self@[j] == e;
                    assert(lists(order@, j));
                    let a = choose|a: int| 0 <= a < order@.len() && order@[a] == j;
                    assert(t[a] == e);
                }
            }
        }
        order
    }

    /// The canonical query string: `name=value` pairs sorted by name and
    /// joined by `&`, with no URL encoding.
    pub fn canonical_query(&self) -> (r: String)
        requires
            self.wf(),
        ensures
            r@ == canonical_query(self@),
    {
        let order = self.sorted_positions();
        let ghost t = order@.map_values(|k: usize| self@[k as int]);
        proof { lemma_is_arranged(t, self@); }
        let mut out = String::new();
        let mut a: usize = 0;
        while a < order.len()
            invariant
                a <= order@.len(),
                t == order@.map_values(|k: usize| self@[k as int]),
                forall|b: int| 0 <= b < order@.len() ==> order@[b] < self@.len(),
                out@ == query_text(t.take(a as int)),
            decreases order@.len() - a,
        {
            let e = &self.entries[order[a]];
            if a > 0 {
                push_char(&mut out, '&');
            }
            out.append(e.0.as_str());
            push_char(&mut out, '=');
            match &e.1 {
                ParamValue::Text(s) => out.append(s.as_str()),
                ParamValue::Int(n) => push_signed(&mut out, *n),
            }
            proof {
                assert(t.take(a + 1).drop_last() =~= t.take(a as int));
                assert(t[a as int] == entry_view(*e));
            }
            a = a + 1;
        }
        assert(t.take(order@.len() as int) =~= t);
        out
    }

    /// The canonical JSON body: an object whose members are sorted by name.
    pub fn canonical_body(&self) -> (r: String)
        requires
            self.wf(),
        ensures
            r@ == canonical_body(self@),
    {
        let order = self.sorted_positions();
        let ghost t = order@.map_values(|k: usize| self@[k as int]);
        proof { lemma_is_arranged(t, self@); }
        let mut out = String::new();
        let mut a: usize = 0;
        while a < order.len()
            invariant
                a <= order@.len(),
                t == order@.map_values(|k: usize| self@[k as int]),
                forall|b: int| 0 <= b < order@.len() ==> order@[b] < self@.len(),
                out@ == members_text(t.take(a as int)),
            decreases order@.len() - a,
        {
            let e = &self.entries[order[a]];
            if a > 0 {
                push_char(&mut out, ',');
            }
            push_quoted(&mut out, e.0.as_str());
            push_char(&mut out, ':');
            match &e.1 {
                ParamValue::Text(s) => push_quoted(&mut out, s.as_str()),
                ParamValue::Int(n) => push_signed(&mut out, *n),
            }
            proof {
                assert(t.take(a + 1).drop_last() =~= t.take(a as int));
                assert(t[a as int] == entry_view(*e));
            }
            a = a + 1;
        }
        assert(t.take(order@.len() as int) =~= t);
        let mut body = String::new();
        push_char(&mut body, '{');
        body.append(out.as_str());
        push_char(&mut body, '}');
        body
    }
}

/// Appends `s` as a JSON string literal.
pub fn push_quoted(out: &mut String, s: &str)
    ensures
        final(out)@ == old(out)@ + json_quoted(s@),
{
    match quote(s) {
        Ok(q) => out.append(q.as_str()),
        Err(_) => {},
    }
}

/// The signature of a parameter set does not depend on the order in which
/// its entries were inserted or are stored: two sequences of entries with
/// distinct names holding the same entries have the same canonical query
/// string, the same canonical body, and so the same signatures.
pub proof fn lemma_signature_order_free(
    secret: Seq<char>,
    timestamp: Seq<char>,
    api_key: Seq<char>,
    recv_window: Seq<char>,
    a: Seq<(Seq<char>, ParamView)>,
    b: Seq<(Seq<char>, ParamView)>,
)
    requires
        unique_keys(a),
        unique_keys(b),
        same_entries(a, b),
    ensures
        canonical_query(a) == canonical_query(b),
        canonical_body(a) == canonical_body(b),
        signature(secret, timestamp + api_key + recv_window + canonical_query(a))
            == signature(secret, timestamp + api_key + recv_window + canonical_query(b)),
        signature(secret, timestamp + api_key + recv_window + canonical_body(a))
            == signature(secret, timestamp + api_key + recv_window + canonical_body(b)),
{
    lemma_arrangement_exists(a);
    let t = choose|t: Seq<(Seq<char>, ParamView)>| is_arrangement(t, a);
    lemma_is_arranged(t, a);
    assert(is_arrangement(t, b));
    lemma_is_arranged(t, b);
}

} // verus!
