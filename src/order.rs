//! The total order on parameter names, and the canonical arrangement of a
//! parameter set: its entries sorted by name.
use vstd::prelude::*;

verus! {

/// Lexicographic order on names, by character code.
pub open spec fn key_lt(a: Seq<char>, b: Seq<char>) -> bool
    decreases a.len(),
{
    if a.len() == 0 {
        b.len() > 0
    } else if b.len() == 0 {
        false
    } else if a[0] != b[0] {
        a[0] < b[0]
    } else {
        key_lt(a.drop_first(), b.drop_first())
    }
}

pub proof fn lemma_key_lt_irreflexive(a: Seq<char>)
    ensures
        !key_lt(a, a),
    decreases a.len(),
{
    if a.len() > 0 {
        lemma_key_lt_irreflexive(a.drop_first());
    }
}

pub proof fn lemma_key_lt_transitive(a: Seq<char>, b: Seq<char>, c: Seq<char>)
    requires
        key_lt(a, b),
        key_lt(b, c),
    ensures
        key_lt(a, c),
    decreases a.len(),
{
    if a.len() > 0 && b.len() > 0 && c.len() > 0 {
        if a[0] == b[0] && b[0] == c[0] {
            lemma_key_lt_transitive(a.drop_first(), b.drop_first(), c.drop_first());
        }
    }
}

pub proof fn lemma_key_lt_total(a: Seq<char>, b: Seq<char>)
    requires
        a != b,
    ensures
        key_lt(a, b) || key_lt(b, a),
    decreases a.len(),
{
    if a.len() > 0 && b.len() > 0 && a[0] == b[0] {
        if a.drop_first() == b.drop_first() {
            assert(a =~= seq![a[0]] + a.drop_first());
            assert(b =~= seq![b[0]] + b.drop_first());
        }
        lemma_key_lt_total(a.drop_first(), b.drop_first());
    } else if a.len() == 0 && b.len() == 0 {
        assert(a =~= b);
    }
}

/// No two entries share a name.
pub open spec fn unique_keys<V>(s: Seq<(Seq<char>, V)>) -> bool {
    forall|i: int, j: int| 0 <= i < j < s.len() ==> s[i].0 != s[j].0
}

/// Entries in strictly increasing order of name.
pub open spec fn sorted_by_key<V>(s: Seq<(Seq<char>, V)>) -> bool {
    forall|i: int, j: int| 0 <= i < j < s.len() ==> key_lt(s[i].0, s[j].0)
}

/// Two sequences hold the same entries.
pub open spec fn same_entries<V>(s: Seq<(Seq<char>, V)>, t: Seq<(Seq<char>, V)>) -> bool {
    forall|e: (Seq<char>, V)| s.contains(e) <==> t.contains(e)
}

/// `t` arranges the entries of `s` by name.
pub open spec fn is_arrangement<V>(t: Seq<(Seq<char>, V)>, s: Seq<(Seq<char>, V)>) -> bool {
    sorted_by_key(t) && same_entries(t, s)
}

/// The entries of `s` in increasing order of name.
pub open spec fn arranged<V>(s: Seq<(Seq<char>, V)>) -> Seq<(Seq<char>, V)> {
    choose|t: Seq<(Seq<char>, V)>| is_arrangement(t, s)
}

/// Places an entry before the first one with a greater name.
pub open spec fn insert_by_key<V>(e: (Seq<char>, V), s: Seq<(Seq<char>, V)>) -> Seq<(Seq<char>, V)>
    decreases s.len(),
{
    if s.len() == 0 {
        seq![e]
    } else if key_lt(e.0, s[0].0) {
        seq![e] + s
    } else {
        seq![s[0]] + insert_by_key(e, s.drop_first())
    }
}

proof fn lemma_insert_by_key<V>(e: (Seq<char>, V), s: Seq<(Seq<char>, V)>)
    requires
        sorted_by_key(s),
        forall|i: int| 0 <= i < s.len() ==> s[i].0 != e.0,
    ensures
        sorted_by_key(insert_by_key(e, s)),
        forall|x: (Seq<char>, V)| #[trigger] insert_by_key(e, s).contains(x) <==> (s.contains(x) || x == e),
        insert_by_key(e, s).len() == s.len() + 1,
        insert_by_key(e, s).len() > 0,
        insert_by_key(e, s)[0] == e || (s.len() > 0 && insert_by_key(e, s)[0] == s[0]),
    decreases s.len(),
{
    let r = insert_by_key(e, s);
    if s.len() == 0 {
        assert(forall|x: (Seq<char>, V)| r.contains(x) <==> x == e) by {
            assert forall|x: (Seq<char>, V)| r.contains(x) implies x == e by {
                let k = choose|k: int| 0 <= k < r.len() && r[k] == x;
            }
            assert(r[0] == e);
        }
    } else if key_lt(e.0, s[0].0) {
        assert forall|i: int, j: int| 0 <= i < j < r.len() implies key_lt(r[i].0, r[j].0) by {
            if i == 0 {
                if j > 1 {
                    lemma_key_lt_transitive(e.0, s[0].0, s[j - 1].0);
                }
            } else {
                assert(r[i] == s[i - 1] && r[j] == s[j - 1]);
            }
        }
        assert forall|x: (Seq<char>, V)| r.contains(x) <==> (s.contains(x) || x == e) by {
            if r.contains(x) {
                let k = choose|k: int| 0 <= k < r.len() && r[k] == x;
                if k > 0 {
                    assert(s[k - 1] == x);
                }
            }
            if s.contains(x) {
                let k = choose|k: int| 0 <= k < s.len() && s[k] == x;
                assert(r[k + 1] == x);
            }
            if x == e {
                assert(r[0] == x);
            }
        }
    } else {
        let rest = s.drop_first();
        lemma_key_lt_total(e.0, s[0].0);
        assert forall|i: int| 0 <= i < rest.len() implies rest[i].0 != e.0 by {
            assert(rest[i] == s[i + 1]);
        }
        assert(sorted_by_key(rest)) by {
            assert forall|i: int, j: int| 0 <= i < j < rest.len() implies key_lt(rest[i].0, rest[j].0) by {
                assert(rest[i] == s[i + 1] && rest[j] == s[j + 1]);
            }
        }
        lemma_insert_by_key(e, rest);
        let ir = insert_by_key(e, rest);
        assert(r == seq![s[0]] + ir);
        assert forall|i: int, j: int| 0 <= i < j < r.len() implies key_lt(r[i].0, r[j].0) by {
            if i == 0 {
                assert(r[j] == ir[j - 1]);
                assert(ir.contains(ir[j - 1]));
                if ir[j - 1] == e {
                } else {
                    assert(rest.contains(ir[j - 1]));
                    let k = choose|k: int| 0 <= k < rest.len() && rest[k] == ir[j - 1];
                    assert(rest[k] == s[k + 1]);
                }
            } else {
                assert(r[i] == ir[i - 1] && r[j] == ir[j - 1]);
            }
        }
        assert forall|x: (Seq<char>, V)| r.contains(x) <==> (s.contains(x) || x == e) by {
            if r.contains(x) {
                let k = choose|k: int| 0 <= k < r.len() && r[k] == x;
                if k > 0 {
                    assert(ir[k - 1] == x);
                    assert(ir.contains(x));
                    if rest.contains(x) {
                        let m = choose|m: int| 0 <= m < rest.len() && rest[m] == x;
                        assert(s[m + 1] == x);
                    }
                } else {
                    assert(s[0] == x);
                }
            }
            if s.contains(x) {
                let k = choose|k: int| 0 <= k < s.len() && s[k] == x;
                if k == 0 {
                    assert(r[0] == x);
                } else {
                    assert(rest[k - 1] == x);
                    assert(rest.contains(x));
                    assert(ir.contains(x));
                    let m = choose|m: int| 0 <= m < ir.len() && ir[m] == x;
                    assert(r[m + 1] == x);
                }
            }
            if x == e {
                assert(ir.contains(e));
                let m = choose|m: int| 0 <= m < ir.len() && ir[m] == x;
                assert(r[m + 1] == x);
            }
        }
    }
}

/// Every parameter set with distinct names has an arrangement.
pub proof fn lemma_arrangement_exists<V>(s: Seq<(Seq<char>, V)>)
    requires
        unique_keys(s),
    ensures
        exists|t: Seq<(Seq<char>, V)>| is_arrangement(t, s),
    decreases s.len(),
{
    if s.len() == 0 {
        assert(is_arrangement(s, s));
    } else {
        let init = s.drop_last();
        assert(unique_keys(init)) by {
            assert forall|i: int, j: int| 0 <= i < j < init.len() implies init[i].0 != init[j].0 by {
                assert(init[i] == s[i] && init[j] == s[j]);
            }
        }
        lemma_arrangement_exists(init);
        let t = choose|t: Seq<(Seq<char>, V)>| is_arrangement(t, init);
        let e = s.last();
        assert forall|i: int| 0 <= i < t.len() implies t[i].0 != e.0 by {
            assert(t.contains(t[i]));
            assert(init.contains(t[i]));
            let k = choose|k: int| 0 <= k < init.len() && init[k] == t[i];
            assert(s[k] == t[i]);
        }
        lemma_insert_by_key(e, t);
        let r = insert_by_key(e, t);
        assert forall|x: (Seq<char>, V)| r.contains(x) <==> s.contains(x) by {
            if s.contains(x) {
                let k = choose|k: int| 0 <= k < s.len() && s[k] == x;
                if k < s.len() - 1 {
                    assert(init[k] == x);
                    assert(init.contains(x));
                }
            }
            if init.contains(x) {
                let k = choose|k: int| 0 <= k < init.len() && init[k] == x;
                assert(s[k] == x);
            }
        }
        assert(is_arrangement(r, s));
    }
}

/// An arrangement is unique: two sorted sequences with the same entries are
/// equal.
pub proof fn lemma_arrangement_unique<V>(a: Seq<(Seq<char>, V)>, b: Seq<(Seq<char>, V)>)
    requires
        sorted_by_key(a),
        sorted_by_key(b),
        same_entries(a, b),
    ensures
        a == b,
    decreases a.len(),
{
    if a.len() == 0 {
        if b.len() > 0 {
            assert(b.contains(b[0]));
        }
        assert(a =~= b);
    } else {
        assert(a.contains(a[0]));
        assert(b.contains(a[0]));
        let j = choose|j: int| 0 <= j < b.len() && b[j] == a[0];
        assert(b.contains(b[0]));
        assert(a.contains(b[0]));
        let i = choose|i: int| 0 <= i < a.len() && a[i] == b[0];
        if j > 0 {
            if i > 0 {
                lemma_key_lt_transitive(a[0].0, b[0].0, a[0].0);
                lemma_key_lt_irreflexive(a[0].0);
            } else {
                lemma_key_lt_irreflexive(a[0].0);
            }
        }
        assert(a[0] == b[0]);
        let ra = a.drop_first();
        let rb = b.drop_first();
        assert forall|i: int, j: int| 0 <= i < j < ra.len() implies key_lt(ra[i].0, ra[j].0) by {
            assert(ra[i] == a[i + 1] && ra[j] == a[j + 1]);
        }
        assert forall|i: int, j: int| 0 <= i < j < rb.len() implies key_lt(rb[i].0, rb[j].0) by {
            assert(rb[i] == b[i + 1] && rb[j] == b[j + 1]);
        }
        assert forall|x: (Seq<char>, V)| ra.contains(x) <==> rb.contains(x) by {
            if ra.contains(x) {
                let k = choose|k: int| 0 <= k < ra.len() && ra[k] == x;
                assert(a[k + 1] == x);
                assert(a.contains(x));
                assert(b.contains(x));
                let m = choose|m: int| 0 <= m < b.len() && b[m] == x;
                if m == 0 {
                    lemma_key_lt_irreflexive(x.0);
                }
                assert(rb[m - 1] == x);
            }
            if rb.contains(x) {
                let k = choose|k: int| 0 <= k < rb.len() && rb[k] == x;
                assert(b[k + 1] == x);
                assert(b.contains(x));
                assert(a.contains(x));
                let m = choose|m: int| 0 <= m < a.len() && a[m] == x;
                if m == 0 {
                    lemma_key_lt_irreflexive(x.0);
                }
                assert(ra[m - 1] == x);
            }
        }
        lemma_arrangement_unique(ra, rb);
        assert(a =~= seq![a[0]] + ra);
        assert(b =~= seq![b[0]] + rb);
    }
}

/// A sorted sequence with the entries of `s` is its arrangement.
pub proof fn lemma_is_arranged<V>(t: Seq<(Seq<char>, V)>, s: Seq<(Seq<char>, V)>)
    requires
        is_arrangement(t, s),
    ensures
        arranged(s) == t,
{
    let a = arranged(s);
    assert(is_arrangement(a, s));
    lemma_arrangement_unique(a, t);
}

/// Whether `a` precedes `b` in the order of names.
pub fn key_less(a: &str, b: &str) -> (r: bool)
    ensures
        r == key_lt(a@, b@),
{
    let la = a.unicode_len();
    let lb = b.unicode_len();
    let mut i: usize = 0;
    assert(a@.skip(0) =~= a@);
    assert(b@.skip(0) =~= b@);
    while i < la && i < lb
        invariant
            la == a@.len(),
            lb == b@.len(),
            i <= la,
            i <= lb,
            key_lt(a@, b@) == key_lt(a@.skip(i as int), b@.skip(i as int)),
        decreases la - i,
    {
        let ca = a.get_char(i);
        let cb = b.get_char(i);
        if ca != cb {
            return ca < cb;
        }
        assert(a@.skip(i as int).drop_first() =~= a@.skip(i + 1));
        assert(b@.skip(i as int).drop_first() =~= b@.skip(i + 1));
        i = i + 1;
    }
    i == la && i < lb
}

} // verus!
