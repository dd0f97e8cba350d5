//! Lexicographic order on strings, and a verified sort used to emit
//! aggregate transaction lists deterministically.

use vstd::prelude::*;
use vstd::relations::{sorted_by, total_ordering};
use vstd::seq_lib::lemma_multiset_commutative;

verus! {

/// The views of a list of strings.
pub open spec fn views_of(s: Seq<String>) -> Seq<Seq<char>> {
    s.map_values(|a: String| a@)
}

/// Lexicographic "less than or equal" on character sequences, ordering
/// characters by their code points.
pub open spec fn chars_le(a: Seq<char>, b: Seq<char>) -> bool
    decreases a.len(),
{
    if a.len() == 0 {
        true
    } else if b.len() == 0 {
        false
    } else if (a[0] as int) < (b[0] as int) {
        true
    } else if (a[0] as int) > (b[0] as int) {
        false
    } else {
        chars_le(a.skip(1), b.skip(1))
    }
}

/// The lexicographic order as a binary relation value.
pub open spec fn chars_le_order() -> spec_fn(Seq<char>, Seq<char>) -> bool {
    |a: Seq<char>, b: Seq<char>| chars_le(a, b)
}

proof fn lemma_chars_le_reflexive(a: Seq<char>)
    ensures
        chars_le(a, a),
    decreases a.len(),
{
    if a.len() > 0 {
        lemma_chars_le_reflexive(a.skip(1));
    }
}

proof fn lemma_chars_le_connected(a: Seq<char>, b: Seq<char>)
    ensures
        chars_le(a, b) || chars_le(b, a),
    decreases a.len(),
{
    if a.len() > 0 && b.len() > 0 && a[0] == b[0] {
        lemma_chars_le_connected(a.skip(1), b.skip(1));
    }
}

proof fn lemma_chars_le_antisymmetric(a: Seq<char>, b: Seq<char>)
    requires
        chars_le(a, b),
        chars_le(b, a),
    ensures
        a == b,
    decreases a.len(),
{
    if a.len() > 0 && b.len() > 0 && a[0] == b[0] {
        lemma_chars_le_antisymmetric(a.skip(1), b.skip(1));
        assert(a =~= seq![a[0]] + a.skip(1));
        assert(b =~= seq![b[0]] + b.skip(1));
    }
}

proof fn lemma_chars_le_transitive(a: Seq<char>, b: Seq<char>, c: Seq<char>)
    requires
        chars_le(a, b),
        chars_le(b, c),
    ensures
        chars_le(a, c),
    decreases a.len(),
{
    if a.len() > 0 && b.len() > 0 && c.len() > 0 && a[0] == b[0] && b[0] == c[0] {
        lemma_chars_le_transitive(a.skip(1), b.skip(1), c.skip(1));
    }
}

/// The lexicographic order is total: every sort by it is well defined.
pub proof fn lemma_chars_le_total_ordering()
    ensures
        total_ordering(chars_le_order()),
{
    let leq = chars_le_order();
    assert forall|a: Seq<char>| #[trigger] leq(a, a) by {
        lemma_chars_le_reflexive(a);
    }
    assert forall|a: Seq<char>, b: Seq<char>| #![trigger leq(a, b), leq(b, a)]
        leq(a, b) || leq(b, a) by {
        lemma_chars_le_connected(a, b);
    }
    assert forall|a: Seq<char>, b: Seq<char>| #![trigger leq(a, b), leq(b, a)]
        leq(a, b) && leq(b, a) implies a == b by {
        lemma_chars_le_antisymmetric(a, b);
    }
    assert forall|a: Seq<char>, b: Seq<char>, c: Seq<char>|
        #![trigger leq(a, b), leq(b, c), leq(a, c)]
        leq(a, b) && leq(b, c) implies leq(a, c) by {
        lemma_chars_le_transitive(a, b, c);
    }
}

/// Compare the suffixes of two strings starting at character `i`.
fn str_le_from(a: &str, b: &str, i: usize) -> (r: bool)
    requires
        i <= a@.len(),
        i <= b@.len(),
    ensures
        r == chars_le(a@.skip(i as int), b@.skip(i as int)),
    decreases a@.len() - i,
{
    if i == a.unicode_len() {
        return true;
    }
    if i == b.unicode_len() {
        assert(a@.skip(i as int).len() > 0);
        return false;
    }
    let ca = a.get_char(i);
    let cb = b.get_char(i);
    assert(a@.skip(i as int)[0] == a@[i as int]);
    assert(b@.skip(i as int)[0] == b@[i as int]);
    if (ca as u32) < (cb as u32) {
        true
    } else if (ca as u32) > (cb as u32) {
        false
    } else {
        let r = str_le_from(a, b, i + 1);
        proof {
            assert(a@.skip(i as int).skip(1) =~= a@.skip(i + 1));
            assert(b@.skip(i as int).skip(1) =~= b@.skip(i + 1));
        }
        r
    }
}

/// Lexicographic comparison of two strings.
pub fn str_le(a: &str, b: &str) -> (r: bool)
    ensures
        r == chars_le(a@, b@),
{
    let r = str_le_from(a, b, 0);
    proof {
        assert(a@.skip(0) =~= a@);
        assert(b@.skip(0) =~= b@);
    }
    r
}

/// Character-by-character equality of two strings.
pub fn str_eq(a: &str, b: &str) -> (r: bool)
    ensures
        r == (a@ == b@),
{
    let n = a.unicode_len();
    if n != b.unicode_len() {
        return false;
    }
    let mut i: usize = 0;
    while i < n
        invariant
            i <= n,
            n == a@.len(),
            n == b@.len(),
            forall|j: int| 0 <= j < i ==> a@[j] == b@[j],
        decreases n - i,
    {
        if a.get_char(i) != b.get_char(i) {
            return false;
        }
        i = i + 1;
    }
    proof {
        assert(a@ =~= b@);
    }
    true
}

/// Sort a list of strings lexicographically (insertion sort). The result is
/// sorted and holds exactly the input's strings, multiplicities included.
pub fn sort_strings(v: Vec<String>) -> (r: Vec<String>)
    ensures
        sorted_by(views_of(r@), chars_le_order()),
        views_of(r@).to_multiset() == views_of(v@).to_multiset(),
{
    proof {
        lemma_chars_le_total_ordering();
    }
    let mut out: Vec<String> = Vec::new();
    let mut i: usize = 0;
    proof {
        assert(views_of(out@) =~= views_of(v@.subrange(0, 0)));
    }
    while i < v.len()
        invariant
            i <= v@.len(),
            sorted_by(views_of(out@), chars_le_order()),
            views_of(out@).to_multiset() == views_of(v@.subrange(0, i as int)).to_multiset(),
            total_ordering(chars_le_order()),
        decreases v@.len() - i,
    {
        let x = v[i].clone();
        let ghost xv = x@;
        let ghost pre = views_of(out@);
        // find the first position whose element is not <= x
        let mut idx: usize = 0;
        loop
            invariant
                idx <= out@.len(),
                forall|k: int| 0 <= k < idx ==> chars_le(#[trigger] views_of(out@)[k], xv),
                x@ == xv,
            ensures
                idx <= out@.len(),
                forall|k: int| 0 <= k < idx ==> chars_le(#[trigger] views_of(out@)[k], xv),
                idx < out@.len() ==> !chars_le(views_of(out@)[idx as int], xv),
            decreases out@.len() - idx,
        {
            if idx == out.len() {
                break;
            }
            if !str_le(&out[idx], x.as_str()) {
                break;
            }
            idx = idx + 1;
        }
        proof {
            if idx < out@.len() {
                lemma_chars_le_connected(views_of(out@)[idx as int], xv);
            }
        }
        out.insert(idx, x);
        proof {
            let post = views_of(out@);
            assert(post =~= pre.insert(idx as int, xv));
            lemma_views_insert_multiset(pre, idx as int, xv);
            let prev_seen = views_of(v@.subrange(0, i as int));
            let seen = views_of(v@.subrange(0, i + 1));
            assert(seen =~= prev_seen.push(v@[i as int]@));
            broadcast use vstd::seq_lib::group_to_multiset_ensures;

            assert(seen.to_multiset() =~= prev_seen.to_multiset().insert(xv));
            lemma_sorted_insert(pre, idx as int, xv);
        }
        i = i + 1;
    }
    proof {
        assert(v@.subrange(0, v@.len() as int) =~= v@);
    }
    out
}

/// Inserting an element into a sequence inserts its value into the
/// sequence's multiset.
proof fn lemma_views_insert_multiset(s: Seq<Seq<char>>, idx: int, x: Seq<char>)
    requires
        0 <= idx <= s.len(),
    ensures
        s.insert(idx, x).to_multiset() == s.to_multiset().insert(x),
{
    broadcast use vstd::seq_lib::group_to_multiset_ensures;

    let prefix = s.take(idx);
    let suffix = s.skip(idx);
    assert(s =~= prefix + suffix);
    assert(s.insert(idx, x) =~= prefix.push(x) + suffix);
    lemma_multiset_commutative(prefix, suffix);
    lemma_multiset_commutative(prefix.push(x), suffix);
    assert(prefix.push(x).to_multiset() =~= prefix.to_multiset().insert(x));
    assert(s.insert(idx, x).to_multiset() =~= s.to_multiset().insert(x));
}

/// Inserting `x` where everything before is `<= x` and the element at the
/// insertion point (if any) is `>= x` keeps the sequence sorted.
proof fn lemma_sorted_insert(s: Seq<Seq<char>>, idx: int, x: Seq<char>)
    requires
        0 <= idx <= s.len(),
        sorted_by(s, chars_le_order()),
        forall|k: int| 0 <= k < idx ==> chars_le(#[trigger] s[k], x),
        idx < s.len() ==> chars_le(x, s[idx]),
    ensures
        sorted_by(s.insert(idx, x), chars_le_order()),
{
    let leq = chars_le_order();
    let t = s.insert(idx, x);
    s.insert_ensures(idx, x);
    assert forall|p: int, q: int| 0 <= p < q < t.len() implies #[trigger] leq(t[p], t[q]) by {
        if q < idx {
            assert(leq(s[p], s[q]));
        } else if p < idx && q == idx {
            assert(t[p] == s[p] && t[q] == x);
            assert(chars_le(s[p], x));
        } else if p < idx && q > idx {
            assert(t[p] == s[p] && t[q] == s[q - 1]);
            assert(leq(s[p], s[q - 1]));
        } else if p == idx && q > idx {
            assert(t[p] == x && t[q] == s[q - 1]);
            if q - 1 == idx {
                assert(chars_le(x, s[idx]));
            } else {
                assert(leq(s[idx], s[q - 1]));
                lemma_chars_le_transitive(x, s[idx], s[q - 1]);
            }
        } else {
            assert(t[p] == s[p - 1] && t[q] == s[q - 1]);
            assert(leq(s[p - 1], s[q - 1]));
        }
    }
}

} // verus!
