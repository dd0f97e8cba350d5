//! Query orchestration: classify a raw query, and aggregate per-address
//! results of an extended-key scan into one response.
//!
//! Per-address balance or history failures inside an extended-key query are
//! skipped, never escalated: the shell simply does not feed the failed
//! result into the aggregate. The aggregate keeps saturating balance sums
//! and a duplicate-free union of transaction ids, and emits the ids sorted
//! lexicographically so the response is deterministic.

use vstd::prelude::*;
use vstd::relations::sorted_by;

use crate::backend::{sat_add64, Balance};
use crate::order::{chars_le_order, sort_strings, views_of};
use crate::xpub::{spec_is_bitcoin_address, spec_is_xpub};

verus! {

/// Gap limit used for extended-key scans, per derivation chain.
pub const XPUB_GAP_LIMIT: u32 = 20;

/// What a raw query string is.
#[derive(Clone, Copy, Debug, PartialEq, Eq, Structural)]
pub enum QueryKind {
    /// An xpub-family extended public key: fan out over derived addresses.
    ExtendedKey,
    /// A concrete chain address: one balance lookup.
    SingleAddress,
    /// Neither: rejected before any backend call.
    Invalid,
}

/// Classification rule: extended keys are recognized first, then addresses,
/// and everything else is invalid.
pub open spec fn spec_classify(q: Seq<char>) -> QueryKind {
    if spec_is_xpub(q) {
        QueryKind::ExtendedKey
    } else if spec_is_bitcoin_address(q) {
        QueryKind::SingleAddress
    } else {
        QueryKind::Invalid
    }
}

/// Classify a raw query string.
pub fn classify_query(query: &str) -> (r: QueryKind)
    ensures
        r == spec_classify(query@),
{
    if crate::xpub::is_xpub(query) {
        QueryKind::ExtendedKey
    } else if crate::xpub::is_bitcoin_address(query) {
        QueryKind::SingleAddress
    } else {
        QueryKind::Invalid
    }
}

/// The answer to one lookup: balances in satoshis and the transaction ids.
#[derive(Debug)]
pub struct LookupResult {
    pub confirmed_balance: u64,
    pub unconfirmed_balance: u64,
    pub transactions: Vec<String>,
}

impl LookupResult {
    /// Result of a single-address lookup: balance and transaction ids pass
    /// through as the backend reported them (already unique, in backend
    /// order, not re-sorted).
    pub fn from_parts(b: Balance, txs: Vec<String>) -> (r: LookupResult)
        ensures
            r.confirmed_balance == b.confirmed,
            r.unconfirmed_balance == b.unconfirmed,
            r.transactions@ == txs@,
    {
        LookupResult {
            confirmed_balance: b.confirmed,
            unconfirmed_balance: b.unconfirmed,
            transactions: txs,
        }
    }
}

/// `v` holds `x` among its string views.
fn contains_string(v: &Vec<String>, x: &String) -> (r: bool)
    ensures
        r == views_of(v@).contains(x@),
{
    let mut i: usize = 0;
    while i < v.len()
        invariant
            i <= v@.len(),
            forall|j: int| 0 <= j < i ==> views_of(v@)[j] != x@,
        decreases v@.len() - i,
    {
        if v[i].eq(x) {
            assert(views_of(v@)[i as int] == x@);
            return true;
        }
        i = i + 1;
    }
    false
}

/// Running aggregate of an extended-key scan.
pub struct Aggregate {
    pub confirmed: u64,
    pub unconfirmed: u64,
    pub txids: Vec<String>,
}

impl Aggregate {
    /// The transaction ids collected so far never hold a duplicate.
    pub open spec fn wf(self) -> bool {
        views_of(self.txids@).no_duplicates()
    }

    /// The set of transaction ids collected so far.
    pub open spec fn txid_set(self) -> Set<Seq<char>> {
        views_of(self.txids@).to_set()
    }

    /// Empty aggregate: zero balances, no transaction ids.
    pub fn new() -> (r: Aggregate)
        ensures
            r.wf(),
            r.confirmed == 0,
            r.unconfirmed == 0,
            r.txid_set() == Set::<Seq<char>>::empty(),
    {
        let r = Aggregate { confirmed: 0, unconfirmed: 0, txids: Vec::new() };
        proof {
            assert(r.txid_set() =~= Set::<Seq<char>>::empty());
        }
        r
    }

    /// Absorb one address's balance, saturating instead of overflowing.
    pub fn add_balance(&mut self, b: &Balance)
        ensures
            final(self).confirmed == sat_add64(old(self).confirmed, b.confirmed),
            final(self).unconfirmed == sat_add64(old(self).unconfirmed, b.unconfirmed),
            final(self).txids == old(self).txids,
    {
        self.confirmed = self.confirmed.saturating_add(b.confirmed);
        self.unconfirmed = self.unconfirmed.saturating_add(b.unconfirmed);
    }

    /// Absorb one address's transaction ids: the collected set becomes the
    /// union with theirs, and stays duplicate-free.
    pub fn add_txids(&mut self, txs: &Vec<String>)
        requires
            old(self).wf(),
        ensures
            final(self).wf(),
            final(self).txid_set() == old(self).txid_set().union(views_of(txs@).to_set()),
            final(self).confirmed == old(self).confirmed,
            final(self).unconfirmed == old(self).unconfirmed,
    {
        let mut j: usize = 0;
        while j < txs.len()
            invariant
                j <= txs@.len(),
                self.wf(),
                self.confirmed == old(self).confirmed,
                self.unconfirmed == old(self).unconfirmed,
                self.txid_set() == old(self).txid_set().union(
                    views_of(txs@.subrange(0, j as int)).to_set(),
                ),
            decreases txs@.len() - j,
        {
            let ghost pre = views_of(self.txids@);
            let t = txs[j].clone();
            let present = contains_string(&self.txids, &t);
            if !present {
                self.txids.push(t);
                proof {
                    assert(views_of(self.txids@) =~= pre.push(txs@[j as int]@));
                    lemma_views_push(pre, txs@[j as int]@);
                }
            }
            proof {
                let tv = txs@[j as int]@;
                assert(views_of(txs@.subrange(0, j + 1)) =~= views_of(
                    txs@.subrange(0, j as int),
                ).push(tv));
                lemma_views_push(views_of(txs@.subrange(0, j as int)), tv);
                assert(self.txid_set() =~= old(self).txid_set().union(
                    views_of(txs@.subrange(0, j + 1)).to_set(),
                ));
            }
            j = j + 1;
        }
        proof {
            assert(txs@.subrange(0, txs@.len() as int) =~= txs@);
        }
    }

    /// Close the aggregate: balances pass through, and the collected ids
    /// come out sorted, duplicate-free, and as exactly the collected set.
    pub fn finish(self) -> (r: LookupResult)
        requires
            self.wf(),
        ensures
            r.confirmed_balance == self.confirmed,
            r.unconfirmed_balance == self.unconfirmed,
            sorted_by(views_of(r.transactions@), chars_le_order()),
            views_of(r.transactions@).no_duplicates(),
            views_of(r.transactions@).to_set() == self.txid_set(),
    {
        let ghost pre = views_of(self.txids@);
        let sorted = sort_strings(self.txids);
        proof {
            let post = views_of(sorted@);
            broadcast use vstd::seq_lib::group_to_multiset_ensures;

            pre.lemma_multiset_has_no_duplicates();
            post.lemma_multiset_has_no_duplicates_conv();
            assert forall|y: Seq<char>| post.to_set().contains(y) <==> pre.to_set().contains(
                y,
            ) by {
                assert(post.contains(y) <==> post.to_multiset().count(y) > 0);
                assert(pre.contains(y) <==> pre.to_multiset().count(y) > 0);
            }
            assert(post.to_set() =~= pre.to_set());
        }
        LookupResult {
            confirmed_balance: self.confirmed,
            unconfirmed_balance: self.unconfirmed,
            transactions: sorted,
        }
    }
}

/// Pushing a view onto a duplicate-free list keeps it duplicate-free when
/// the view is new, and extends the set by exactly that view.
proof fn lemma_views_push(s: Seq<Seq<char>>, x: Seq<char>)
    ensures
        s.push(x).to_set() == s.to_set().insert(x),
        s.no_duplicates() && !s.contains(x) ==> s.push(x).no_duplicates(),
{
    broadcast use vstd::set::group_set_axioms;

    assert forall|y: Seq<char>| #[trigger] s.push(x).contains(y) <==> (s.contains(y) || y == x) by {
        if s.push(x).contains(y) {
            let i = choose|i: int| 0 <= i < s.push(x).len() && s.push(x)[i] == y;
            if i < s.len() {
                assert(s[i] == y);
            }
        }
        if s.contains(y) {
            let i = choose|i: int| 0 <= i < s.len() && s[i] == y;
            assert(s.push(x)[i] == y);
        }
        if y == x {
            assert(s.push(x)[s.len() as int] == y);
        }
    }
    assert(s.push(x).to_set() =~= s.to_set().insert(x));
    if s.no_duplicates() && !s.contains(x) {
        assert forall|i: int, j: int|
            0 <= i < s.push(x).len() && 0 <= j < s.push(x).len() && i != j implies s.push(x)[i]
            != s.push(x)[j] by {
            if i < s.len() && j < s.len() {
                assert(s[i] != s[j]);
            } else if i < s.len() {
                assert(s.push(x)[j] == x && s.push(x)[i] == s[i]);
                assert(s.contains(s[i]) && s[i] == s.push(x)[i]);
            } else {
                assert(s.push(x)[i] == x && s.push(x)[j] == s[j]);
                assert(s.contains(s[j]));
            }
        }
    }
}

/// The id lists absorbed one by one, folded as `add_txids` folds them.
pub open spec fn spec_absorb_all(ls: Seq<Seq<Seq<char>>>) -> Set<Seq<char>>
    decreases ls.len(),
{
    if ls.len() == 0 {
        Set::empty()
    } else {
        spec_absorb_all(ls.drop_last()).union(ls.last().to_set())
    }
}

/// Union law: absorbing any number of per-address id lists collects exactly
/// their union — an id is in the aggregate if and only if some absorbed list
/// holds it.
pub proof fn lemma_absorb_all_is_union(ls: Seq<Seq<Seq<char>>>)
    ensures
        forall|y: Seq<char>|
            #[trigger] spec_absorb_all(ls).contains(y) <==> exists|i: int|
                0 <= i < ls.len() && #[trigger] ls[i].contains(y),
    decreases ls.len(),
{
    if ls.len() > 0 {
        lemma_absorb_all_is_union(ls.drop_last());
        assert forall|y: Seq<char>| #[trigger] spec_absorb_all(ls).contains(y) implies exists|
            i: int,
        | 0 <= i < ls.len() && #[trigger] ls[i].contains(y) by {
            if spec_absorb_all(ls.drop_last()).contains(y) {
                let i = choose|i: int| 0 <= i < ls.drop_last().len() && #[trigger] ls.drop_last(
                )[i].contains(y);
                assert(ls[i].contains(y));
            } else {
                assert(ls.last().to_set().contains(y));
                assert(ls[ls.len() - 1].contains(y));
            }
        }
        assert forall|y: Seq<char>, i: int|
            0 <= i < ls.len() && #[trigger] ls[i].contains(y) implies spec_absorb_all(
            ls,
        ).contains(y) by {
            if i < ls.len() - 1 {
                assert(ls.drop_last()[i].contains(y));
                assert(spec_absorb_all(ls.drop_last()).contains(y));
            } else {
                assert(ls.last().to_set().contains(y));
            }
        }
    }
}

} // verus!
