use balancebridge::backend::Balance;
use balancebridge::orchestrator::{classify_query, Aggregate, LookupResult, QueryKind, XPUB_GAP_LIMIT};
use balancebridge::order::{sort_strings, str_eq, str_le};

#[test]
fn queries_classify_as_key_address_or_invalid() {
    assert_eq!(classify_query("xpub661MyMwAqRbcF"), QueryKind::ExtendedKey);
    assert_eq!(classify_query("tpubD6NzVbkrYhZ4X"), QueryKind::ExtendedKey);
    assert_eq!(classify_query("1A1zP1eP5QGefi2DMPTfTL5SLmv7DivfNa"), QueryKind::SingleAddress);
    assert_eq!(classify_query("bc1qw508d6qejxtdg4y5r3zarvary0c5xw7kv8f3t4"), QueryKind::SingleAddress);
    assert_eq!(classify_query("hello world"), QueryKind::Invalid);
    assert_eq!(classify_query(""), QueryKind::Invalid);
}

#[test]
fn gap_limit_is_twenty() {
    assert_eq!(XPUB_GAP_LIMIT, 20);
}

#[test]
fn aggregate_sums_balances_saturating() {
    let mut agg = Aggregate::new();
    agg.add_balance(&Balance { confirmed: 1000, unconfirmed: 0 });
    agg.add_balance(&Balance { confirmed: 500, unconfirmed: 250 });
    assert_eq!(agg.confirmed, 1500);
    assert_eq!(agg.unconfirmed, 250);
    agg.add_balance(&Balance { confirmed: u64::MAX, unconfirmed: u64::MAX });
    assert_eq!(agg.confirmed, u64::MAX);
    assert_eq!(agg.unconfirmed, u64::MAX);
}

#[test]
fn aggregate_unions_dedups_and_sorts_transaction_ids() {
    let mut agg = Aggregate::new();
    agg.add_txids(&vec!["beta".to_string(), "alpha".to_string()]);
    agg.add_txids(&vec!["gamma".to_string(), "alpha".to_string(), "beta".to_string()]);
    agg.add_txids(&Vec::new());
    let result = agg.finish();
    assert_eq!(
        result.transactions,
        vec!["alpha".to_string(), "beta".to_string(), "gamma".to_string()]
    );
}

#[test]
fn aggregate_with_equal_ids_in_one_list_keeps_one() {
    let mut agg = Aggregate::new();
    agg.add_txids(&vec!["same".to_string(), "same".to_string(), "same".to_string()]);
    let result = agg.finish();
    assert_eq!(result.transactions, vec!["same".to_string()]);
}

#[test]
fn empty_aggregate_finishes_empty() {
    let agg = Aggregate::new();
    let result = agg.finish();
    assert_eq!(result.confirmed_balance, 0);
    assert_eq!(result.unconfirmed_balance, 0);
    assert!(result.transactions.is_empty());
}

#[test]
fn single_address_result_passes_everything_through() {
    let txs = vec!["zzz".to_string(), "aaa".to_string()];
    let r = LookupResult::from_parts(Balance { confirmed: 1000, unconfirmed: 500 }, txs.clone());
    assert_eq!(r.confirmed_balance, 1000);
    assert_eq!(r.unconfirmed_balance, 500);
    // pass-through: backend order kept, not re-sorted
    assert_eq!(r.transactions, txs);
}

#[test]
fn string_sort_is_lexicographic_and_stable_under_duplicates() {
    let sorted = sort_strings(vec![
        "b".to_string(),
        "a".to_string(),
        "ab".to_string(),
        "a".to_string(),
        "".to_string(),
    ]);
    assert_eq!(
        sorted,
        vec!["".to_string(), "a".to_string(), "a".to_string(), "ab".to_string(), "b".to_string()]
    );
}

#[test]
fn string_comparisons_agree_with_the_usual_order() {
    assert!(str_le("", "a"));
    assert!(str_le("a", "a"));
    assert!(str_le("a", "ab"));
    assert!(!str_le("ab", "a"));
    assert!(str_le("abc", "abd"));
    assert!(!str_le("b", "ab"));
    assert!(str_eq("same", "same"));
    assert!(!str_eq("same", "Same"));
    assert!(!str_eq("a", "ab"));
}
