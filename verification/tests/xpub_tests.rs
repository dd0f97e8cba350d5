use balancebridge::backend::LookupError;
use balancebridge::xpub::{
    chain_prefix, derive_addresses, detect_network, is_bitcoin_address, is_xpub, KeyNetwork,
};

// Master public key of the first BIP32 test vector.
const TEST_XPUB: &str = "xpub661MyMwAqRbcFtXgS5sYJABqqG9YLmC4Q1Rdap9gSE8NqtwybGhePY2gZ29ESFjqJoCu1Rupje8YtGqsefD265TMg7usUDFdp6W1EGMcet8";

#[test]
fn extended_key_prefixes_are_recognized() {
    assert!(is_xpub("xpub661MyMwAqRbcF"));
    assert!(is_xpub("ypubABCD"));
    assert!(is_xpub("zpubABCD"));
    assert!(is_xpub("tpubABCD"));
    assert!(!is_xpub("1A1zP1eP5QGefi2DMPTfTL5SLmv7DivfNa"));
    assert!(!is_xpub(""));
    assert!(!is_xpub("xpu"));
}

#[test]
fn address_prefixes_are_recognized() {
    assert!(is_bitcoin_address("1A1zP1eP5QGefi2DMPTfTL5SLmv7DivfNa"));
    assert!(is_bitcoin_address("3J98t1WpEZ73CNmQviecrnyiWrnqRhWNLy"));
    assert!(is_bitcoin_address("bc1qw508d6qejxtdg4y5r3zarvary0c5xw7kv8f3t4"));
    assert!(is_bitcoin_address("tb1qw508d6qejxtdg4y5r3zarvary0c5xw7kxpjzsx"));
    assert!(!is_bitcoin_address("xpub661MyMwAqRbcF"));
    assert!(!is_bitcoin_address(""));
}

#[test]
fn network_follows_the_prefix_table() {
    assert_eq!(detect_network(TEST_XPUB), KeyNetwork::Mainnet);
    assert_eq!(detect_network("tpubD6NzVbkrYhZ4X"), KeyNetwork::Testnet);
    assert_eq!(detect_network("ypubABCD"), KeyNetwork::Mainnet);
    assert_eq!(detect_network("zpubABCD"), KeyNetwork::Mainnet);
    // unknown prefix defaults to the main network, never an error
    assert_eq!(detect_network("abcd1234"), KeyNetwork::Mainnet);
    assert_eq!(detect_network(""), KeyNetwork::Mainnet);
}

#[test]
fn derivation_expands_both_chains_under_the_gap_limit() {
    let addresses = derive_addresses(TEST_XPUB, 20).unwrap();
    assert_eq!(addresses.len(), 40);
    for a in &addresses {
        // legacy main-network addresses
        assert!(a.starts_with('1'));
        assert_ne!(a.as_str(), TEST_XPUB);
    }
    // all distinct
    let mut seen = addresses.clone();
    seen.sort();
    seen.dedup();
    assert_eq!(seen.len(), 40);
}

#[test]
fn derivation_twice_yields_identical_output() {
    let first = derive_addresses(TEST_XPUB, 20).unwrap();
    let second = derive_addresses(TEST_XPUB, 20).unwrap();
    assert_eq!(first, second);
}

#[test]
fn derivation_respects_the_gap_limit() {
    let two = derive_addresses(TEST_XPUB, 2).unwrap();
    assert_eq!(two.len(), 4);
    let twenty = derive_addresses(TEST_XPUB, 20).unwrap();
    // the external chain is a stable prefix
    assert_eq!(&twenty[0..2], &two[0..2]);
    // the internal chain starts after the gap limit of the external one
    assert_eq!(&twenty[20..22], &two[2..4]);
}

#[test]
fn malformed_extended_key_is_a_derivation_error() {
    let r = derive_addresses("xpub_this_is_not_a_key", 20);
    assert!(matches!(r, Err(LookupError::Derivation)));
    let r2 = derive_addresses("xpub", 20);
    assert!(matches!(r2, Err(LookupError::Derivation)));
}

#[test]
fn zero_gap_limit_derives_nothing() {
    let addresses = derive_addresses(TEST_XPUB, 0).unwrap();
    assert_eq!(addresses.len(), 0);
}

#[test]
fn chain_stops_at_first_failure_keeping_earlier_addresses() {
    // derivation failing at external index 5: exactly the five earlier
    // addresses survive
    let mut external: Vec<Option<String>> = Vec::new();
    for i in 0..5 {
        external.push(Some(format!("ext{}", i)));
    }
    external.push(None);
    for i in 6..20 {
        external.push(Some(format!("ext{}", i)));
    }
    let kept = chain_prefix(external);
    assert_eq!(kept.len(), 5);
    assert_eq!(kept[0], "ext0");
    assert_eq!(kept[4], "ext4");

    // the internal chain is unaffected
    let mut internal: Vec<Option<String>> = Vec::new();
    for i in 0..20 {
        internal.push(Some(format!("int{}", i)));
    }
    let kept_internal = chain_prefix(internal);
    assert_eq!(kept_internal.len(), 20);
    assert_eq!(kept.len() + kept_internal.len(), 25);
}

#[test]
fn chain_with_immediate_failure_is_empty() {
    let outcomes: Vec<Option<String>> = vec![None, Some("a".to_string())];
    assert_eq!(chain_prefix(outcomes).len(), 0);
}
