//! Query classification and the address derivation engine.
//!
//! A query is either a concrete chain address, an extended public key, or
//! invalid. An extended key is expanded into a bounded list of candidate
//! addresses: for each of the external (receiving, `m/0/i`) and internal
//! (change, `m/1/i`) chains, indices `0..gap_limit` are derived in order, and
//! the first failure within a chain stops that chain only, keeping what was
//! already derived. The child-key arithmetic itself is done by an outside
//! library and is deterministic, so its result is given a name and the
//! surrounding engine is verified against that name.

use std::str::FromStr;

use vstd::prelude::*;

use crate::backend::LookupError;

verus! {

/// `p` is a prefix of `s`.
pub open spec fn has_prefix(s: Seq<char>, p: Seq<char>) -> bool {
    p.len() <= s.len() && s.subrange(0, p.len() as int) == p
}

/// Character-by-character prefix test.
fn starts_with_prefix(s: &str, p: &str) -> (r: bool)
    ensures
        r == has_prefix(s@, p@),
{
    let n = p.unicode_len();
    if s.unicode_len() < n {
        assert(!has_prefix(s@, p@));
        return false;
    }
    let mut i: usize = 0;
    while i < n
        invariant
            i <= n,
            n == p@.len(),
            n <= s@.len(),
            forall|j: int| 0 <= j < i ==> s@[j] == p@[j],
        decreases n - i,
    {
        if s.get_char(i) != p.get_char(i) {
            assert(s@.subrange(0, p@.len() as int)[i as int] != p@[i as int]);
            return false;
        }
        i = i + 1;
    }
    assert(s@.subrange(0, p@.len() as int) =~= p@);
    true
}

/// The query looks like an extended public key.
pub open spec fn spec_is_xpub(q: Seq<char>) -> bool {
    ||| has_prefix(q, "xpub"@)
    ||| has_prefix(q, "ypub"@)
    ||| has_prefix(q, "zpub"@)
    ||| has_prefix(q, "tpub"@)
}

/// Check whether a query string looks like an extended public key.
pub fn is_xpub(query: &str) -> (r: bool)
    ensures
        r == spec_is_xpub(query@),
{
    starts_with_prefix(query, "xpub") || starts_with_prefix(query, "ypub")
        || starts_with_prefix(query, "zpub") || starts_with_prefix(query, "tpub")
}

/// The query looks like a chain address.
pub open spec fn spec_is_bitcoin_address(q: Seq<char>) -> bool {
    ||| has_prefix(q, "1"@)
    ||| has_prefix(q, "3"@)
    ||| has_prefix(q, "bc1"@)
    ||| has_prefix(q, "tb1"@)
}

/// Check whether a query string looks like a chain address: it starts with
/// `1`, `3`, `bc1` or `tb1`.
pub fn is_bitcoin_address(query: &str) -> (r: bool)
    ensures
        r == spec_is_bitcoin_address(query@),
{
    starts_with_prefix(query, "1") || starts_with_prefix(query, "3")
        || starts_with_prefix(query, "bc1") || starts_with_prefix(query, "tb1")
}

/// The network an extended key belongs to, read off its prefix.
#[derive(Clone, Copy, Debug, PartialEq, Eq, Structural)]
pub enum KeyNetwork {
    Mainnet,
    Testnet,
}

/// Network by prefix table: `tpub` is the test network; `xpub`, `ypub`,
/// `zpub` and every unknown prefix default to the main network.
pub open spec fn spec_detect_network(key: Seq<char>) -> KeyNetwork {
    if has_prefix(key, "tpub"@) {
        KeyNetwork::Testnet
    } else {
        KeyNetwork::Mainnet
    }
}

/// Determine the network from the key's fixed four-character prefix. An
/// unknown prefix is never an error: it falls back to the main network.
pub fn detect_network(key: &str) -> (r: KeyNetwork)
    ensures
        r == spec_detect_network(key@),
{
    if starts_with_prefix(key, "tpub") {
        KeyNetwork::Testnet
    } else {
        KeyNetwork::Mainnet
    }
}

/// Whether the outside library accepts this string as an extended public key.
/// Parsing is deterministic, so the outcome is a function of the string.
pub uninterp spec fn xpub_parse_ok(key: Seq<char>) -> bool;

/// The legacy address derived from an extended key at path `m/chain/index`
/// on the given network, or `None` where child derivation fails there.
/// Derivation is deterministic, so the result is a function of the arguments.
pub uninterp spec fn derived_child(
    key: Seq<char>,
    testnet: bool,
    chain: u32,
    index: u32,
) -> Option<Seq<char>>;

/// Relies on bitcoin::bip32::Xpub::from_str: base58-decoding and validating
/// an extended key is a function of the input string alone.
#[verifier::external_body]
fn xpub_parses(key: &str) -> (r: bool)
    ensures
        r == xpub_parse_ok(key@),
{
    bitcoin::bip32::Xpub::from_str(key).is_ok()
}

/// Relies on bitcoin::bip32::Xpub::from_str, Xpub::derive_pub and
/// Address::p2pkh: deriving the child key at `m/chain/index` and rendering
/// its legacy address is deterministic in the key string, the network flag,
/// the chain and the index, and fails only where the child-key tweak is
/// invalid.
#[verifier::external_body]
fn derive_child_address(key: &str, testnet: bool, chain: u32, index: u32) -> (r: Option<String>)
    ensures
        match r {
            Some(a) => derived_child(key@, testnet, chain, index) == Some(a@),
            None => derived_child(key@, testnet, chain, index) is None,
        },
{
    let xpub = bitcoin::bip32::Xpub::from_str(key).ok()?;
    let secp = bitcoin::secp256k1::Secp256k1::verification_only();
    let path = [
        bitcoin::bip32::ChildNumber::from_normal_idx(chain).ok()?,
        bitcoin::bip32::ChildNumber::from_normal_idx(index).ok()?,
    ];
    let child = xpub.derive_pub(&secp, &path).ok()?;
    let pubkey = bitcoin::PublicKey::new(child.public_key);
    let network = if testnet {
        bitcoin::Network::Testnet
    } else {
        bitcoin::Network::Bitcoin
    };
    Some(bitcoin::Address::p2pkh(&pubkey, network).to_string())
}

/// The addresses one chain contributes when scanned from `index` up to
/// `gap`: each successful index in order, stopping at the first failure.
pub open spec fn spec_scan_chain(
    key: Seq<char>,
    testnet: bool,
    chain: u32,
    index: u32,
    gap: u32,
) -> Seq<Seq<char>>
    decreases gap - index,
{
    if index >= gap {
        Seq::empty()
    } else {
        match derived_child(key, testnet, chain, index) {
            Some(a) => seq![a] + spec_scan_chain(key, testnet, chain, (index + 1) as u32, gap),
            None => Seq::empty(),
        }
    }
}

/// All addresses of one chain under the gap limit.
pub open spec fn spec_chain_addresses(
    key: Seq<char>,
    testnet: bool,
    chain: u32,
    gap: u32,
) -> Seq<Seq<char>> {
    spec_scan_chain(key, testnet, chain, 0, gap)
}

/// Everything a parse-accepted key derives to: the external chain first
/// (indices ascending), then the internal chain.
pub open spec fn spec_derived_addresses(key: Seq<char>, gap: u32) -> Seq<Seq<char>> {
    let testnet = spec_detect_network(key) is Testnet;
    spec_chain_addresses(key, testnet, 0, gap) + spec_chain_addresses(key, testnet, 1, gap)
}

/// Scan one derivation chain, appending each derived address in index order
/// and stopping this chain at its first failure.
fn scan_chain(key: &str, testnet: bool, chain: u32, gap: u32) -> (r: Vec<String>)
    ensures
        r@.map_values(|a: String| a@) == spec_chain_addresses(key@, testnet, chain, gap),
{
    let mut out: Vec<String> = Vec::new();
    let mut i: u32 = 0;
    while i < gap
        invariant
            i <= gap,
            spec_chain_addresses(key@, testnet, chain, gap) == out@.map_values(|a: String| a@)
                + spec_scan_chain(key@, testnet, chain, i, gap),
            out@.len() == i,
        decreases gap - i,
    {
        let ghost pre = out@.map_values(|a: String| a@);
        match derive_child_address(key, testnet, chain, i) {
            Some(a) => {
                proof {
                    let tail = spec_scan_chain(key@, testnet, chain, (i + 1) as u32, gap);
                    assert(pre + (seq![a@] + tail) =~= pre.push(a@) + tail);
                }
                out.push(a);
                proof {
                    assert(out@.map_values(|a: String| a@) =~= pre.push(a@));
                }
            },
            None => {
                proof {
                    assert(pre + Seq::<Seq<char>>::empty() =~= pre);
                }
                return out;
            },
        }
        i = i + 1;
    }
    proof {
        assert(out@.map_values(|a: String| a@) + Seq::<Seq<char>>::empty() =~= out@.map_values(
            |a: String| a@,
        ));
    }
    out
}

/// Derive all candidate addresses of an extended public key: both chains,
/// external first, each scanned in index order under the gap limit, each
/// chain stopping on its own first derivation failure without discarding
/// what it already produced. Fails exactly when the key does not parse.
pub fn derive_addresses(xpub_str: &str, gap_limit: u32) -> (r: Result<Vec<String>, LookupError>)
    ensures
        match r {
            Ok(v) => xpub_parse_ok(xpub_str@) && v@.map_values(|a: String| a@)
                == spec_derived_addresses(xpub_str@, gap_limit),
            Err(e) => !xpub_parse_ok(xpub_str@) && e is Derivation,
        },
{
    if !xpub_parses(xpub_str) {
        return Err(LookupError::Derivation);
    }
    let network = detect_network(xpub_str);
    let testnet = match network {
        KeyNetwork::Testnet => true,
        KeyNetwork::Mainnet => false,
    };
    let mut out = scan_chain(xpub_str, testnet, 0, gap_limit);
    let ghost external = out@.map_values(|a: String| a@);
    let mut internal = scan_chain(xpub_str, testnet, 1, gap_limit);
    let ghost internal_view = internal@.map_values(|a: String| a@);
    out.append(&mut internal);
    proof {
        assert(out@.map_values(|a: String| a@) =~= external + internal_view);
    }
    Ok(out)
}

/// Idempotence law: two derivations from the same extended key and gap limit
/// yield identical, order-stable output.
pub proof fn lemma_derivation_idempotent(
    key: Seq<char>,
    gap: u32,
    first: Seq<Seq<char>>,
    second: Seq<Seq<char>>,
)
    requires
        first == spec_derived_addresses(key, gap),
        second == spec_derived_addresses(key, gap),
    ensures
        first == second,
{
}

/// Per-index outcomes of one chain, viewed abstractly.
pub open spec fn spec_take_until_none(s: Seq<Option<Seq<char>>>) -> Seq<Seq<char>>
    decreases s.len(),
{
    if s.len() == 0 {
        Seq::empty()
    } else {
        match s[0] {
            Some(a) => seq![a] + spec_take_until_none(s.skip(1)),
            None => Seq::empty(),
        }
    }
}

/// The chain-scan rule over arbitrary per-index outcomes: keep every address
/// before the first failure, in order, and drop the rest of that chain.
pub fn chain_prefix(outcomes: Vec<Option<String>>) -> (r: Vec<String>)
    ensures
        r@.map_values(|a: String| a@) == spec_take_until_none(
            outcomes@.map_values(
                |o: Option<String>|
                    match o {
                        Some(a) => Some(a@),
                        None => None,
                    },
            ),
        ),
{
    let ghost full = outcomes@.map_values(
        |o: Option<String>|
            match o {
                Some(a) => Some(a@),
                None => None::<Seq<char>>,
            },
    );
    let mut out: Vec<String> = Vec::new();
    let mut i: usize = 0;
    proof {
        assert(full.skip(0) =~= full);
        assert(out@.map_values(|a: String| a@) =~= Seq::<Seq<char>>::empty());
        assert(Seq::<Seq<char>>::empty() + spec_take_until_none(full) =~= spec_take_until_none(
            full,
        ));
    }
    while i < outcomes.len()
        invariant
            i <= outcomes@.len(),
            full == outcomes@.map_values(
                |o: Option<String>|
                    match o {
                        Some(a) => Some(a@),
                        None => None::<Seq<char>>,
                    },
            ),
            spec_take_until_none(full) == out@.map_values(|a: String| a@)
                + spec_take_until_none(full.skip(i as int)),
            out@.len() == i,
        decreases outcomes@.len() - i,
    {
        let ghost pre = out@.map_values(|a: String| a@);
        match &outcomes[i] {
            Some(a) => {
                proof {
                    assert(full.skip(i as int)[0] == full[i as int]);
                    assert(full.skip(i as int).skip(1) =~= full.skip(i + 1));
                    let tail = spec_take_until_none(full.skip(i + 1));
                    assert(pre + (seq![a@] + tail) =~= pre.push(a@) + tail);
                }
                let owned = a.clone();
                out.push(owned);
                proof {
                    assert(out@.map_values(|a: String| a@) =~= pre.push(a@));
                }
            },
            None => {
                proof {
                    assert(full.skip(i as int)[0] == full[i as int]);
                    assert(pre + Seq::<Seq<char>>::empty() =~= pre);
                }
                return out;
            },
        }
        i = i + 1;
    }
    proof {
        assert(full.skip(outcomes@.len() as int) =~= Seq::<Option<Seq<char>>>::empty());
        assert(out@.map_values(|a: String| a@) + Seq::<Seq<char>>::empty() =~= out@.map_values(
            |a: String| a@,
        ));
    }
    out
}

/// The engine's per-chain output is exactly the chain-scan rule applied to
/// the sequence of per-index derivation outcomes.
pub proof fn lemma_scan_matches_outcomes(
    key: Seq<char>,
    testnet: bool,
    chain: u32,
    index: u32,
    gap: u32,
)
    requires
        index <= gap,
    ensures
        spec_scan_chain(key, testnet, chain, index, gap) == spec_take_until_none(
            Seq::new((gap - index) as nat, |j: int| derived_child(
                key,
                testnet,
                chain,
                (index + j) as u32,
            )),
        ),
    decreases gap - index,
{
    let outcomes = Seq::new((gap - index) as nat, |j: int| derived_child(
        key,
        testnet,
        chain,
        (index + j) as u32,
    ));
    if index < gap {
        lemma_scan_matches_outcomes(key, testnet, chain, (index + 1) as u32, gap);
        let next = Seq::new((gap - index - 1) as nat, |j: int| derived_child(
            key,
            testnet,
            chain,
            (index + 1 + j) as u32,
        ));
        assert(outcomes.skip(1) =~= next);
        assert(outcomes[0] == derived_child(key, testnet, chain, index));
    }
}

} // verus!
