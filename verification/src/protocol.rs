//! Wire-level request and response values, and the trusted decoding of the
//! inbound JSON payload.
//!
//! The inbound payload is the fixed shape
//! `{"type": "bitcoin_lookup", "query": "<address-or-xpub>"}`. Decoding it
//! is deterministic in the payload text, so its outcome is named and the
//! screening logic is verified against that name.

use vstd::prelude::*;

verus! {

/// What the inbound payload decodes to: the `type` and `query` fields, or
/// nothing when the text is not JSON or lacks either field as a string.
/// Deserialization is a function of the text alone.
pub uninterp spec fn parsed_lookup_of(s: Seq<char>) -> Option<(Seq<char>, Seq<char>)>;

/// Relies on serde_json::from_str and Value::get / Value::as_str: decoding
/// the fixed `{"type", "query"}` request shape is a function of the payload
/// text alone.
#[verifier::external_body]
pub(crate) fn parse_lookup_payload(content: &str) -> (r: Option<(String, String)>)
    ensures
        match r {
            Some(p) => parsed_lookup_of(content@) == Some((p.0@, p.1@)),
            None => parsed_lookup_of(content@) is None,
        },
{
    let v: serde_json::Value = match serde_json::from_str(content) {
        Ok(v) => v,
        Err(_) => return None,
    };
    let typ = v.get("type")?.as_str()?.to_string();
    let query = v.get("query")?.as_str()?.to_string();
    Some((typ, query))
}

/// A query with surrounding whitespace removed; a function of the string
/// alone.
pub uninterp spec fn trimmed_of(s: Seq<char>) -> Seq<char>;

/// Relies on str::trim: removing leading and trailing whitespace yields a
/// subslice, a function of the string alone.
#[verifier::external_body]
pub(crate) fn trim_string(s: &str) -> (r: String)
    ensures
        r@ == trimmed_of(s@),
        r@.len() <= s@.len(),
{
    s.trim().to_string()
}

/// An inbound balance-lookup request, once decoded.
#[derive(Debug)]
pub struct BitcoinLookupRequest {
    pub query: String,
}

/// One transaction reference in a response.
#[derive(Debug)]
pub struct TransactionInfo {
    pub txid: String,
}

/// An outbound balance-lookup response body.
#[derive(Debug)]
pub struct BitcoinLookupResponse {
    pub query: String,
    pub confirmed_balance: u64,
    pub unconfirmed_balance: u64,
    pub transactions: Vec<TransactionInfo>,
}

impl BitcoinLookupResponse {
    /// Empty response for a query: zero balances, no transactions.
    pub fn new(query: String) -> (r: BitcoinLookupResponse)
        ensures
            r.query@ == query@,
            r.confirmed_balance == 0,
            r.unconfirmed_balance == 0,
            r.transactions@.len() == 0,
    {
        BitcoinLookupResponse {
            query,
            confirmed_balance: 0,
            unconfirmed_balance: 0,
            transactions: Vec::new(),
        }
    }
}

} // verus!
