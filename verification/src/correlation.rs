//! The correlation layer's decisions: which inbound events are ours, how a
//! request's opaque correlation tag is found and echoed, and what response
//! (if any) an event deserves before any backend work starts.
//!
//! The transport hands every event over as a plain envelope (kind, sender,
//! tag lists, decrypted payload text). Screening is a pure function of that
//! envelope: an event of the wrong kind, not addressed to this service,
//! lacking a correlation tag, malformed, or meant for another application is
//! ignored without an answer; an empty query is answered with a typed error;
//! only a well-formed lookup request proceeds to the backend.

use vstd::prelude::*;

use crate::order::str_eq;
use crate::protocol::{parse_lookup_payload, parsed_lookup_of, trim_string, trimmed_of};

verus! {

/// Event kind of inbound lookup requests.
pub const BALANCEBRIDGE_REQUEST_KIND: u16 = 30078;

/// Event kind of outbound responses.
pub const BALANCEBRIDGE_RESPONSE_KIND: u16 = 30079;

/// An inbound event as the transport hands it over: already decrypted,
/// nothing interpreted.
#[derive(Debug)]
pub struct EventEnvelope {
    /// The event kind number.
    pub kind: u16,
    /// The sender's public key, hex encoded.
    pub sender: String,
    /// The raw tag lists of the event.
    pub tags: Vec<Vec<String>>,
    /// The payload text.
    pub content: String,
}

/// The fully viewed tag lists.
pub open spec fn tags_view(tags: Seq<Vec<String>>) -> Seq<Seq<Seq<char>>> {
    tags.map_values(|t: Vec<String>| t@.map_values(|s: String| s@))
}

/// Some tag has the given key and value (a key/value pair is carried in the
/// tag's first two entries).
pub open spec fn spec_has_tag(tags: Seq<Seq<Seq<char>>>, key: Seq<char>, value: Seq<char>) -> bool {
    exists|i: int|
        0 <= i < tags.len() && (#[trigger] tags[i]).len() >= 2 && tags[i][0] == key && tags[i][1]
            == value
}

/// The value of the first tag with the given key, if any.
pub open spec fn spec_get_tag(tags: Seq<Seq<Seq<char>>>, key: Seq<char>) -> Option<Seq<char>>
    decreases tags.len(),
{
    if tags.len() == 0 {
        None
    } else if tags[0].len() >= 2 && tags[0][0] == key {
        Some(tags[0][1])
    } else {
        spec_get_tag(tags.skip(1), key)
    }
}

/// Whether some tag carries the given key and value.
pub fn has_tag(tags: &Vec<Vec<String>>, key: &str, value: &String) -> (r: bool)
    ensures
        r == spec_has_tag(tags_view(tags@), key@, value@),
{
    let mut i: usize = 0;
    while i < tags.len()
        invariant
            i <= tags@.len(),
            forall|j: int|
                0 <= j < i ==> !((#[trigger] tags_view(tags@)[j]).len() >= 2 && tags_view(
                    tags@,
                )[j][0] == key@ && tags_view(tags@)[j][1] == value@),
        decreases tags@.len() - i,
    {
        let t = &tags[i];
        if t.len() >= 2 && str_eq(t[0].as_str(), key) && t[1].eq(value) {
            assert((tags_view(tags@)[i as int]).len() >= 2 && tags_view(tags@)[i as int][0] == key@
                && tags_view(tags@)[i as int][1] == value@);
            return true;
        }
        i = i + 1;
    }
    false
}

/// The value of the first tag with the given key (`["req", "<id>"]` style).
pub fn get_tag(tags: &Vec<Vec<String>>, key: &str) -> (r: Option<String>)
    ensures
        match r {
            Some(v) => spec_get_tag(tags_view(tags@), key@) == Some(v@),
            None => spec_get_tag(tags_view(tags@), key@) is None,
        },
{
    let ghost full = tags_view(tags@);
    let mut i: usize = 0;
    proof {
        assert(full.skip(0) =~= full);
    }
    while i < tags.len()
        invariant
            i <= tags@.len(),
            full == tags_view(tags@),
            spec_get_tag(full, key@) == spec_get_tag(full.skip(i as int), key@),
        decreases tags@.len() - i,
    {
        let t = &tags[i];
        proof {
            assert(full.skip(i as int)[0] == full[i as int]);
            assert(full.skip(i as int).skip(1) =~= full.skip(i + 1));
        }
        if t.len() >= 2 && str_eq(t[0].as_str(), key) {
            assert(full[i as int][0] == key@);
            return Some(t[1].clone());
        }
        assert(!(full[i as int].len() >= 2 && full[i as int][0] == key@));
        i = i + 1;
    }
    proof {
        assert(full.skip(tags@.len() as int) =~= Seq::<Seq<Seq<char>>>::empty());
    }
    None
}

/// What screening decides, at the specification level.
pub enum SpecScreen {
    Ignore,
    Reject { req: Seq<char>, code: Seq<char> },
    Lookup { req: Seq<char>, query: Seq<char> },
}

/// The screening rule. An event is ignored — no response at all — unless it
/// has the request kind, is addressed to this service by a `p` tag, and
/// carries a `req` correlation tag; a payload that does not decode
/// (malformed JSON or schema) and a payload of some other type are likewise
/// ignored, indistinguishable from network loss for the sender. An empty
/// (after trimming) query is answered with the `empty_query` error;
/// otherwise the trimmed query is looked up.
pub open spec fn spec_screen(
    kind: u16,
    tags: Seq<Seq<Seq<char>>>,
    content: Seq<char>,
    server_pk: Seq<char>,
) -> SpecScreen {
    if kind != BALANCEBRIDGE_REQUEST_KIND {
        SpecScreen::Ignore
    } else if !spec_has_tag(tags, "p"@, server_pk) {
        SpecScreen::Ignore
    } else {
        match spec_get_tag(tags, "req"@) {
            None => SpecScreen::Ignore,
            Some(req) => match parsed_lookup_of(content) {
                None => SpecScreen::Ignore,
                Some(p) => if p.0 != "bitcoin_lookup"@ {
                    SpecScreen::Ignore
                } else if trimmed_of(p.1).len() == 0 {
                    SpecScreen::Reject { req, code: "empty_query"@ }
                } else {
                    SpecScreen::Lookup { req, query: trimmed_of(p.1) }
                },
            },
        }
    }
}

/// What to do with an inbound event.
#[derive(Debug)]
pub enum ScreenOutcome {
    /// Not ours, or not correlatable: produce no response at all.
    Ignore,
    /// Ours and correlatable, but bad: answer this error code.
    Reject { req: String, code: String },
    /// A well-formed lookup: resolve this query and answer under this tag.
    Lookup { req: String, query: String },
}

/// Screen one inbound event against this service's public key.
pub fn screen_event(event: &EventEnvelope, server_pk: &String) -> (r: ScreenOutcome)
    ensures
        ({
            let s = spec_screen(event.kind, tags_view(event.tags@), event.content@, server_pk@);
            match r {
                ScreenOutcome::Ignore => s is Ignore,
                ScreenOutcome::Reject { req, code } => s matches SpecScreen::Reject {
                    req: sr,
                    code: sc,
                } && req@ == sr && code@ == sc,
                ScreenOutcome::Lookup { req, query } => s matches SpecScreen::Lookup {
                    req: sr,
                    query: sq,
                } && req@ == sr && query@ == sq,
            }
        }),
{
    if event.kind != BALANCEBRIDGE_REQUEST_KIND {
        return ScreenOutcome::Ignore;
    }
    if !has_tag(&event.tags, "p", server_pk) {
        return ScreenOutcome::Ignore;
    }
    let req = match get_tag(&event.tags, "req") {
        Some(v) => v,
        None => {
            return ScreenOutcome::Ignore;
        },
    };
    let parsed = match parse_lookup_payload(event.content.as_str()) {
        Some(p) => p,
        None => {
            return ScreenOutcome::Ignore;
        },
    };
    let (typ, raw_query) = parsed;
    if !str_eq(typ.as_str(), "bitcoin_lookup") {
        return ScreenOutcome::Ignore;
    }
    let query = trim_string(raw_query.as_str());
    if query.as_str().is_empty() {
        return ScreenOutcome::Reject { req, code: String::from_str("empty_query") };
    }
    ScreenOutcome::Lookup { req, query }
}

/// Tags of an outbound response: a `p` tag for the requester, a `p` tag for
/// this service, and the echoed `req` correlation tag.
pub fn build_response_tags(recipient_pk: &String, server_pk: &String, req_id: &String) -> (r: Vec<
    Vec<String>,
>)
    ensures
        tags_view(r@).len() == 3,
        tags_view(r@)[0] =~= seq!["p"@, recipient_pk@],
        tags_view(r@)[1] =~= seq!["p"@, server_pk@],
        tags_view(r@)[2] =~= seq!["req"@, req_id@],
        spec_get_tag(tags_view(r@), "req"@) == Some(req_id@),
{
    let mut p_recipient: Vec<String> = Vec::new();
    p_recipient.push(String::from_str("p"));
    p_recipient.push(recipient_pk.clone());
    let mut p_server: Vec<String> = Vec::new();
    p_server.push(String::from_str("p"));
    p_server.push(server_pk.clone());
    let mut req_tag: Vec<String> = Vec::new();
    req_tag.push(String::from_str("req"));
    req_tag.push(req_id.clone());
    let mut tags: Vec<Vec<String>> = Vec::new();
    tags.push(p_recipient);
    tags.push(p_server);
    tags.push(req_tag);
    proof {
        reveal_strlit("p");
        reveal_strlit("req");
        let full = tags_view(tags@);
        assert(full[0] =~= seq!["p"@, recipient_pk@]);
        assert(full[1] =~= seq!["p"@, server_pk@]);
        assert(full[2] =~= seq!["req"@, req_id@]);
        assert("p"@.len() == 1 && "req"@.len() == 3);
        assert(full.skip(1)[0] == full[1]);
        assert(full.skip(1).skip(1) =~= full.skip(2));
        assert(full.skip(2)[0] == full[2]);
        assert(spec_get_tag(full, "req"@) == spec_get_tag(full.skip(1), "req"@));
        assert(spec_get_tag(full.skip(1), "req"@) == spec_get_tag(full.skip(2), "req"@));
        assert(spec_get_tag(full.skip(2), "req"@) == Some(req_id@));
    }
    tags
}

/// An outbound event, ready for the transport to sign and publish.
#[derive(Debug)]
pub struct ResponseEvent {
    pub kind: u16,
    pub content: String,
    pub tags: Vec<Vec<String>>,
}

/// Build the success response event for a finished lookup: the canonical
/// success payload, the response kind, and tags addressing the requester and
/// echoing its correlation tag.
pub fn build_ok_response(
    recipient_pk: &String,
    server_pk: &String,
    req_id: &String,
    result: &crate::orchestrator::LookupResult,
) -> (r: ResponseEvent)
    ensures
        r.kind == BALANCEBRIDGE_RESPONSE_KIND,
        r.content@ == crate::json::spec_render_ok(
            req_id@,
            result.confirmed_balance,
            result.unconfirmed_balance,
            crate::order::views_of(result.transactions@),
        ),
        spec_get_tag(tags_view(r.tags@), "req"@) == Some(req_id@),
        spec_has_tag(tags_view(r.tags@), "p"@, recipient_pk@),
{
    let content = crate::json::render_ok_response(req_id, result);
    let tags = build_response_tags(recipient_pk, server_pk, req_id);
    proof {
        assert(tags_view(tags@)[0].len() >= 2 && tags_view(tags@)[0][0] == "p"@ && tags_view(
            tags@,
        )[0][1] == recipient_pk@);
    }
    ResponseEvent { kind: BALANCEBRIDGE_RESPONSE_KIND, content, tags }
}

/// Build the error response event for a failed lookup: the canonical error
/// payload under the same correlation tag.
pub fn build_error_response(
    recipient_pk: &String,
    server_pk: &String,
    req_id: &String,
    code: &String,
) -> (r: ResponseEvent)
    ensures
        r.kind == BALANCEBRIDGE_RESPONSE_KIND,
        r.content@ == crate::json::spec_render_error(req_id@, code@),
        spec_get_tag(tags_view(r.tags@), "req"@) == Some(req_id@),
        spec_has_tag(tags_view(r.tags@), "p"@, recipient_pk@),
{
    let content = crate::json::render_error_response(req_id, code);
    let tags = build_response_tags(recipient_pk, server_pk, req_id);
    proof {
        assert(tags_view(tags@)[0].len() >= 2 && tags_view(tags@)[0][0] == "p"@ && tags_view(
            tags@,
        )[0][1] == recipient_pk@);
    }
    ResponseEvent { kind: BALANCEBRIDGE_RESPONSE_KIND, content, tags }
}

/// Correlation law: a screened event only ever answers under the very tag it
/// carried — and an event without a correlation tag is never answered.
pub proof fn lemma_correlation(
    kind: u16,
    tags: Seq<Seq<Seq<char>>>,
    content: Seq<char>,
    server_pk: Seq<char>,
)
    ensures
        (spec_screen(kind, tags, content, server_pk) matches SpecScreen::Reject { req, .. }
            ==> spec_get_tag(tags, "req"@) == Some(req)),
        (spec_screen(kind, tags, content, server_pk) matches SpecScreen::Lookup { req, .. }
            ==> spec_get_tag(tags, "req"@) == Some(req)),
        spec_get_tag(tags, "req"@) is None ==> spec_screen(kind, tags, content, server_pk)
            is Ignore,
{
}

} // verus!
