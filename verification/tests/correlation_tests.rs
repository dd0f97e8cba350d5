use balancebridge::backend::Balance;
use balancebridge::correlation::{
    build_error_response, build_ok_response, get_tag, has_tag, screen_event, EventEnvelope,
    ScreenOutcome, BALANCEBRIDGE_REQUEST_KIND, BALANCEBRIDGE_RESPONSE_KIND,
};
use balancebridge::orchestrator::LookupResult;

fn request_tags(server_pk: &str, req_id: &str) -> Vec<Vec<String>> {
    vec![
        vec!["p".to_string(), server_pk.to_string()],
        vec!["req".to_string(), req_id.to_string()],
    ]
}

fn envelope(kind: u16, tags: Vec<Vec<String>>, content: &str) -> EventEnvelope {
    EventEnvelope {
        kind,
        sender: "clientpk".to_string(),
        tags,
        content: content.to_string(),
    }
}

#[test]
fn tag_lookup_finds_first_match() {
    let tags = vec![
        vec!["e".to_string(), "someid".to_string()],
        vec!["req".to_string(), "r-1".to_string()],
        vec!["req".to_string(), "r-2".to_string()],
    ];
    assert_eq!(get_tag(&tags, "req"), Some("r-1".to_string()));
    assert_eq!(get_tag(&tags, "p"), None);
    assert!(has_tag(&tags, "e", &"someid".to_string()));
    assert!(!has_tag(&tags, "e", &"otherid".to_string()));
}

#[test]
fn short_tags_are_skipped() {
    let tags = vec![vec!["req".to_string()], vec!["req".to_string(), "r-9".to_string()]];
    assert_eq!(get_tag(&tags, "req"), Some("r-9".to_string()));
}

#[test]
fn well_formed_request_is_looked_up_with_trimmed_query() {
    let server = "serverpk".to_string();
    let event = envelope(
        BALANCEBRIDGE_REQUEST_KIND,
        request_tags("serverpk", "r-42"),
        "{\"type\":\"bitcoin_lookup\",\"query\":\"  1A1zP1eP5QGefi2DMPTfTL5SLmv7DivfNa  \"}",
    );
    match screen_event(&event, &server) {
        ScreenOutcome::Lookup { req, query } => {
            assert_eq!(req, "r-42");
            assert_eq!(query, "1A1zP1eP5QGefi2DMPTfTL5SLmv7DivfNa");
        }
        other => panic!("expected a lookup, got {:?}", other),
    }
}

#[test]
fn extra_payload_fields_are_tolerated() {
    let server = "serverpk".to_string();
    let event = envelope(
        BALANCEBRIDGE_REQUEST_KIND,
        request_tags("serverpk", "r-1"),
        "{\"query\":\"1Abc\",\"type\":\"bitcoin_lookup\",\"extra\":7}",
    );
    assert!(matches!(screen_event(&event, &server), ScreenOutcome::Lookup { .. }));
}

#[test]
fn wrong_kind_is_ignored() {
    let server = "serverpk".to_string();
    let event = envelope(
        1,
        request_tags("serverpk", "r-1"),
        "{\"type\":\"bitcoin_lookup\",\"query\":\"1Abc\"}",
    );
    assert!(matches!(screen_event(&event, &server), ScreenOutcome::Ignore));
}

#[test]
fn event_for_another_service_is_ignored() {
    let server = "serverpk".to_string();
    let event = envelope(
        BALANCEBRIDGE_REQUEST_KIND,
        request_tags("someoneelse", "r-1"),
        "{\"type\":\"bitcoin_lookup\",\"query\":\"1Abc\"}",
    );
    assert!(matches!(screen_event(&event, &server), ScreenOutcome::Ignore));
}

#[test]
fn missing_correlation_tag_produces_no_response() {
    let server = "serverpk".to_string();
    let event = envelope(
        BALANCEBRIDGE_REQUEST_KIND,
        vec![vec!["p".to_string(), "serverpk".to_string()]],
        "{\"type\":\"bitcoin_lookup\",\"query\":\"1Abc\"}",
    );
    assert!(matches!(screen_event(&event, &server), ScreenOutcome::Ignore));
}

#[test]
fn malformed_payload_is_ignored_and_screening_continues() {
    let server = "serverpk".to_string();
    // decrypts fine, but is not valid JSON: no response at all
    let event = envelope(
        BALANCEBRIDGE_REQUEST_KIND,
        request_tags("serverpk", "r-1"),
        "{\"type\": \"bitcoin_lookup\", \"query\": ",
    );
    assert!(matches!(screen_event(&event, &server), ScreenOutcome::Ignore));
    // the loop keeps going: the next, well-formed event still works
    let next = envelope(
        BALANCEBRIDGE_REQUEST_KIND,
        request_tags("serverpk", "r-2"),
        "{\"type\":\"bitcoin_lookup\",\"query\":\"1Abc\"}",
    );
    assert!(matches!(screen_event(&next, &server), ScreenOutcome::Lookup { .. }));
}

#[test]
fn payload_of_another_type_is_ignored() {
    let server = "serverpk".to_string();
    let event = envelope(
        BALANCEBRIDGE_REQUEST_KIND,
        request_tags("serverpk", "r-1"),
        "{\"type\":\"something_else\",\"query\":\"1Abc\"}",
    );
    assert!(matches!(screen_event(&event, &server), ScreenOutcome::Ignore));
}

#[test]
fn missing_query_field_is_ignored() {
    let server = "serverpk".to_string();
    let event = envelope(
        BALANCEBRIDGE_REQUEST_KIND,
        request_tags("serverpk", "r-1"),
        "{\"type\":\"bitcoin_lookup\"}",
    );
    assert!(matches!(screen_event(&event, &server), ScreenOutcome::Ignore));
}

#[test]
fn empty_query_is_rejected_with_a_code() {
    let server = "serverpk".to_string();
    let event = envelope(
        BALANCEBRIDGE_REQUEST_KIND,
        request_tags("serverpk", "r-7"),
        "{\"type\":\"bitcoin_lookup\",\"query\":\"   \"}",
    );
    match screen_event(&event, &server) {
        ScreenOutcome::Reject { req, code } => {
            assert_eq!(req, "r-7");
            assert_eq!(code, "empty_query");
        }
        other => panic!("expected a rejection, got {:?}", other),
    }
}

#[test]
fn response_echoes_the_request_correlation_tag() {
    let recipient = "clientpk".to_string();
    let server = "serverpk".to_string();
    let req = "r-42".to_string();
    let result = LookupResult::from_parts(
        Balance { confirmed: 1000, unconfirmed: 500 },
        vec!["id1".to_string(), "id2".to_string()],
    );
    let event = build_ok_response(&recipient, &server, &req, &result);
    assert_eq!(event.kind, BALANCEBRIDGE_RESPONSE_KIND);
    assert_eq!(get_tag(&event.tags, "req"), Some("r-42".to_string()));
    assert!(has_tag(&event.tags, "p", &recipient));
    assert!(has_tag(&event.tags, "p", &server));
}

#[test]
fn error_response_echoes_the_tag_too() {
    let recipient = "clientpk".to_string();
    let server = "serverpk".to_string();
    let req = "r-9".to_string();
    let event = build_error_response(&recipient, &server, &req, &"backend_timeout".to_string());
    assert_eq!(event.kind, BALANCEBRIDGE_RESPONSE_KIND);
    assert_eq!(get_tag(&event.tags, "req"), Some("r-9".to_string()));
    assert!(has_tag(&event.tags, "p", &recipient));
}
