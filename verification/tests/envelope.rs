use serde_json::Value;
use webhook_relay::envelope::{
    build, collect_headers, dynamic_source, MetaTemplate, SourceRule, FORWARDED_HEADERS,
};
use webhook_relay::headers::Headers;
use webhook_relay::hec_event::{BuildError, EventMetaData, HecEvent};

fn json(text: &str) -> Value {
    serde_json::from_str(text).unwrap()
}

fn fixed_template() -> MetaTemplate {
    MetaTemplate {
        index: "ssphp_test".to_string(),
        sourcetype: "ssphp_github_webhooks_json".to_string(),
        source: SourceRule::Fixed("azure_webhooks_function".to_string()),
        host: "relay-1".to_string(),
    }
}

fn dynamic_template() -> MetaTemplate {
    MetaTemplate {
        index: "ssphp_test".to_string(),
        sourcetype: "ssphp_github_webhooks_json".to_string(),
        source: SourceRule::FromPayload,
        host: "relay-1".to_string(),
    }
}

#[test]
fn push_event_is_flattened_with_its_metadata() {
    let mut headers = Headers::new();
    headers.append("X-GitHub-Event", b"push");
    let event = build(json(r#"{"a":1}"#), &headers, || 1700000000, &fixed_template()).unwrap();
    let document = event.into_document().unwrap();
    let expected = json(
        r#"{"a":1,"headers":{"X-GitHub-Event":"push"},"time":1700000000,"index":"ssphp_test","sourcetype":"ssphp_github_webhooks_json","source":"azure_webhooks_function","host":"relay-1"}"#,
    );
    assert_eq!(document, expected);
}

#[test]
fn built_event_holds_payload_and_metadata() {
    let mut headers = Headers::new();
    headers.append("x-github-event", b"push");
    let event = build(json(r#"{"a":1}"#), &headers, || 1700000000, &fixed_template()).unwrap();
    assert_eq!(event.event(), &json(r#"{"a":1,"headers":{"X-GitHub-Event":"push"}}"#));
    let meta = event.event_metadata();
    assert_eq!(meta.time(), 1700000000);
    assert_eq!(meta.index(), "ssphp_test");
    assert_eq!(meta.sourcetype(), "ssphp_github_webhooks_json");
    assert_eq!(meta.source(), "azure_webhooks_function");
    assert_eq!(meta.host(), "relay-1");
}

#[test]
fn array_is_not_an_object() {
    let headers = Headers::new();
    let built = build(json("[1,2,3]"), &headers, || 1700000000, &fixed_template());
    assert!(matches!(built, Err(BuildError::NotAnObject)));
}

#[test]
fn other_kinds_are_not_objects() {
    let headers = Headers::new();
    for text in ["null", "true", "17", "1.5", "\"text\"", "[]", "[{}]"] {
        let built = build(json(text), &headers, || 0, &dynamic_template());
        assert!(matches!(built, Err(BuildError::NotAnObject)));
    }
}

#[test]
fn clock_is_not_read_for_a_refused_payload() {
    let headers = Headers::new();
    let reads = std::cell::Cell::new(0u32);
    let clock = || {
        reads.set(reads.get() + 1);
        7u64
    };
    assert!(build(json("[]"), &headers, &clock, &fixed_template()).is_err());
    assert_eq!(reads.get(), 0);
    assert!(build(json("{}"), &headers, &clock, &fixed_template()).is_ok());
    assert_eq!(reads.get(), 1);
}

#[test]
fn empty_object_gets_empty_headers() {
    let headers = Headers::new();
    let event = build(json("{}"), &headers, || 5, &fixed_template()).unwrap();
    assert_eq!(event.event(), &json(r#"{"headers":{}}"#));
    assert_eq!(event.event_metadata().time(), 5);
}

#[test]
fn largest_time_is_kept() {
    let headers = Headers::new();
    let event = build(json("{}"), &headers, || u64::MAX, &fixed_template()).unwrap();
    assert_eq!(event.event_metadata().time(), u64::MAX);
    let document = event.into_document().unwrap();
    assert_eq!(document["time"], Value::from(u64::MAX));
}

#[test]
fn headers_member_of_payload_is_replaced() {
    let mut headers = Headers::new();
    headers.append("X-GitHub-Delivery", b"72d3162e");
    let event = build(
        json(r#"{"headers":"mine","b":[1]}"#),
        &headers,
        || 1,
        &fixed_template(),
    )
    .unwrap();
    assert_eq!(
        event.event(),
        &json(r#"{"b":[1],"headers":{"X-GitHub-Delivery":"72d3162e"}}"#)
    );
}

#[test]
fn all_forwarded_headers_are_copied_under_their_listed_names() {
    let mut headers = Headers::new();
    headers.append("x-github-delivery", b"d");
    headers.append("x-hub-signature", b"sha1=1");
    headers.append("x-hub-signature-256", b"sha256=2");
    headers.append("x-github-event", b"push");
    headers.append("x-github-hook-id", b"42");
    headers.append("x-github-hook-installation-target-id", b"77");
    headers.append("x-github-hook-installation-target-type", b"repository");
    headers.append("user-agent", b"GitHub-Hookshot/abc");
    headers.append("content-type", b"application/json");
    let collected = Value::from(collect_headers(&headers));
    let expected = json(
        r#"{"X-GitHub-Delivery":"d","X-Hub-Signature":"sha1=1","X-Hub-Signature-256":"sha256=2","X-GitHub-Event":"push","X-GitHub-Hook-ID":"42","X-GitHub-Hook-Installation-Target-ID":"77","X-GitHub-Hook-Installation-Target-Type":"repository"}"#,
    );
    assert_eq!(collected, expected);
    assert_eq!(FORWARDED_HEADERS.len(), 7);
}

#[test]
fn absent_headers_are_passed_over() {
    let mut headers = Headers::new();
    headers.append("x-github-hook-id", b"42");
    headers.append("accept", b"*/*");
    assert_eq!(Value::from(collect_headers(&headers)), json(r#"{"X-GitHub-Hook-ID":"42"}"#));
    assert_eq!(Value::from(collect_headers(&Headers::new())), json("{}"));
}

#[test]
fn ill_formed_header_value_is_passed_over() {
    let mut headers = Headers::new();
    headers.append("x-github-event", &[b'p', 0xff, b'h']);
    headers.append("x-github-hook-id", &[0xc3]);
    headers.append("x-github-delivery", &[0xed, 0xa0, 0x80]);
    headers.append("x-hub-signature", &[0xc0, 0xaf]);
    headers.append("x-hub-signature-256", b"ok");
    assert_eq!(
        Value::from(collect_headers(&headers)),
        json(r#"{"X-Hub-Signature-256":"ok"}"#)
    );
}

#[test]
fn well_formed_header_value_beyond_ascii_is_copied() {
    let mut headers = Headers::new();
    headers.append("x-github-event", "caf\u{e9} \u{1f600}".as_bytes());
    let collected = Value::from(collect_headers(&headers));
    assert_eq!(collected["X-GitHub-Event"], Value::from("caf\u{e9} \u{1f600}"));
}

#[test]
fn first_of_repeated_headers_is_copied() {
    let mut headers = Headers::new();
    headers.append("x-github-event", b"push");
    headers.append("X-GitHub-Event", b"ping");
    assert_eq!(Value::from(collect_headers(&headers)), json(r#"{"X-GitHub-Event":"push"}"#));
}

#[test]
fn source_is_read_off_the_payload() {
    let payload = json(
        r#"{"organization":{"login":"acme"},"repository":{"name":"repo1"},"action":"opened","headers":{"X-GitHub-Event":"pull_request"}}"#,
    );
    assert_eq!(dynamic_source(&payload), "acme:repo1:pull_request:opened");
}

#[test]
fn source_falls_back_to_placeholders() {
    assert_eq!(dynamic_source(&json("{}")), "no_org:no_repo:no_event:no_action");
    assert_eq!(dynamic_source(&json("[]")), "no_org:no_repo:no_event:no_action");
    assert_eq!(dynamic_source(&json("null")), "no_org:no_repo:no_event:no_action");
}

#[test]
fn source_takes_each_part_on_its_own() {
    assert_eq!(
        dynamic_source(&json(r#"{"organization":{"login":"acme"}}"#)),
        "acme:no_repo:no_event:no_action"
    );
    assert_eq!(
        dynamic_source(&json(r#"{"repository":{"name":"r"}}"#)),
        "no_org:r:no_event:no_action"
    );
    assert_eq!(
        dynamic_source(&json(r#"{"headers":{"X-GitHub-Event":"push"}}"#)),
        "no_org:no_repo:push:no_action"
    );
    assert_eq!(dynamic_source(&json(r#"{"action":"closed"}"#)), "no_org:no_repo:no_event:closed");
}

#[test]
fn source_part_that_is_not_a_string_is_a_placeholder() {
    let payload = json(
        r#"{"organization":{"login":7},"repository":"repo1","action":["opened"],"headers":{"X-GitHub-Event":null}}"#,
    );
    assert_eq!(dynamic_source(&payload), "no_org:no_repo:no_event:no_action");
    let payload = json(r#"{"organization":["login"],"repository":{"Name":"x"},"action":true}"#);
    assert_eq!(dynamic_source(&payload), "no_org:no_repo:no_event:no_action");
}

#[test]
fn source_parts_may_be_empty_or_hold_colons() {
    let payload = json(r#"{"organization":{"login":""},"repository":{"name":"a:b"},"action":""}"#);
    assert_eq!(dynamic_source(&payload), ":a:b:no_event:");
}

#[test]
fn dynamic_source_reads_the_event_type_of_the_request() {
    let mut headers = Headers::new();
    headers.append("x-github-event", b"pull_request");
    let payload = json(
        r#"{"organization":{"login":"acme"},"repository":{"name":"repo1"},"action":"opened"}"#,
    );
    let event = build(payload, &headers, || 1, &dynamic_template()).unwrap();
    assert_eq!(event.event_metadata().source(), "acme:repo1:pull_request:opened");
}

#[test]
fn dynamic_source_ignores_headers_member_of_the_payload() {
    let headers = Headers::new();
    let payload = json(r#"{"headers":{"X-GitHub-Event":"forged"},"action":"opened"}"#);
    let event = build(payload, &headers, || 1, &dynamic_template()).unwrap();
    assert_eq!(event.event_metadata().source(), "no_org:no_repo:no_event:opened");
}

#[test]
fn metadata_sits_beside_the_payload() {
    let meta = EventMetaData::new(
        1700000000,
        "i".to_string(),
        "st".to_string(),
        "s".to_string(),
        "h".to_string(),
    );
    let document = HecEvent::new(json(r#"{"x":{"y":[1,2.5,null]}}"#), meta).into_document().unwrap();
    assert_eq!(
        document,
        json(r#"{"x":{"y":[1,2.5,null]},"time":1700000000,"index":"i","sourcetype":"st","source":"s","host":"h"}"#)
    );
}

#[test]
fn metadata_takes_the_place_of_a_member_of_its_name() {
    let meta = EventMetaData::new(
        9,
        "i".to_string(),
        "st".to_string(),
        "s".to_string(),
        "h".to_string(),
    );
    let payload = json(r#"{"time":"noon","index":1,"sourcetype":2,"source":3,"host":4,"kept":5}"#);
    let document = HecEvent::new(payload, meta).into_document().unwrap();
    assert_eq!(
        document,
        json(r#"{"kept":5,"time":9,"index":"i","sourcetype":"st","source":"s","host":"h"}"#)
    );
}

#[test]
fn event_that_is_not_an_object_has_no_document() {
    let meta = EventMetaData::new(
        9,
        "i".to_string(),
        "st".to_string(),
        "s".to_string(),
        "h".to_string(),
    );
    let record = HecEvent::new(json("\"Starting\""), meta);
    assert!(matches!(record.into_document(), Err(BuildError::NotAnObject)));
}

#[test]
fn metadata_is_what_it_was_made_of() {
    let meta = EventMetaData::new(
        1700000000,
        "ssphp_test".to_string(),
        "ssphp_github_webhooks_json".to_string(),
        "azure_webhooks_function".to_string(),
        "host-a".to_string(),
    );
    assert_eq!(meta.time(), 1700000000);
    assert_eq!(meta.index(), "ssphp_test");
    assert_eq!(meta.sourcetype(), "ssphp_github_webhooks_json");
    assert_eq!(meta.source(), "azure_webhooks_function");
    assert_eq!(meta.host(), "host-a");
    let stamped = EventMetaData::stamped(
        u64::MAX,
        "a".to_string(),
        "b".to_string(),
        "c".to_string(),
        "d".to_string(),
    );
    assert_eq!(stamped.time(), u64::MAX);
    assert_eq!(stamped.index(), "a");
    assert_eq!(stamped.sourcetype(), "b");
    assert_eq!(stamped.source(), "c");
    assert_eq!(stamped.host(), "d");
}

#[test]
fn record_hands_back_what_it_wraps() {
    let meta = EventMetaData::new(
        3,
        "i".to_string(),
        "st".to_string(),
        "s".to_string(),
        "h".to_string(),
    );
    let record = HecEvent::new("Starting Sending GitHub Logs to Splunk", meta);
    assert_eq!(*record.event(), "Starting Sending GitHub Logs to Splunk");
    assert_eq!(record.event_metadata().time(), 3);
    assert_eq!(record.event_metadata().host(), "h");
}
