use hmac::{Hmac, Mac};
use serde_json::Value;
use sha2::Sha256;
use webhook_relay::envelope::{MetaTemplate, SourceRule};
use webhook_relay::headers::Headers;
use webhook_relay::hec_event::BuildError;
use webhook_relay::hex::HexError;
use webhook_relay::relay::{
    handle_delivery, Config, Disposition, Refusal, STATUS_BAD_REQUEST, STATUS_OK,
};
use webhook_relay::service::Service;
use webhook_relay::signature::VerificationError;

fn config(source: SourceRule) -> Config {
    Config {
        splunk_svc: Service::new("https://collector.example/event".to_string(), "tok".to_string()),
        github_hmac_secret: b"secret".to_vec(),
        event_template: MetaTemplate {
            index: "idx".to_string(),
            sourcetype: "st".to_string(),
            source,
            host: "h".to_string(),
        },
    }
}

fn delivery(secret: &[u8], body: &[u8]) -> Headers {
    let mut mac = Hmac::<Sha256>::new_from_slice(secret).unwrap();
    mac.update(body);
    let code = faster_hex::hex_string(&mac.finalize().into_bytes());
    let mut headers = Headers::new();
    headers.append("content-type", b"application/json");
    headers.append("x-github-event", b"push");
    headers.append("x-github-delivery", b"72d3162e-cc78-11e3-81ab-4c9367dc0958");
    headers.append("x-hub-signature-256", format!("sha256={code}").as_bytes());
    headers
}

#[test]
fn signed_object_is_forwarded_once_and_answered_ok() {
    let body = br#"{"zen":"Keep it logically awesome.","hook_id":7,"nested":{"a":[1,2]}}"#;
    let headers = delivery(b"secret", body);
    let disposition = handle_delivery(
        &config(SourceRule::Fixed("src".to_string())),
        &headers,
        body,
        || 1700000000,
    );
    assert_eq!(disposition.status(), 200);
    assert_eq!(STATUS_OK, 200);
    let request = match disposition {
        Disposition::Forward(request) => request,
        Disposition::Reject(why) => panic!("refused: {:?}", why),
    };
    assert_eq!(request.url, "https://collector.example/event");
    assert_eq!(request.authorization, "Splunk tok ");
    assert_eq!(request.content_type, "application/json");
    assert!(!request.body.contains('\n'));
    let sent: Value = serde_json::from_str(&request.body).unwrap();
    let sent = sent.as_object().unwrap();
    for key in ["headers", "time", "index", "sourcetype", "source", "host", "zen", "hook_id", "nested"] {
        assert!(sent.contains_key(key), "{key} is missing");
    }
    assert_eq!(sent.len(), 9);
    assert_eq!(sent["zen"], Value::from("Keep it logically awesome."));
    assert_eq!(sent["hook_id"], Value::from(7));
    assert_eq!(sent["nested"], serde_json::from_str::<Value>(r#"{"a":[1,2]}"#).unwrap());
    assert_eq!(sent["time"], Value::from(1700000000u64));
    assert_eq!(sent["index"], Value::from("idx"));
    assert_eq!(sent["sourcetype"], Value::from("st"));
    assert_eq!(sent["source"], Value::from("src"));
    assert_eq!(sent["host"], Value::from("h"));
    let copied = sent["headers"].as_object().unwrap();
    assert_eq!(copied.len(), 3);
    assert_eq!(copied["X-GitHub-Event"], Value::from("push"));
    assert_eq!(copied["X-GitHub-Delivery"], Value::from("72d3162e-cc78-11e3-81ab-4c9367dc0958"));
    assert!(copied["X-Hub-Signature-256"].as_str().unwrap().starts_with("sha256="));
}

#[test]
fn forwarded_body_is_one_line_of_json() {
    let body = br#"{"b":"x\ny","a":1}"#;
    let mut mac = Hmac::<Sha256>::new_from_slice(b"secret").unwrap();
    mac.update(body);
    let code = faster_hex::hex_string(&mac.finalize().into_bytes());
    let mut headers = Headers::new();
    headers.append("x-hub-signature-256", code.as_bytes());
    let disposition =
        handle_delivery(&config(SourceRule::Fixed("s".to_string())), &headers, body, || 5);
    match disposition {
        Disposition::Forward(request) => assert_eq!(
            request.body,
            format!(
                "{{\"a\":1,\"b\":\"x\\ny\",\"headers\":{{\"X-Hub-Signature-256\":\"{code}\"}},\"host\":\"h\",\"index\":\"idx\",\"source\":\"s\",\"sourcetype\":\"st\",\"time\":5}}"
            )
        ),
        Disposition::Reject(why) => panic!("refused: {:?}", why),
    }
}

#[test]
fn dynamic_source_is_resolved_on_the_way() {
    let body = br#"{"organization":{"login":"acme"},"repository":{"name":"repo1"},"action":"opened"}"#;
    let headers = delivery(b"secret", body);
    let disposition = handle_delivery(&config(SourceRule::FromPayload), &headers, body, || 1);
    match disposition {
        Disposition::Forward(request) => {
            let sent: Value = serde_json::from_str(&request.body).unwrap();
            assert_eq!(sent["source"], Value::from("acme:repo1:push:opened"));
        },
        Disposition::Reject(why) => panic!("refused: {:?}", why),
    }
}

#[test]
fn unsigned_delivery_is_refused() {
    let mut headers = Headers::new();
    headers.append("x-github-event", b"push");
    let disposition =
        handle_delivery(&config(SourceRule::FromPayload), &headers, b"{}", || 1);
    assert_eq!(disposition.status(), 400);
    assert_eq!(STATUS_BAD_REQUEST, 400);
    assert!(matches!(
        disposition,
        Disposition::Reject(Refusal::Signature(VerificationError::MissingHeader))
    ));
}

#[test]
fn delivery_signed_with_another_secret_is_refused() {
    let body = b"{}";
    let headers = delivery(b"not the secret", body);
    let disposition = handle_delivery(&config(SourceRule::FromPayload), &headers, body, || 1);
    assert_eq!(disposition.status(), 400);
    assert!(matches!(
        disposition,
        Disposition::Reject(Refusal::Signature(VerificationError::SignatureMismatch))
    ));
}

#[test]
fn malformed_signature_is_refused() {
    let mut headers = Headers::new();
    headers.append("x-hub-signature-256", b"sha256=nothex");
    let disposition = handle_delivery(&config(SourceRule::FromPayload), &headers, b"{}", || 1);
    assert_eq!(disposition.status(), 400);
    assert!(matches!(
        disposition,
        Disposition::Reject(Refusal::Signature(VerificationError::MalformedSignature(
            HexError::InvalidChar
        )))
    ));
}

#[test]
fn signature_is_judged_before_the_body_is_read() {
    let headers = Headers::new();
    let disposition =
        handle_delivery(&config(SourceRule::FromPayload), &headers, b"not json", || 1);
    assert!(matches!(
        disposition,
        Disposition::Reject(Refusal::Signature(VerificationError::MissingHeader))
    ));
}

#[test]
fn signed_body_that_is_not_json_is_refused() {
    for body in [&b"not json"[..], b"", b"{", b"{\"a\":1}}", b"{'a':1}", &[0xff, 0xfe]] {
        let headers = delivery(b"secret", body);
        let disposition = handle_delivery(&config(SourceRule::FromPayload), &headers, body, || 1);
        assert_eq!(disposition.status(), 400);
        assert!(matches!(disposition, Disposition::Reject(Refusal::InvalidJson)));
    }
}

#[test]
fn signed_json_that_is_not_an_object_is_refused() {
    for body in [&b"[1,2]"[..], b"null", b"3", b"\"s\"", b"true"] {
        let headers = delivery(b"secret", body);
        let disposition = handle_delivery(&config(SourceRule::FromPayload), &headers, body, || 1);
        assert_eq!(disposition.status(), 400);
        assert!(matches!(
            disposition,
            Disposition::Reject(Refusal::Shape(BuildError::NotAnObject))
        ));
    }
}

#[test]
fn signature_covers_the_raw_body() {
    let body = br#"{"a":1}"#;
    let spaced = br#"{ "a": 1 }"#;
    let headers = delivery(b"secret", body);
    let disposition = handle_delivery(&config(SourceRule::FromPayload), &headers, spaced, || 1);
    assert!(matches!(
        disposition,
        Disposition::Reject(Refusal::Signature(VerificationError::SignatureMismatch))
    ));
}
