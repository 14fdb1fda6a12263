//! The event envelope builder: copies the forwarded request headers into
//! the payload and wraps the result with its indexing metadata.

use crate::headers::{header_value, Headers};
use crate::hec_event::{BuildError, EventMetaData, HecEvent};
use crate::json::{
    as_object_mut, as_text, json_members, json_value, member, member_of, new_object,
    object_insert, object_value, text_of, text_value, JsonView,
};
use vstd::prelude::*;
use vstd::string::StringExecFns;
use vstd::utf8::{decode_utf8, encode_utf8, encode_utf8_decode_utf8, valid_utf8};

verus! {

/// The request headers that are copied into an event, under these names.
pub const FORWARDED_HEADERS: [&'static str; 7] = [
    "X-GitHub-Delivery",
    "X-Hub-Signature",
    "X-Hub-Signature-256",
    "X-GitHub-Event",
    "X-GitHub-Hook-ID",
    "X-GitHub-Hook-Installation-Target-ID",
    "X-GitHub-Hook-Installation-Target-Type",
];

/// The key under which the copied headers are put into the payload.
pub const HEADERS_KEY: &'static str = "headers";

/// How the `source` field of an event is determined.
#[derive(Debug)]
pub enum SourceRule {
    /// Every event carries this source.
    Fixed(String),
    /// The source is read off the payload of each event.
    FromPayload,
}

/// The metadata that is the same for every event, and the rule for the one
/// field that may not be.
#[derive(Debug)]
pub struct MetaTemplate {
    pub index: String,
    pub sourcetype: String,
    pub source: SourceRule,
    pub host: String,
}

/// `name` is one of the first `count` forwarded header names.
pub open spec fn is_forwarded_among(name: Seq<char>, count: int) -> bool {
    exists|i: int| 0 <= i < count && #[trigger] FORWARDED_HEADERS[i]@ == name
}

/// `name` is one of the forwarded header names.
pub open spec fn is_forwarded(name: Seq<char>) -> bool {
    is_forwarded_among(name, 7)
}

/// The text of the header `name`, where the request has that header and its
/// value is well-formed UTF-8.
pub open spec fn header_text(headers: Seq<(Seq<u8>, Seq<u8>)>, name: Seq<char>) -> Option<
    Seq<char>,
> {
    match header_value(headers, encode_utf8(name)) {
        Some(value) => if valid_utf8(value) {
            Some(decode_utf8(value))
        } else {
            None
        },
        None => None,
    }
}

/// The members of the `headers` sub-object of an event: one for each
/// forwarded header that the request has with a well-formed value, and no
/// other.
pub open spec fn forwarded_headers(headers: Seq<(Seq<u8>, Seq<u8>)>) -> Map<Seq<char>, JsonView> {
    Map::new(
        |name: Seq<char>| is_forwarded(name) && header_text(headers, name) is Some,
        |name: Seq<char>| JsonView::Text(header_text(headers, name).unwrap()),
    )
}

/// Nothing is lost of a forwarded header: where the request has it with a
/// well-formed value, the sub-object holds its text under its listed name;
/// and the sub-object holds a member under no other name.
pub proof fn forwarded_headers_are_exact(headers: Seq<(Seq<u8>, Seq<u8>)>, name: Seq<char>)
    ensures
        forwarded_headers(headers).contains_key(name) <==> is_forwarded(name) && header_text(
            headers,
            name,
        ) is Some,
        forwarded_headers(headers).contains_key(name) ==> forwarded_headers(headers)[name]
            == JsonView::Text(header_text(headers, name).unwrap()),
{
}

/// The members gathered from the first `count` forwarded header names.
pub open spec fn forwarded_among(headers: Seq<(Seq<u8>, Seq<u8>)>, count: int) -> Map<
    Seq<char>,
    JsonView,
> {
    Map::new(
        |name: Seq<char>| is_forwarded_among(name, count) && header_text(headers, name) is Some,
        |name: Seq<char>| JsonView::Text(header_text(headers, name).unwrap()),
    )
}

/// Gathers the forwarded headers of a request. A header that is absent, or
/// whose value is not well-formed UTF-8, is passed over.
pub fn collect_headers(headers: &Headers) -> (collected: serde_json::Map<
    String,
    serde_json::Value,
>)
    ensures
        json_members(collected) == forwarded_headers(headers@),
{
    let mut collected = new_object();
    let mut i: usize = 0;
    assert(json_members(collected) =~= forwarded_among(headers@, 0));
    while i < 7
        invariant
            i <= 7,
            json_members(collected) == forwarded_among(headers@, i as int),
        decreases 7 - i,
    {
        let name = FORWARDED_HEADERS[i];
        match headers.get(name) {
            None => {},
            Some(value) => match core::str::from_utf8(value) {
                Err(_) => {},
                Ok(text) => {
                    proof {
                        encode_utf8_decode_utf8(text@);
                    }
                    let _ = object_insert(&mut collected, name.to_owned(), text_value(text.to_owned()));
                },
            },
        }
        assert(json_members(collected) =~= forwarded_among(headers@, i + 1)) by {
            assert forall|key: Seq<char>| #[trigger]
                is_forwarded_among(key, i + 1) <==> (is_forwarded_among(key, i as int) || key
                    == name@) by {
                if is_forwarded_among(key, i + 1) {
                    let j = choose|j: int| 0 <= j < i + 1 && #[trigger] FORWARDED_HEADERS[j]@ == key;
                    if j < i {
                        assert(FORWARDED_HEADERS[j]@ == key);
                    }
                }
                if key == name@ {
                    assert(FORWARDED_HEADERS[i as int]@ == key);
                }
            }
        }
        i += 1;
    }
    assert(json_members(collected) =~= forwarded_headers(headers@));
    collected
}

/// The text held under `key` in `doc`, where `doc` is an object whose
/// member of that name is a JSON string.
pub open spec fn text_member(doc: JsonView, key: Seq<char>) -> Option<Seq<char>> {
    match member_of(doc, key) {
        Some(inner) => text_of(inner),
        None => None,
    }
}

/// The text held under `inner` in the object held under `outer` in `doc`.
pub open spec fn nested_text_member(doc: JsonView, outer: Seq<char>, inner: Seq<char>) -> Option<
    Seq<char>,
> {
    match member_of(doc, outer) {
        Some(held) => text_member(held, inner),
        None => None,
    }
}

/// What was found, or the placeholder where nothing was.
pub open spec fn or_placeholder(found: Option<Seq<char>>, placeholder: Seq<char>) -> Seq<char> {
    match found {
        Some(text) => text,
        None => placeholder,
    }
}

/// The source that a payload speaks for: the login of its organization, the
/// name of its repository, the event type among its copied headers and its
/// action, joined by colons, each replaced by a placeholder where the
/// payload does not hold it as a string.
pub open spec fn payload_source(doc: JsonView) -> Seq<char> {
    or_placeholder(nested_text_member(doc, "organization"@, "login"@), "no_org"@) + ":"@
        + or_placeholder(nested_text_member(doc, "repository"@, "name"@), "no_repo"@) + ":"@
        + or_placeholder(nested_text_member(doc, HEADERS_KEY@, "X-GitHub-Event"@), "no_event"@)
        + ":"@ + or_placeholder(text_member(doc, "action"@), "no_action"@)
}

fn text_at<'a>(doc: &'a serde_json::Value, key: &str) -> (found: Option<&'a str>)
    ensures
        match found {
            Some(text) => text_member(json_value(*doc), key@) == Some(text@),
            None => text_member(json_value(*doc), key@) is None,
        },
{
    match member(doc, key) {
        Some(inner) => as_text(inner),
        None => None,
    }
}

fn nested_text_at<'a>(doc: &'a serde_json::Value, outer: &str, inner: &str) -> (found: Option<
    &'a str,
>)
    ensures
        match found {
            Some(text) => nested_text_member(json_value(*doc), outer@, inner@) == Some(text@),
            None => nested_text_member(json_value(*doc), outer@, inner@) is None,
        },
{
    match member(doc, outer) {
        Some(held) => text_at(held, inner),
        None => None,
    }
}

fn found_or<'a>(found: Option<&'a str>, placeholder: &'a str) -> (text: &'a str)
    ensures
        text@ == match found {
            Some(t) => t@,
            None => placeholder@,
        },
{
    match found {
        Some(t) => t,
        None => placeholder,
    }
}

/// Reads the source of an event off its payload.
pub fn dynamic_source(payload: &serde_json::Value) -> (source: String)
    ensures
        source@ == payload_source(json_value(*payload)),
{
    let org = found_or(nested_text_at(payload, "organization", "login"), "no_org");
    let repo = found_or(nested_text_at(payload, "repository", "name"), "no_repo");
    let event = found_or(nested_text_at(payload, HEADERS_KEY, "X-GitHub-Event"), "no_event");
    let action = found_or(text_at(payload, "action"), "no_action");
    let mut source = org.to_owned();
    source.append(":");
    source.append(repo);
    source.append(":");
    source.append(event);
    source.append(":");
    source.append(action);
    source
}

impl SourceRule {
    /// The source that this rule gives an event with the given payload.
    pub open spec fn source_for(&self, payload: JsonView) -> Seq<char> {
        match self {
            SourceRule::Fixed(source) => source@,
            SourceRule::FromPayload => payload_source(payload),
        }
    }
}

/// The payload once the copied headers are put into it: the members it
/// had, with the `headers` member set to the copied headers, in place of
/// any member of that name.
pub open spec fn enriched(payload: Map<Seq<char>, JsonView>, headers: Seq<(Seq<u8>, Seq<u8>)>) -> Map<
    Seq<char>,
    JsonView,
> {
    payload.insert(HEADERS_KEY@, JsonView::Object(forwarded_headers(headers)))
}

/// Shapes a payload into an event. The payload must be a JSON object. It is
/// given the `headers` member, the clock is read once for the time, and the
/// other metadata come from the template. Where the payload is not an
/// object nothing is built and the clock is not read.
pub fn build<C: Fn() -> u64>(
    payload: serde_json::Value,
    headers: &Headers,
    clock: C,
    template: &MetaTemplate,
) -> (built: Result<HecEvent<serde_json::Value>, BuildError>)
    requires
        call_requires(clock, ()),
    ensures
        match built {
            Ok(event) => {
                &&& json_value(payload) matches JsonView::Object(members)
                &&& json_value(event.payload()) == JsonView::Object(enriched(members, headers@))
                &&& event.metadata().time <= u64::MAX
                &&& call_ensures(clock, (), event.metadata().time as u64)
                &&& event.metadata().index == template.index@
                &&& event.metadata().sourcetype == template.sourcetype@
                &&& event.metadata().host == template.host@
                &&& event.metadata().source == template.source.source_for(
                    JsonView::Object(enriched(members, headers@)),
                )
            },
            Err(e) => e == BuildError::NotAnObject && !(json_value(payload) is Object),
        },
{
    let mut enriched_payload = payload;
    match as_object_mut(&mut enriched_payload) {
        None => { return Err(BuildError::NotAnObject); },
        Some(members) => {
            let copied = object_value(collect_headers(headers));
            let _ = object_insert(members, HEADERS_KEY.to_owned(), copied);
        },
    }
    let time = clock();
    let source = match &template.source {
        SourceRule::Fixed(source) => source.clone(),
        SourceRule::FromPayload => dynamic_source(&enriched_payload),
    };
    let event_metadata = EventMetaData::stamped(
        time,
        template.index.clone(),
        template.sourcetype.clone(),
        source,
        template.host.clone(),
    );
    Ok(HecEvent::new(enriched_payload, event_metadata))
}

} // verus!
