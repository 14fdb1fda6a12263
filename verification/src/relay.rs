//! The path of one delivery: authenticate, parse, shape, write out, and
//! decide between one request to the collector and a refusal.

use crate::envelope::{build, enriched, forwarded_headers, MetaTemplate};
use crate::headers::{header_value, Headers};
use crate::hec_event::{flattened, BuildError, EventMetaDataView};
use crate::json::{json_parsed, json_text, json_value, parse_value, to_text, JsonView};
use crate::service::{ForwardRequest, Service, AUTH_PADDING, AUTH_SCHEME, JSON_CONTENT_TYPE};
use crate::signature::{
    hmac_sha256, signed_delivery_is_accepted, signed_value, verification, verify,
    VerificationError, SIGNATURE_HEADER,
};
use vstd::pervasive::unreached;
use vstd::prelude::*;
use vstd::string::StringSliceAdditionalSpecFns;

verus! {

/// The status with which an accepted delivery is answered.
pub const STATUS_OK: u16 = 200;

/// The status with which a refused delivery is answered.
pub const STATUS_BAD_REQUEST: u16 = 400;

/// What the relay is set up with before the first request: the collector,
/// the secret shared with the sender, and the metadata of its events.
pub struct Config {
    pub splunk_svc: Service,
    pub github_hmac_secret: Vec<u8>,
    pub event_template: MetaTemplate,
}

/// Why a delivery was refused.
#[derive(Clone, Copy, Debug, PartialEq, Eq, Structural)]
pub enum Refusal {
    /// The delivery is not authenticated.
    Signature(VerificationError),
    /// The body is not JSON.
    InvalidJson,
    /// The body is JSON of the wrong shape.
    Shape(BuildError),
}

/// What is to be done with a delivery.
pub enum Disposition {
    /// Send this one request to the collector and answer the sender 200.
    Forward(ForwardRequest),
    /// Send nothing and answer the sender 400.
    Reject(Refusal),
}

/// The JSON form of the event made from a payload with these members that
/// arrived under these headers and was stamped with this time.
pub open spec fn event_document(
    members: Map<Seq<char>, JsonView>,
    headers: Seq<(Seq<u8>, Seq<u8>)>,
    time: u64,
    template: MetaTemplate,
) -> JsonView {
    JsonView::Object(
        flattened(
            enriched(members, headers),
            EventMetaDataView {
                time: time as nat,
                index: template.index@,
                sourcetype: template.sourcetype@,
                source: template.source.source_for(JsonView::Object(enriched(members, headers))),
                host: template.host@,
            },
        ),
    )
}

/// Why a delivery is refused, if it is: for its signature first, then for a
/// body that is not JSON, then for JSON that is not an object.
pub open spec fn refusal(secret: Seq<u8>, headers: Seq<(Seq<u8>, Seq<u8>)>, body: Seq<u8>) -> Option<
    Refusal,
> {
    match verification(secret, headers, body) {
        Err(e) => Some(Refusal::Signature(e)),
        Ok(()) => match json_parsed(body) {
            None => Some(Refusal::InvalidJson),
            Some(doc) => if doc is Object {
                None
            } else {
                Some(Refusal::Shape(BuildError::NotAnObject))
            },
        },
    }
}

/// `key` is one of the six names that an event sets itself.
pub open spec fn is_event_field(key: Seq<char>) -> bool {
    ||| key == "headers"@
    ||| key == "time"@
    ||| key == "index"@
    ||| key == "sourcetype"@
    ||| key == "source"@
    ||| key == "host"@
}

/// The JSON form of an event is an object that holds every member of the
/// payload it was made from, unchanged unless it bears the name of an event
/// field, and beside them the copied headers and the five metadata fields
/// with the values they were given.
pub proof fn event_document_is_complete(
    members: Map<Seq<char>, JsonView>,
    headers: Seq<(Seq<u8>, Seq<u8>)>,
    time: u64,
    template: MetaTemplate,
)
    ensures
        event_document(members, headers, time, template) matches JsonView::Object(all) && {
            &&& forall|key: Seq<char>| members.contains_key(key) ==> all.contains_key(key)
            &&& forall|key: Seq<char>|
                members.contains_key(key) && !is_event_field(key) ==> all[key] == members[key]
            &&& forall|key: Seq<char>|
                all.contains_key(key) ==> members.contains_key(key) || is_event_field(key)
            &&& all.contains_key("headers"@) && all["headers"@] == JsonView::Object(
                forwarded_headers(headers),
            )
            &&& all.contains_key("time"@) && all["time"@] == JsonView::Integer(time as int)
            &&& all.contains_key("index"@) && all["index"@] == JsonView::Text(template.index@)
            &&& all.contains_key("sourcetype"@) && all["sourcetype"@] == JsonView::Text(
                template.sourcetype@,
            )
            &&& all.contains_key("source"@) && all["source"@] == JsonView::Text(
                template.source.source_for(JsonView::Object(enriched(members, headers))),
            )
            &&& all.contains_key("host"@) && all["host"@] == JsonView::Text(template.host@)
        },
{
    reveal_strlit("headers");
    reveal_strlit("time");
    reveal_strlit("index");
    reveal_strlit("sourcetype");
    reveal_strlit("source");
    reveal_strlit("host");
    assert("time"@[0] != "host"@[0]);
    assert("headers"@.len() == 7 && "time"@.len() == 4 && "index"@.len() == 5);
    assert("sourcetype"@.len() == 10 && "source"@.len() == 6 && "host"@.len() == 4);
}

/// A delivery that carries the code of its body under the shared secret,
/// and whose body is a JSON object, is not refused.
pub proof fn signed_object_is_not_refused(
    secret: Seq<u8>,
    headers: Seq<(Seq<u8>, Seq<u8>)>,
    body: Seq<u8>,
    prefix: Seq<u8>,
)
    requires
        header_value(headers, SIGNATURE_HEADER.spec_bytes()) == Some(
            signed_value(prefix, hmac_sha256(secret, body)),
        ),
        json_parsed(body) matches Some(doc) && doc is Object,
    ensures
        refusal(secret, headers, body) is None,
{
    signed_delivery_is_accepted(secret, headers, body, prefix);
}

impl Disposition {
    /// The status that answers the sender.
    pub fn status(&self) -> (code: u16)
        ensures
            code == if self is Forward {
                STATUS_OK
            } else {
                STATUS_BAD_REQUEST
            },
    {
        match self {
            Disposition::Forward(_) => STATUS_OK,
            Disposition::Reject(_) => STATUS_BAD_REQUEST,
        }
    }
}

/// Decides what is to be done with one delivery. It is authenticated
/// against the raw body, parsed, shaped into an event stamped by one
/// reading of the clock, and written out as the body of one request to the
/// collector. A delivery that fails any step is refused and nothing is
/// sent for it.
pub fn handle_delivery<C: Fn() -> u64>(
    config: &Config,
    headers: &Headers,
    body: &[u8],
    clock: C,
) -> (disposition: Disposition)
    requires
        call_requires(clock, ()),
    ensures
        disposition is Forward <==> refusal(config.github_hmac_secret@, headers@, body@) is None,
        match disposition {
            Disposition::Reject(why) => refusal(config.github_hmac_secret@, headers@, body@)
                == Some(why),
            Disposition::Forward(request) => {
                &&& refusal(config.github_hmac_secret@, headers@, body@) is None
                &&& request.url@ == config.splunk_svc.endpoint()
                &&& request.authorization@ == AUTH_SCHEME@ + config.splunk_svc.auth_token()
                    + AUTH_PADDING@
                &&& request.content_type@ == JSON_CONTENT_TYPE@
                &&& exists|time: u64|
                    call_ensures(clock, (), time) && #[trigger] json_text(
                        event_document(
                            json_parsed(body@).unwrap()->Object_0,
                            headers@,
                            time,
                            config.event_template,
                        ),
                    ) == request.body@
            },
        },
{
    if let Err(e) = verify(config.github_hmac_secret.as_slice(), headers, body) {
        return Disposition::Reject(Refusal::Signature(e));
    }
    let payload = match parse_value(body) {
        Ok(payload) => payload,
        Err(_) => { return Disposition::Reject(Refusal::InvalidJson); },
    };
    let event = match build(payload, headers, clock, &config.event_template) {
        Ok(event) => event,
        Err(e) => { return Disposition::Reject(Refusal::Shape(e)); },
    };
    let ghost time = event.metadata().time as u64;
    let text = match event.into_document() {
        Ok(document) => {
            assert(json_value(document) == event_document(
                json_parsed(body@).unwrap()->Object_0,
                headers@,
                time,
                config.event_template,
            ));
            match to_text(&document) {
                Ok(text) => text,
                Err(_) => unreached(),
            }
        },
        Err(_) => unreached(),
    };
    Disposition::Forward(config.splunk_svc.request(text))
}

} // verus!
