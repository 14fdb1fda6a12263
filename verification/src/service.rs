//! The forwarder: the one POST that carries an event to the collector, and
//! what an attempt to send it comes to.

use vstd::prelude::*;
use vstd::string::StringExecFns;

verus! {

/// The scheme word that opens the authorization value.
pub const AUTH_SCHEME: &'static str = "Splunk ";

/// The padding that closes the authorization value.
pub const AUTH_PADDING: &'static str = " ";

/// The content type of a forwarded event.
pub const JSON_CONTENT_TYPE: &'static str = "application/json";

/// The collector that events are forwarded to, and the token it knows the
/// relay by.
#[derive(Clone)]
pub struct Service {
    pub(crate) url: String,
    pub(crate) token: String,
}

/// One outbound POST, ready to be sent: where it goes, the values of its
/// `Authorization` and `Content-Type` headers, and its body.
pub struct ForwardRequest {
    pub url: String,
    pub authorization: String,
    pub content_type: String,
    pub body: String,
}

/// What the transport reports of one attempt to send a request.
#[derive(Debug)]
pub enum TransportReply {
    /// The collector answered, with this status and this body.
    Answered { status_code: u16, body_text: String },
    /// No answer was had: the connection could not be made or broke.
    Failed { reason: String },
}

/// The answer of the collector, returned to the caller as data whatever its
/// status.
#[derive(Debug)]
pub struct ForwardOutcome {
    pub status_code: u16,
    pub body_text: String,
}

/// Why forwarding yielded no answer.
#[derive(Debug)]
pub enum ForwardError {
    /// The failure lies below HTTP: name resolution, connection, handshake
    /// or timeout.
    TransportError(String),
}

impl Service {
    /// The address of the collector.
    pub closed spec fn endpoint(&self) -> Seq<char> {
        self.url@
    }

    /// The token that the collector knows the relay by.
    pub closed spec fn auth_token(&self) -> Seq<char> {
        self.token@
    }

    /// A forwarder for the collector at `url`, authorized by `token`.
    pub fn new(url: String, token: String) -> (service: Service)
        ensures
            service.endpoint() == url@,
            service.auth_token() == token@,
    {
        Service { url, token }
    }

    /// The POST that forwards one serialized event: to the collector's
    /// address, authorized by the scheme word, the token and one space of
    /// padding, with the event as its JSON body.
    pub fn request(&self, event: String) -> (request: ForwardRequest)
        ensures
            request.url@ == self.endpoint(),
            request.authorization@ == AUTH_SCHEME@ + self.auth_token() + AUTH_PADDING@,
            request.content_type@ == JSON_CONTENT_TYPE@,
            request.body@ == event@,
    {
        let mut authorization = AUTH_SCHEME.to_owned();
        authorization.append(self.token.as_str());
        authorization.append(AUTH_PADDING);
        ForwardRequest {
            url: self.url.clone(),
            authorization,
            content_type: JSON_CONTENT_TYPE.to_owned(),
            body: event,
        }
    }
}

/// What one attempt to forward comes to. Any answer of the collector is an
/// outcome, a status of 400 or 500 as much as one of 200; only an attempt
/// without an answer is an error.
pub open spec fn forwarding_result(reply: TransportReply) -> Result<ForwardOutcome, ForwardError> {
    match reply {
        TransportReply::Answered { status_code, body_text } => Ok(
            ForwardOutcome { status_code, body_text },
        ),
        TransportReply::Failed { reason } => Err(ForwardError::TransportError(reason)),
    }
}

/// Turns the report of the transport into the result of forwarding.
pub fn forward_outcome(reply: TransportReply) -> (outcome: Result<ForwardOutcome, ForwardError>)
    ensures
        outcome == forwarding_result(reply),
{
    match reply {
        TransportReply::Answered { status_code, body_text } => Ok(
            ForwardOutcome { status_code, body_text },
        ),
        TransportReply::Failed { reason } => Err(ForwardError::TransportError(reason)),
    }
}

} // verus!
