//! The Events V2 client core: endpoint routing, the error taxonomy,
//! response classification, and the dispatch that turns a caller's event
//! into a wire-ready request.
//!
//! The client holds only immutable configuration after construction: the
//! integration key and an optional user agent. `prepare` is a pure
//! function of that configuration and the event, so concurrent callers
//! can share one client without coordination; the one HTTP POST per call
//! is left to the surrounding program, which feeds the outcome back into
//! `classify_outcome`.

use vstd::prelude::*;

use crate::json::dec_rep;
use crate::json::push_u64;
use crate::json::quoted;
use crate::private_types::sendable_alert_followup_json;
use crate::private_types::sendable_alert_trigger_json;
use crate::private_types::sendable_change_json;
use crate::private_types::SendableAlertFollowup;
use crate::private_types::SendableAlertTrigger;
use crate::private_types::SendableChange;
use crate::types::json_of_action;
use crate::types::json_of_alert_trigger_payload;
use crate::types::json_of_change_payload;
use crate::types::opt_images_field;
use crate::types::opt_links_field;
use crate::types::opt_str_field;
use crate::types::Action;
use crate::types::AlertTrigger;
use crate::types::Change;
use crate::types::Event;

verus! {

/// The two fixed endpoints of the Events V2 service.
#[derive(Clone, Copy, PartialEq, Eq, Structural, Debug)]
pub enum Endpoint {
    /// Receives alert events: trigger, acknowledge and resolve.
    AlertEnqueue,
    /// Receives change events.
    ChangeEnqueue,
}

impl Endpoint {
    /// The full URL the endpoint is reached under.
    pub fn url(&self) -> (r: &'static str)
        ensures
            *self is AlertEnqueue ==> r@ == "https://events.pagerduty.com/v2/enqueue"@,
            *self is ChangeEnqueue ==> r@ == "https://events.pagerduty.com/v2/change/enqueue"@,
    {
        match self {
            Endpoint::AlertEnqueue => "https://events.pagerduty.com/v2/enqueue",
            Endpoint::ChangeEnqueue => "https://events.pagerduty.com/v2/change/enqueue",
        }
    }
}

/// The endpoint an event is routed to: change events go to the change
/// endpoint, all alert events to the alert endpoint. This mapping is a
/// fixed table, not caller-configurable.
pub open spec fn endpoint_of(e: Event) -> Endpoint {
    match e {
        Event::Change(_) => Endpoint::ChangeEnqueue,
        Event::AlertTrigger(_) => Endpoint::AlertEnqueue,
        Event::AlertAcknowledge(_) => Endpoint::AlertEnqueue,
        Event::AlertResolve(_) => Endpoint::AlertEnqueue,
    }
}

/// A change event is routed to the change endpoint and any other event to
/// the alert endpoint, always and only.
pub proof fn lemma_endpoint_routing(e: Event)
    ensures
        endpoint_of(e) is ChangeEnqueue <==> e is Change,
        endpoint_of(e) is AlertEnqueue <==> !(e is Change),
{
}

/// Everything that can go wrong with one call.
///
/// Exactly one of these is returned on failure; the library performs no
/// internal recovery, retry or suppression.
#[derive(Debug)]
pub enum EventsV2Error {
    /// The payload could not be encoded. Surfaced before any network
    /// attempt is made.
    SerializationError(String),
    /// A failure before any response was obtained: name resolution,
    /// connection refusal, TLS or protocol failure. Carries the
    /// underlying cause.
    TransportError(String),
    /// A conventional error status from the service, 400 through 599.
    /// Carries the status code for caller-driven retry policy.
    HttpError(u16),
    /// Any other status than the documented 202: the service accepted
    /// nothing, but the status is not a conventional error either, which
    /// may indicate a protocol mismatch rather than a request problem.
    NotAccepted(u16),
}

/// What one call returns: success carries no value.
pub type EventsV2Result = Result<(), EventsV2Error>;

/// The message text of an error.
pub open spec fn message_of(e: EventsV2Error) -> Seq<char> {
    match e {
        EventsV2Error::SerializationError(m) => "SerializationError: "@ + m@,
        EventsV2Error::TransportError(m) => "TransportError: "@ + m@,
        EventsV2Error::HttpError(c) => "HttpError with Status Code "@ + dec_rep(c as nat),
        EventsV2Error::NotAccepted(c) => "Http Status Code was other than 202 (Accepted): "@
            + dec_rep(c as nat),
    }
}

impl EventsV2Error {
    /// The error rendered as text, for display by the caller.
    pub fn to_message(&self) -> (r: String)
        ensures
            r@ == message_of(*self),
    {
        let mut out = String::new();
        match self {
            EventsV2Error::SerializationError(m) => {
                out.append("SerializationError: ");
                out.append(m.as_str());
            },
            EventsV2Error::TransportError(m) => {
                out.append("TransportError: ");
                out.append(m.as_str());
            },
            EventsV2Error::HttpError(c) => {
                out.append("HttpError with Status Code ");
                push_u64(&mut out, *c as u64);
            },
            EventsV2Error::NotAccepted(c) => {
                out.append("Http Status Code was other than 202 (Accepted): ");
                push_u64(&mut out, *c as u64);
            },
        }
        out
    }
}

/// How an HTTP status from the service is classified: 202 is the sole
/// success code; 400 through 599 is a conventional error; anything else
/// was not accepted.
pub open spec fn classification_of(status: u16) -> EventsV2Result {
    if status == 202 {
        Ok(())
    } else if 400 <= status < 600 {
        Err(EventsV2Error::HttpError(status))
    } else {
        Err(EventsV2Error::NotAccepted(status))
    }
}

/// Classifies the HTTP status of a response the service returned.
pub fn classify_response(status: u16) -> (r: EventsV2Result)
    ensures
        r == classification_of(status),
        r is Ok <==> status == 202,
{
    if status == 202 {
        Ok(())
    } else if 400 <= status && status < 600 {
        Err(EventsV2Error::HttpError(status))
    } else {
        Err(EventsV2Error::NotAccepted(status))
    }
}

/// Classifies the outcome of one POST: either a response status, or the
/// text of a failure that happened before any response was obtained.
pub fn classify_outcome(outcome: Result<u16, String>) -> (r: EventsV2Result)
    ensures
        outcome matches Ok(status) ==> r == classification_of(status),
        outcome matches Err(cause) ==> r == Err::<(), EventsV2Error>(
            EventsV2Error::TransportError(cause),
        ),
        r is Ok <==> outcome == Ok::<u16, String>(202u16),
{
    match outcome {
        Result::Ok(status) => classify_response(status),
        Result::Err(cause) => Err(EventsV2Error::TransportError(cause)),
    }
}

/// The body of the envelope an event is enriched into, given the
/// account's integration key: the event's own fields verbatim, the key as
/// `routing_key`, and for alerts the matching `event_action`.
pub open spec fn envelope_json(e: Event, key: Seq<char>) -> Seq<char> {
    match e {
        Event::Change(c) => sendable_change_json(key, c.payload, c.links),
        Event::AlertTrigger(a) => sendable_alert_trigger_json(
            key,
            a.payload,
            a.dedup_key,
            a.images,
            a.links,
            Action::Trigger,
            a.client,
            a.client_url,
        ),
        Event::AlertAcknowledge(aa) => sendable_alert_followup_json(
            key,
            aa.dedup_key@,
            Action::Acknowledge,
        ),
        Event::AlertResolve(ar) => sendable_alert_followup_json(
            key,
            ar.dedup_key@,
            Action::Resolve,
        ),
    }
}

/// What follows the routing key in an envelope's body. It is a function
/// of the event alone: no part of it depends on the key.
pub open spec fn envelope_tail(e: Event) -> Seq<char> {
    match e {
        Event::Change(c) => ",\"payload\":"@ + json_of_change_payload(c.payload)
            + opt_links_field(c.links) + "}"@,
        Event::AlertTrigger(a) => ",\"payload\":"@ + json_of_alert_trigger_payload(
            a.payload,
        ) + opt_str_field(",\"dedup_key\":"@, a.dedup_key)
            + opt_images_field(a.images) + opt_links_field(a.links)
            + ",\"event_action\":"@ + json_of_action(Action::Trigger)
            + opt_str_field(",\"client\":"@, a.client) + opt_str_field(
            ",\"client_url\":"@,
            a.client_url,
        ) + "}"@,
        Event::AlertAcknowledge(aa) => ",\"dedup_key\":"@ + quoted(aa.dedup_key@)
            + ",\"event_action\":"@ + json_of_action(Action::Acknowledge) + "}"@,
        Event::AlertResolve(ar) => ",\"dedup_key\":"@ + quoted(ar.dedup_key@)
            + ",\"event_action\":"@ + json_of_action(Action::Resolve) + "}"@,
    }
}

/// Every envelope's body is the configured integration key, quoted as its
/// `routing_key` member, followed by a tail that is a function of the
/// event alone: whatever the event holds, a caller cannot override the
/// key, and no other part of the body depends on it.
#[verifier::rlimit(50)]
pub proof fn lemma_routing_key_injected(e: Event, key: Seq<char>)
    ensures
        envelope_json(e, key) == "{\"routing_key\":"@ + quoted(key) + envelope_tail(e),
{
    match e {
        Event::Change(_) => {
            assert(envelope_json(e, key) =~= "{\"routing_key\":"@ + quoted(key) + envelope_tail(
                e,
            ));
        },
        Event::AlertTrigger(_) => {
            assert(envelope_json(e, key) =~= "{\"routing_key\":"@ + quoted(key) + envelope_tail(
                e,
            ));
        },
        Event::AlertAcknowledge(_) => {
            assert(envelope_json(e, key) =~= "{\"routing_key\":"@ + quoted(key) + envelope_tail(
                e,
            ));
        },
        Event::AlertResolve(_) => {
            assert(envelope_json(e, key) =~= "{\"routing_key\":"@ + quoted(key) + envelope_tail(
                e,
            ));
        },
    }
}

/// One wire-ready request: the endpoint to POST to and the JSON body.
#[derive(Debug)]
pub struct PreparedEvent {
    /// Which of the two fixed endpoints receives this request.
    pub endpoint: Endpoint,
    /// The JSON serialization of the enriched envelope.
    pub body: String,
}

/// The main PagerDuty Events V2 API client.
///
/// It holds only immutable configuration after construction and is safe
/// to share across concurrent call sites without coordination.
#[derive(Debug)]
pub struct EventsV2 {
    /// The integration, or routing, key for a generated service.
    pub integration_key: String,
    /// The user agent header value to send, constant for the client's
    /// lifetime, or nothing to send none.
    pub user_agent: Option<String>,
}

impl EventsV2 {
    /// Builds a client from its configuration. Construction always
    /// succeeds; the `Result` is the shape callers program against.
    pub fn new(integration_key: String, user_agent: Option<String>) -> (r: Result<
        EventsV2,
        EventsV2Error,
    >)
        ensures
            r matches Ok(c) && c.integration_key == integration_key && c.user_agent == user_agent,
    {
        Ok(EventsV2 { integration_key, user_agent })
    }

    /// Enriches and serializes a change event.
    fn change(&self, change: Change) -> (r: PreparedEvent)
        requires
            change.well_formed(),
        ensures
            r.endpoint == Endpoint::ChangeEnqueue,
            r.body@ == sendable_change_json(self.integration_key@, change.payload, change.links),
    {
        let sendable_change = SendableChange::from_change(change, self.integration_key.clone());
        PreparedEvent { endpoint: Endpoint::ChangeEnqueue, body: sendable_change.to_json() }
    }

    /// Enriches and serializes an alert trigger.
    fn alert_trigger(&self, alert_trigger: AlertTrigger) -> (r: PreparedEvent)
        requires
            alert_trigger.well_formed(),
        ensures
            r.endpoint == Endpoint::AlertEnqueue,
            r.body@ == sendable_alert_trigger_json(
                self.integration_key@,
                alert_trigger.payload,
                alert_trigger.dedup_key,
                alert_trigger.images,
                alert_trigger.links,
                Action::Trigger,
                alert_trigger.client,
                alert_trigger.client_url,
            ),
    {
        let sendable_alert_trigger = SendableAlertTrigger::from_alert_trigger(
            alert_trigger,
            self.integration_key.clone(),
        );
        PreparedEvent { endpoint: Endpoint::AlertEnqueue, body: sendable_alert_trigger.to_json() }
    }

    /// Builds and serializes a follow-up envelope.
    fn alert_followup(&self, dedup_key: String, action: Action) -> (r: PreparedEvent)
        ensures
            r.endpoint == Endpoint::AlertEnqueue,
            r.body@ == sendable_alert_followup_json(self.integration_key@, dedup_key@, action),
    {
        let sendable_alert_followup = SendableAlertFollowup::new(
            dedup_key,
            action,
            self.integration_key.clone(),
        );
        PreparedEvent { endpoint: Endpoint::AlertEnqueue, body: sendable_alert_followup.to_json() }
    }

    /// Turns a caller's event into the one wire-ready request that sends
    /// it: dispatch on the variant, enrichment with this client's
    /// integration key, and serialization. Performs no I/O and depends on
    /// nothing but this client's configuration and the event.
    pub fn prepare(&self, event: Event) -> (r: PreparedEvent)
        requires
            event.well_formed(),
        ensures
            r.endpoint == endpoint_of(event),
            r.endpoint is ChangeEnqueue <==> event is Change,
            r.body@ == envelope_json(event, self.integration_key@),
    {
        match event {
            Event::Change(c) => self.change(c),
            Event::AlertTrigger(at) => self.alert_trigger(at),
            Event::AlertAcknowledge(aa) => self.alert_followup(aa.dedup_key, Action::Acknowledge),
            Event::AlertResolve(ar) => self.alert_followup(ar.dedup_key, Action::Resolve),
        }
    }
}

} // verus!
