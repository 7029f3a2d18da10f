//! Wire-only envelope types: the sendable mirrors of the caller-facing
//! events, each carrying the account's `routing_key` and, for alerts, an
//! explicit `event_action`.
//!
//! Enrichment is the only way these are built: it copies the caller's
//! fields verbatim and injects the configured integration key, so a caller
//! can never choose the routing key of an envelope. Envelopes are
//! constructed, serialized and discarded within one dispatch call.

use vstd::prelude::*;

use crate::json::push_quoted;
use crate::json::quoted;
use crate::types::json_of_action;
use crate::types::json_of_alert_trigger_payload;
use crate::types::json_of_change_payload;
use crate::types::opt_images_field;
use crate::types::opt_links_field;
use crate::types::opt_str_field;
use crate::types::push_alert_trigger_payload;
use crate::types::push_change_payload;
use crate::types::push_opt_images_field;
use crate::types::push_opt_links_field;
use crate::types::push_opt_str_field;
use crate::types::Action;
use crate::types::AlertTrigger;
use crate::types::AlertTriggerPayload;
use crate::types::Change;
use crate::types::ChangePayload;
use crate::types::Images;
use crate::types::Links;

verus! {

/// The JSON encoding of a change envelope, from its parts: the routing
/// key first, then the payload, then the links only when set.
pub open spec fn sendable_change_json(
    key: Seq<char>,
    payload: ChangePayload,
    links: Option<Links>,
) -> Seq<char> {
    "{\"routing_key\":"@ + quoted(key) + ",\"payload\":"@ + json_of_change_payload(payload)
        + opt_links_field(links) + "}"@
}

/// The JSON encoding of an alert trigger envelope, from its parts: the
/// routing key first, the payload, the optional fields each exactly when
/// set, and the explicit `event_action` tag.
pub open spec fn sendable_alert_trigger_json(
    key: Seq<char>,
    payload: AlertTriggerPayload,
    dedup_key: Option<String>,
    images: Option<Images>,
    links: Option<Links>,
    event_action: Action,
    client: Option<String>,
    client_url: Option<String>,
) -> Seq<char> {
    "{\"routing_key\":"@ + quoted(key) + ",\"payload\":"@ + json_of_alert_trigger_payload(payload)
        + opt_str_field(",\"dedup_key\":"@, dedup_key) + opt_images_field(images)
        + opt_links_field(links) + ",\"event_action\":"@ + json_of_action(event_action)
        + opt_str_field(",\"client\":"@, client) + opt_str_field(",\"client_url\":"@, client_url)
        + "}"@
}

/// The JSON encoding of a follow-up envelope: the routing key, the dedup
/// key and the `event_action` tag, nothing else.
pub open spec fn sendable_alert_followup_json(
    key: Seq<char>,
    dedup_key: Seq<char>,
    event_action: Action,
) -> Seq<char> {
    "{\"routing_key\":"@ + quoted(key) + ",\"dedup_key\":"@ + quoted(dedup_key)
        + ",\"event_action\":"@ + json_of_action(event_action) + "}"@
}

/// The change envelope: a change event plus the account's routing key.
#[derive(Debug)]
pub struct SendableChange {
    /// The integration key for an integration on a service or on a global
    /// ruleset; always the one the client was configured with.
    pub routing_key: String,
    /// Payload for the change event.
    pub payload: ChangePayload,
    /// List of links to include.
    pub links: Option<Links>,
}

/// The JSON encoding of a change envelope.
pub open spec fn json_of_sendable_change(sc: SendableChange) -> Seq<char> {
    sendable_change_json(sc.routing_key@, sc.payload, sc.links)
}

impl SendableChange {
    /// The payload's timestamp names an actual instant.
    pub open spec fn well_formed(&self) -> bool {
        self.payload.well_formed()
    }

    /// Enriches a change event: the payload and links are taken verbatim,
    /// and the routing key is the given integration key.
    pub fn from_change(change: Change, integration_key: String) -> (r: Self)
        ensures
            r.routing_key == integration_key,
            r.payload == change.payload,
            r.links == change.links,
    {
        SendableChange { routing_key: integration_key, links: change.links, payload: change.payload }
    }

    /// The JSON encoding of this envelope.
    pub fn to_json(&self) -> (r: String)
        requires
            self.well_formed(),
        ensures
            r@ == json_of_sendable_change(*self),
    {
        let mut out = String::new();
        out.append("{\"routing_key\":");
        push_quoted(&mut out, self.routing_key.as_str());
        out.append(",\"payload\":");
        push_change_payload(&mut out, &self.payload);
        push_opt_links_field(&mut out, &self.links);
        out.append("}");
        proof {
            assert(out@ =~= json_of_sendable_change(*self));
        }
        out
    }
}

/// The alert trigger envelope: an alert trigger plus the account's
/// routing key and the explicit `event_action` tag.
#[derive(Debug)]
pub struct SendableAlertTrigger {
    /// The integration key for an integration on a service or on a global
    /// ruleset; always the one the client was configured with.
    pub routing_key: String,
    /// The payload for this alert.
    pub payload: AlertTriggerPayload,
    /// Deduplication key for correlating triggers and resolves.
    pub dedup_key: Option<String>,
    /// List of images to include.
    pub images: Option<Images>,
    /// List of links to include.
    pub links: Option<Links>,
    /// The lifecycle verb; enrichment of a trigger always sets `Trigger`.
    pub event_action: Action,
    /// Name of the client creating this event.
    pub client: Option<String>,
    /// URL of the client's homepage.
    pub client_url: Option<String>,
}

/// The JSON encoding of an alert trigger envelope.
pub open spec fn json_of_sendable_alert_trigger(st: SendableAlertTrigger) -> Seq<char> {
    sendable_alert_trigger_json(
        st.routing_key@,
        st.payload,
        st.dedup_key,
        st.images,
        st.links,
        st.event_action,
        st.client,
        st.client_url,
    )
}

impl SendableAlertTrigger {
    /// The payload's timestamp, when set, names an actual instant.
    pub open spec fn well_formed(&self) -> bool {
        self.payload.well_formed()
    }

    /// Enriches an alert trigger: every field is taken verbatim, the
    /// routing key is the given integration key, and the action is
    /// `Trigger`.
    pub fn from_alert_trigger(alert_trigger: AlertTrigger, integration_key: String) -> (r: Self)
        ensures
            r.routing_key == integration_key,
            r.event_action == Action::Trigger,
            r.payload == alert_trigger.payload,
            r.dedup_key == alert_trigger.dedup_key,
            r.images == alert_trigger.images,
            r.links == alert_trigger.links,
            r.client == alert_trigger.client,
            r.client_url == alert_trigger.client_url,
    {
        SendableAlertTrigger {
            routing_key: integration_key,
            event_action: Action::Trigger,
            dedup_key: alert_trigger.dedup_key,
            images: alert_trigger.images,
            links: alert_trigger.links,
            payload: alert_trigger.payload,
            client: alert_trigger.client,
            client_url: alert_trigger.client_url,
        }
    }

    /// The JSON encoding of this envelope.
    #[verifier::rlimit(50)]
    pub fn to_json(&self) -> (r: String)
        requires
            self.well_formed(),
        ensures
            r@ == json_of_sendable_alert_trigger(*self),
    {
        let mut out = String::new();
        out.append("{\"routing_key\":");
        push_quoted(&mut out, self.routing_key.as_str());
        out.append(",\"payload\":");
        push_alert_trigger_payload(&mut out, &self.payload);
        push_opt_str_field(&mut out, ",\"dedup_key\":", &self.dedup_key);
        push_opt_images_field(&mut out, &self.images);
        push_opt_links_field(&mut out, &self.links);
        out.append(",\"event_action\":");
        self.event_action.push_json(&mut out);
        push_opt_str_field(&mut out, ",\"client\":", &self.client);
        push_opt_str_field(&mut out, ",\"client_url\":", &self.client_url);
        out.append("}");
        proof {
            assert(out@ =~= json_of_sendable_alert_trigger(*self));
        }
        out
    }
}

/// The follow-up envelope shared by acknowledge and resolve: enrichment
/// discards everything except the dedup key and sets the matching action.
#[derive(Debug)]
pub struct SendableAlertFollowup {
    /// The integration key for an integration on a service or on a global
    /// ruleset; always the one the client was configured with.
    pub routing_key: String,
    /// The dedup key of the incident this follow-up refers to.
    pub dedup_key: String,
    /// The lifecycle verb: `Acknowledge` or `Resolve`.
    pub event_action: Action,
}

/// The JSON encoding of a follow-up envelope.
pub open spec fn json_of_sendable_alert_followup(sf: SendableAlertFollowup) -> Seq<char> {
    sendable_alert_followup_json(sf.routing_key@, sf.dedup_key@, sf.event_action)
}

impl SendableAlertFollowup {
    /// Builds a follow-up envelope: the dedup key and action are taken as
    /// given, and the routing key is the given integration key.
    pub fn new(dedup_key: String, action: Action, integration_key: String) -> (r: Self)
        ensures
            r.routing_key == integration_key,
            r.dedup_key == dedup_key,
            r.event_action == action,
    {
        SendableAlertFollowup { routing_key: integration_key, event_action: action, dedup_key }
    }

    /// The JSON encoding of this envelope.
    pub fn to_json(&self) -> (r: String)
        ensures
            r@ == json_of_sendable_alert_followup(*self),
    {
        let mut out = String::new();
        out.append("{\"routing_key\":");
        push_quoted(&mut out, self.routing_key.as_str());
        out.append(",\"dedup_key\":");
        push_quoted(&mut out, self.dedup_key.as_str());
        out.append(",\"event_action\":");
        self.event_action.push_json(&mut out);
        out.append("}");
        proof {
            assert(out@ =~= json_of_sendable_alert_followup(*self));
        }
        out
    }
}

} // verus!
