//! The caller-facing event model: severities, actions, links, images,
//! change and alert payloads, and the `Event` union that a client submits.
//!
//! Every type carries a character-exact specification of its JSON wire
//! encoding. Optional fields appear in the encoding exactly when they are
//! set; no key is ever emitted with a `null` value. The enumerations
//! serialize as fixed lowercase tokens, which is part of the service's
//! wire contract.

use vstd::prelude::*;

use crate::json::push_char;
use crate::json::push_quoted;
use crate::json::quoted;
use crate::timestamp::rfc3339_of;
use crate::timestamp::Timestamp;
use crate::value::json_of_value;
use crate::value::Value;

verus! {

/// The perceived severity of the impact to the affected system.
#[derive(Clone, Copy, PartialEq, Eq, Structural, Debug)]
pub enum Severity {
    Info,
    Warning,
    Error,
    Critical,
}

/// The JSON encoding of a severity: a fixed lowercase token in quotes.
pub open spec fn json_of_severity(s: Severity) -> Seq<char> {
    match s {
        Severity::Info => "\"info\""@,
        Severity::Warning => "\"warning\""@,
        Severity::Error => "\"error\""@,
        Severity::Critical => "\"critical\""@,
    }
}

impl Severity {
    /// Appends the JSON encoding of this severity.
    pub(crate) fn push_json(&self, out: &mut String)
        ensures
            final(out)@ == old(out)@ + json_of_severity(*self),
    {
        match self {
            Severity::Info => out.append("\"info\""),
            Severity::Warning => out.append("\"warning\""),
            Severity::Error => out.append("\"error\""),
            Severity::Critical => out.append("\"critical\""),
        }
    }
}

/// The lifecycle verb attached to alert envelopes.
///
/// `Trigger` opens an incident (or adds a trigger entry to one with the
/// same dedup key), `Acknowledge` marks it as being worked on, and
/// `Resolve` closes it.
#[derive(Clone, Copy, PartialEq, Eq, Structural, Debug)]
pub enum Action {
    Trigger,
    Acknowledge,
    Resolve,
}

/// The JSON encoding of an action: a fixed lowercase token in quotes.
pub open spec fn json_of_action(a: Action) -> Seq<char> {
    match a {
        Action::Trigger => "\"trigger\""@,
        Action::Acknowledge => "\"acknowledge\""@,
        Action::Resolve => "\"resolve\""@,
    }
}

impl Action {
    /// Appends the JSON encoding of this action.
    pub(crate) fn push_json(&self, out: &mut String)
        ensures
            final(out)@ == old(out)@ + json_of_action(*self),
    {
        match self {
            Action::Trigger => out.append("\"trigger\""),
            Action::Acknowledge => out.append("\"acknowledge\""),
            Action::Resolve => out.append("\"resolve\""),
        }
    }
}

/// An optional string member: when set, the given prefix (a comma, the
/// quoted key and a colon) followed by the quoted value; when absent,
/// nothing at all.
pub open spec fn opt_str_field(prefix: Seq<char>, o: Option<String>) -> Seq<char> {
    if o is Some {
        prefix + quoted(o->0@)
    } else {
        Seq::<char>::empty()
    }
}

/// Appends an optional string member.
pub(crate) fn push_opt_str_field(out: &mut String, prefix: &str, o: &Option<String>)
    ensures
        final(out)@ == old(out)@ + opt_str_field(prefix@, *o),
{
    match o {
        Option::Some(s) => {
            out.append(prefix);
            push_quoted(out, s.as_str());
            proof {
                assert(final(out)@ =~= old(out)@ + opt_str_field(prefix@, *o));
            }
        },
        Option::None => {},
    }
}

/// A link attached to an event.
#[derive(Debug)]
pub struct Link {
    /// URL of the link to be attached.
    pub href: String,
    /// Plain text describing the purpose of the link.
    pub text: Option<String>,
}

pub type Links = Vec<Link>;

/// An image attached to an event.
#[derive(Debug)]
pub struct Image {
    /// The source URL of the image; the service requires HTTPS.
    pub src: String,
    /// Optional URL; makes the image a clickable link.
    pub href: Option<String>,
    /// Optional alternative text for the image.
    pub alt: Option<String>,
}

pub type Images = Vec<Image>;

/// The JSON encoding of a link: `href` always, `text` only when set.
pub open spec fn json_of_link(l: Link) -> Seq<char> {
    "{\"href\":"@ + quoted(l.href@) + opt_str_field(",\"text\":"@, l.text) + "}"@
}

/// The JSON encoding of the first `j` links of a list, comma separated.
pub open spec fn json_of_links_upto(ls: Vec<Link>, j: int) -> Seq<char>
    decreases j,
{
    if j <= 0 {
        Seq::<char>::empty()
    } else if j == 1 {
        json_of_link(ls@[0])
    } else {
        json_of_links_upto(ls, j - 1) + seq![','] + json_of_link(ls@[j - 1])
    }
}

/// The JSON encoding of a list of links.
pub open spec fn json_of_links(ls: Vec<Link>) -> Seq<char> {
    seq!['['] + json_of_links_upto(ls, ls@.len() as int) + seq![']']
}

/// The JSON encoding of an image: `src` always, `href` and `alt` only
/// when set.
pub open spec fn json_of_image(im: Image) -> Seq<char> {
    "{\"src\":"@ + quoted(im.src@) + opt_str_field(",\"href\":"@, im.href) + opt_str_field(
        ",\"alt\":"@,
        im.alt,
    ) + "}"@
}

/// The JSON encoding of the first `j` images of a list, comma separated.
pub open spec fn json_of_images_upto(ims: Vec<Image>, j: int) -> Seq<char>
    decreases j,
{
    if j <= 0 {
        Seq::<char>::empty()
    } else if j == 1 {
        json_of_image(ims@[0])
    } else {
        json_of_images_upto(ims, j - 1) + seq![','] + json_of_image(ims@[j - 1])
    }
}

/// The JSON encoding of a list of images.
pub open spec fn json_of_images(ims: Vec<Image>) -> Seq<char> {
    seq!['['] + json_of_images_upto(ims, ims@.len() as int) + seq![']']
}

/// Appends the JSON encoding of one link.
pub(crate) fn push_link(out: &mut String, l: &Link)
    ensures
        final(out)@ == old(out)@ + json_of_link(*l),
{
    out.append("{\"href\":");
    push_quoted(out, l.href.as_str());
    push_opt_str_field(out, ",\"text\":", &l.text);
    out.append("}");
    proof {
        assert(final(out)@ =~= old(out)@ + json_of_link(*l));
    }
}

/// Appends the JSON encoding of a list of links.
pub(crate) fn push_links(out: &mut String, ls: &Vec<Link>)
    ensures
        final(out)@ == old(out)@ + json_of_links(*ls),
{
    push_char(out, '[');
    let n: usize = ls.len();
    let mut j: usize = 0;
    while j < n
        invariant
            j <= n,
            n == ls@.len(),
            out@ == old(out)@ + seq!['['] + json_of_links_upto(*ls, j as int),
        decreases n - j,
    {
        if j > 0 {
            push_char(out, ',');
        }
        push_link(out, &ls[j]);
        proof {
            assert(out@ =~= old(out)@ + seq!['['] + json_of_links_upto(*ls, j as int + 1));
        }
        j = j + 1;
    }
    push_char(out, ']');
}

/// Appends the JSON encoding of one image.
pub(crate) fn push_image(out: &mut String, im: &Image)
    ensures
        final(out)@ == old(out)@ + json_of_image(*im),
{
    out.append("{\"src\":");
    push_quoted(out, im.src.as_str());
    push_opt_str_field(out, ",\"href\":", &im.href);
    push_opt_str_field(out, ",\"alt\":", &im.alt);
    out.append("}");
    proof {
        assert(final(out)@ =~= old(out)@ + json_of_image(*im));
    }
}

/// Appends the JSON encoding of a list of images.
pub(crate) fn push_images(out: &mut String, ims: &Vec<Image>)
    ensures
        final(out)@ == old(out)@ + json_of_images(*ims),
{
    push_char(out, '[');
    let n: usize = ims.len();
    let mut j: usize = 0;
    while j < n
        invariant
            j <= n,
            n == ims@.len(),
            out@ == old(out)@ + seq!['['] + json_of_images_upto(*ims, j as int),
        decreases n - j,
    {
        if j > 0 {
            push_char(out, ',');
        }
        push_image(out, &ims[j]);
        proof {
            assert(out@ =~= old(out)@ + seq!['['] + json_of_images_upto(*ims, j as int + 1));
        }
        j = j + 1;
    }
    push_char(out, ']');
}

/// An optional list-of-links member.
pub open spec fn opt_links_field(o: Option<Links>) -> Seq<char> {
    if o is Some {
        ",\"links\":"@ + json_of_links(o->0)
    } else {
        Seq::<char>::empty()
    }
}

/// Appends an optional list-of-links member.
pub(crate) fn push_opt_links_field(out: &mut String, o: &Option<Links>)
    ensures
        final(out)@ == old(out)@ + opt_links_field(*o),
{
    match o {
        Option::Some(ls) => {
            out.append(",\"links\":");
            push_links(out, ls);
            proof {
                assert(final(out)@ =~= old(out)@ + opt_links_field(*o));
            }
        },
        Option::None => {},
    }
}

/// An optional list-of-images member.
pub open spec fn opt_images_field(o: Option<Images>) -> Seq<char> {
    if o is Some {
        ",\"images\":"@ + json_of_images(o->0)
    } else {
        Seq::<char>::empty()
    }
}

/// Appends an optional list-of-images member.
pub(crate) fn push_opt_images_field(out: &mut String, o: &Option<Images>)
    ensures
        final(out)@ == old(out)@ + opt_images_field(*o),
{
    match o {
        Option::Some(ims) => {
            out.append(",\"images\":");
            push_images(out, ims);
            proof {
                assert(final(out)@ =~= old(out)@ + opt_images_field(*o));
            }
        },
        Option::None => {},
    }
}

/// An optional `custom_details` member.
pub open spec fn opt_details_field(o: Option<Value>) -> Seq<char> {
    if o is Some {
        ",\"custom_details\":"@ + json_of_value(o->0)
    } else {
        Seq::<char>::empty()
    }
}

/// Appends an optional `custom_details` member.
pub(crate) fn push_opt_details_field(out: &mut String, o: &Option<Value>)
    ensures
        final(out)@ == old(out)@ + opt_details_field(*o),
{
    match o {
        Option::Some(v) => {
            out.append(",\"custom_details\":");
            v.push_json(out);
            proof {
                assert(final(out)@ =~= old(out)@ + opt_details_field(*o));
            }
        },
        Option::None => {},
    }
}

/// An optional `timestamp` member, rendered as RFC 3339 text in quotes.
pub open spec fn opt_timestamp_field(o: Option<Timestamp>) -> Seq<char> {
    if o is Some {
        ",\"timestamp\":\""@ + rfc3339_of(o->0) + "\""@
    } else {
        Seq::<char>::empty()
    }
}

/// Appends an optional `timestamp` member.
pub(crate) fn push_opt_timestamp_field(out: &mut String, o: &Option<Timestamp>)
    requires
        o matches Some(t) ==> t.well_formed(),
    ensures
        final(out)@ == old(out)@ + opt_timestamp_field(*o),
{
    match o {
        Option::Some(t) => {
            out.append(",\"timestamp\":\"");
            t.push_rfc3339(out);
            out.append("\"");
            proof {
                assert(final(out)@ =~= old(out)@ + opt_timestamp_field(*o));
            }
        },
        Option::None => {},
    }
}

/// The payload of a change event.
#[derive(Debug)]
pub struct ChangePayload {
    /// A brief text summary of the event. The service documents a limit of
    /// 1024 characters; this library does not enforce it and defers to
    /// server-side rejection, as the service owns that rule.
    pub summary: String,
    /// The time at which the emitting tool detected or generated the event.
    pub timestamp: Timestamp,
    /// The unique name of the location where the change event occurred.
    pub source: Option<String>,
    /// Additional details about the event.
    pub custom_details: Option<Value>,
}

impl ChangePayload {
    /// The timestamp names an actual instant.
    pub open spec fn well_formed(&self) -> bool {
        self.timestamp.well_formed()
    }
}

/// The JSON encoding of a change payload: `summary` and `timestamp`
/// always, `source` and `custom_details` only when set.
pub open spec fn json_of_change_payload(p: ChangePayload) -> Seq<char> {
    "{\"summary\":"@ + quoted(p.summary@) + ",\"timestamp\":\""@ + rfc3339_of(p.timestamp) + "\""@
        + opt_str_field(",\"source\":"@, p.source) + opt_details_field(p.custom_details) + "}"@
}

/// Appends the JSON encoding of a change payload.
pub(crate) fn push_change_payload(out: &mut String, p: &ChangePayload)
    requires
        p.well_formed(),
    ensures
        final(out)@ == old(out)@ + json_of_change_payload(*p),
{
    out.append("{\"summary\":");
    push_quoted(out, p.summary.as_str());
    out.append(",\"timestamp\":\"");
    p.timestamp.push_rfc3339(out);
    out.append("\"");
    push_opt_str_field(out, ",\"source\":", &p.source);
    push_opt_details_field(out, &p.custom_details);
    out.append("}");
    proof {
        assert(final(out)@ =~= old(out)@ + json_of_change_payload(*p));
    }
}

/// A change event: a payload and an optional list of links.
///
/// Represents a one-shot change-tracking event; it has no lifecycle beyond
/// being sent once.
#[derive(Debug)]
pub struct Change {
    /// Payload for the change event.
    pub payload: ChangePayload,
    /// List of links to include.
    pub links: Option<Links>,
}

impl Change {
    /// The payload's timestamp names an actual instant.
    pub open spec fn well_formed(&self) -> bool {
        self.payload.well_formed()
    }
}

/// The JSON encoding of a change event: the payload always, `links` only
/// when set.
pub open spec fn json_of_change(c: Change) -> Seq<char> {
    "{\"payload\":"@ + json_of_change_payload(c.payload) + opt_links_field(c.links) + "}"@
}

impl Change {
    /// The JSON encoding of this change event.
    pub fn to_json(&self) -> (r: String)
        requires
            self.well_formed(),
        ensures
            r@ == json_of_change(*self),
    {
        let mut out = String::new();
        out.append("{\"payload\":");
        push_change_payload(&mut out, &self.payload);
        push_opt_links_field(&mut out, &self.links);
        out.append("}");
        proof {
            assert(out@ =~= json_of_change(*self));
        }
        out
    }
}

/// The payload of an alert trigger event.
#[derive(Debug)]
pub struct AlertTriggerPayload {
    /// The perceived severity of the status the event is describing.
    pub severity: Severity,
    /// A brief text summary of the event. The service documents a limit of
    /// 1024 characters; this library does not enforce it and defers to
    /// server-side rejection, as the service owns that rule.
    pub summary: String,
    /// The unique location of the affected system.
    pub source: String,
    /// The time at which the emitting tool detected or generated the event.
    pub timestamp: Option<Timestamp>,
    /// Component of the source machine responsible for the event.
    pub component: Option<String>,
    /// Logical grouping of components of a service.
    pub group: Option<String>,
    /// The class or type of the event.
    pub class: Option<String>,
    /// Additional details about the event and affected system.
    pub custom_details: Option<Value>,
}

impl AlertTriggerPayload {
    /// A set timestamp names an actual instant.
    pub open spec fn well_formed(&self) -> bool {
        self.timestamp matches Some(t) ==> t.well_formed()
    }
}

/// The JSON encoding of an alert trigger payload: `severity`, `summary`
/// and `source` always, every other field only when set.
pub open spec fn json_of_alert_trigger_payload(p: AlertTriggerPayload) -> Seq<char> {
    "{\"severity\":"@ + json_of_severity(p.severity) + ",\"summary\":"@ + quoted(p.summary@)
        + ",\"source\":"@ + quoted(p.source@) + opt_timestamp_field(p.timestamp) + opt_str_field(
        ",\"component\":"@,
        p.component,
    ) + opt_str_field(",\"group\":"@, p.group) + opt_str_field(",\"class\":"@, p.class)
        + opt_details_field(p.custom_details) + "}"@
}

/// Appends the JSON encoding of an alert trigger payload.
#[verifier::rlimit(50)]
pub(crate) fn push_alert_trigger_payload(out: &mut String, p: &AlertTriggerPayload)
    requires
        p.well_formed(),
    ensures
        final(out)@ == old(out)@ + json_of_alert_trigger_payload(*p),
{
    out.append("{\"severity\":");
    p.severity.push_json(out);
    out.append(",\"summary\":");
    push_quoted(out, p.summary.as_str());
    out.append(",\"source\":");
    push_quoted(out, p.source.as_str());
    push_opt_timestamp_field(out, &p.timestamp);
    push_opt_str_field(out, ",\"component\":", &p.component);
    push_opt_str_field(out, ",\"group\":", &p.group);
    push_opt_str_field(out, ",\"class\":", &p.class);
    push_opt_details_field(out, &p.custom_details);
    out.append("}");
    proof {
        assert(final(out)@ =~= old(out)@ + json_of_alert_trigger_payload(*p));
    }
}

/// An alert trigger event: opens or re-triggers an incident keyed by
/// `dedup_key`.
#[derive(Debug)]
pub struct AlertTrigger {
    /// The payload for this alert.
    pub payload: AlertTriggerPayload,
    /// Deduplication key correlating triggers with later acknowledges and
    /// resolves. The service documents a limit of 255 characters; this
    /// library does not enforce it and defers to server-side rejection.
    pub dedup_key: Option<String>,
    /// List of images to include.
    pub images: Option<Images>,
    /// List of links to include.
    pub links: Option<Links>,
    /// Name of the client creating this event.
    pub client: Option<String>,
    /// URL of the client's homepage.
    pub client_url: Option<String>,
}

impl AlertTrigger {
    /// The payload's timestamp, when set, names an actual instant.
    pub open spec fn well_formed(&self) -> bool {
        self.payload.well_formed()
    }
}

/// The JSON encoding of an alert trigger as the caller sees it: the
/// payload always, every other field only when set.
pub open spec fn json_of_alert_trigger(a: AlertTrigger) -> Seq<char> {
    "{\"payload\":"@ + json_of_alert_trigger_payload(a.payload) + opt_str_field(
        ",\"dedup_key\":"@,
        a.dedup_key,
    ) + opt_images_field(a.images) + opt_links_field(a.links) + opt_str_field(
        ",\"client\":"@,
        a.client,
    ) + opt_str_field(",\"client_url\":"@, a.client_url) + "}"@
}

impl AlertTrigger {
    /// The JSON encoding of this alert trigger.
    #[verifier::rlimit(50)]
    pub fn to_json(&self) -> (r: String)
        requires
            self.well_formed(),
        ensures
            r@ == json_of_alert_trigger(*self),
    {
        let mut out = String::new();
        out.append("{\"payload\":");
        push_alert_trigger_payload(&mut out, &self.payload);
        push_opt_str_field(&mut out, ",\"dedup_key\":", &self.dedup_key);
        push_opt_images_field(&mut out, &self.images);
        push_opt_links_field(&mut out, &self.links);
        push_opt_str_field(&mut out, ",\"client\":", &self.client);
        push_opt_str_field(&mut out, ",\"client_url\":", &self.client_url);
        out.append("}");
        proof {
            assert(out@ =~= json_of_alert_trigger(*self));
        }
        out
    }
}

/// Acknowledges the incident referenced by the dedup key.
#[derive(Debug)]
pub struct AlertAcknowledge {
    pub dedup_key: String,
}

/// Resolves the incident referenced by the dedup key.
#[derive(Debug)]
pub struct AlertResolve {
    pub dedup_key: String,
}

/// The JSON encoding of an alert follow-up as the caller sees it: the
/// dedup key alone.
pub open spec fn json_of_dedup_key(k: Seq<char>) -> Seq<char> {
    "{\"dedup_key\":"@ + quoted(k) + "}"@
}

impl AlertAcknowledge {
    /// The JSON encoding of this acknowledge event.
    pub fn to_json(&self) -> (r: String)
        ensures
            r@ == json_of_dedup_key(self.dedup_key@),
    {
        let mut out = String::new();
        out.append("{\"dedup_key\":");
        push_quoted(&mut out, self.dedup_key.as_str());
        out.append("}");
        proof {
            assert(out@ =~= json_of_dedup_key(self.dedup_key@));
        }
        out
    }
}

impl AlertResolve {
    /// The JSON encoding of this resolve event.
    pub fn to_json(&self) -> (r: String)
        ensures
            r@ == json_of_dedup_key(self.dedup_key@),
    {
        let mut out = String::new();
        out.append("{\"dedup_key\":");
        push_quoted(&mut out, self.dedup_key.as_str());
        out.append("}");
        proof {
            assert(out@ =~= json_of_dedup_key(self.dedup_key@));
        }
        out
    }
}

/// The single entry point callers construct: one of the four event kinds.
#[derive(Debug)]
pub enum Event {
    Change(Change),
    AlertTrigger(AlertTrigger),
    AlertAcknowledge(AlertAcknowledge),
    AlertResolve(AlertResolve),
}

impl Event {
    /// Every timestamp carried by the event names an actual instant.
    pub open spec fn well_formed(&self) -> bool {
        match *self {
            Event::Change(c) => c.well_formed(),
            Event::AlertTrigger(a) => a.well_formed(),
            Event::AlertAcknowledge(_) => true,
            Event::AlertResolve(_) => true,
        }
    }

    /// Whether every timestamp carried by the event names an actual
    /// instant; what the serialization contracts assume.
    pub fn is_well_formed(&self) -> (r: bool)
        ensures
            r == self.well_formed(),
    {
        match self {
            Event::Change(c) => c.payload.timestamp.is_well_formed(),
            Event::AlertTrigger(a) => match &a.payload.timestamp {
                Option::Some(t) => t.is_well_formed(),
                Option::None => true,
            },
            Event::AlertAcknowledge(_) => true,
            Event::AlertResolve(_) => true,
        }
    }
}


/// An optional string member is serialized exactly when it is set: when
/// set it contributes its prefix and quoted value, when absent it
/// contributes nothing at all — in particular, never a `null`-valued key.
pub proof fn lemma_opt_str_field_faithful(prefix: Seq<char>, o: Option<String>)
    ensures
        o matches Some(s) ==> opt_str_field(prefix, o) == prefix + quoted(s@),
        o is None ==> opt_str_field(prefix, o) == Seq::<char>::empty(),
        opt_str_field(prefix, o).len() == 0 <==> o is None,
{
}

/// An optional list-of-links member is serialized exactly when it is set.
pub proof fn lemma_opt_links_field_faithful(o: Option<Links>)
    ensures
        o matches Some(ls) ==> opt_links_field(o) == ",\"links\":"@ + json_of_links(ls),
        o is None ==> opt_links_field(o) == Seq::<char>::empty(),
        opt_links_field(o).len() == 0 <==> o is None,
{
    reveal_strlit(",\"links\":");
}

/// An optional list-of-images member is serialized exactly when it is set.
pub proof fn lemma_opt_images_field_faithful(o: Option<Images>)
    ensures
        o matches Some(ims) ==> opt_images_field(o) == ",\"images\":"@ + json_of_images(ims),
        o is None ==> opt_images_field(o) == Seq::<char>::empty(),
        opt_images_field(o).len() == 0 <==> o is None,
{
    reveal_strlit(",\"images\":");
}

/// An optional `custom_details` member is serialized exactly when it is
/// set.
pub proof fn lemma_opt_details_field_faithful(o: Option<Value>)
    ensures
        o matches Some(v) ==> opt_details_field(o) == ",\"custom_details\":"@ + json_of_value(v),
        o is None ==> opt_details_field(o) == Seq::<char>::empty(),
        opt_details_field(o).len() == 0 <==> o is None,
{
    reveal_strlit(",\"custom_details\":");
}

/// An optional `timestamp` member is serialized exactly when it is set.
pub proof fn lemma_opt_timestamp_field_faithful(o: Option<Timestamp>)
    ensures
        o matches Some(t) ==> opt_timestamp_field(o) == ",\"timestamp\":\""@ + rfc3339_of(t)
            + "\""@,
        o is None ==> opt_timestamp_field(o) == Seq::<char>::empty(),
        opt_timestamp_field(o).len() == 0 <==> o is None,
{
    reveal_strlit(",\"timestamp\":\"");
}

} // verus!
