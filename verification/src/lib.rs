//! Client-side core of the PagerDuty Events V2 API: the event data model,
//! the enrichment that injects the account's integration key, the JSON
//! wire encoding, endpoint routing, and response classification.
//!
//! The wire format is specified character by character: every contract
//! pins down the exact bytes an envelope serializes to, so that optional
//! fields are omitted when absent (never `null`), enumerations use their
//! fixed lowercase tokens, and timestamps render as RFC 3339 with a
//! trailing `Z`. The one HTTP POST per event is left to the surrounding
//! program: [`eventsv2::EventsV2::prepare`] produces the wire-ready
//! request, and [`eventsv2::classify_outcome`] turns what came back into
//! the typed result.

pub mod eventsv2;
pub mod json;
pub mod private_types;
pub mod timestamp;
pub mod types;
pub mod value;
