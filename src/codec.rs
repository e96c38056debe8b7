//! Translation between the canonical event and the queue row: the JSON
//! fields are stored as their JSON text and read back from it.
use vstd::prelude::*;
use ilert::ilert_builders::{EventImage, EventLink};
use crate::event::EventQueueItem;
use crate::json::{encode_json, decode_json};
use crate::mapper::{EventQueueItemJson, EventText};
use crate::payload::opt_view;

verus! {

/// The text columns of a queue row.
pub struct RowText {
    pub api_key: Seq<char>,
    pub event_type: Seq<char>,
    pub alert_key: Option<Seq<char>>,
    pub summary: Seq<char>,
    pub details: Option<Seq<char>>,
    pub priority: Option<Seq<char>>,
}

impl EventQueueItem {
    pub open spec fn row_text(&self) -> RowText {
        RowText {
            api_key: self.api_key@,
            event_type: self.event_type@,
            alert_key: opt_view(self.alert_key),
            summary: self.summary@,
            details: opt_view(self.details),
            priority: opt_view(self.priority),
        }
    }
}

/// Where each text field of the canonical event is stored.
pub open spec fn row_text_of(e: EventText) -> RowText {
    RowText {
        api_key: e.api_key,
        event_type: e.event_type,
        alert_key: e.alert_key,
        summary: e.summary,
        details: e.details,
        priority: e.priority,
    }
}

/// Where each text column of a row is read back into the canonical event.
pub open spec fn event_text_of(r: RowText) -> EventText {
    EventText {
        api_key: r.api_key,
        event_type: r.event_type,
        summary: r.summary,
        details: r.details,
        alert_key: r.alert_key,
        priority: r.priority,
    }
}

impl EventQueueItemJson {
    /// The row that stores `item`, with no id and no creation time yet;
    /// `event_api_path` overrides the upstream path when set.
    pub fn to_db(item: EventQueueItemJson, event_api_path: Option<String>) -> (r: EventQueueItem)
        ensures
            r.row_text() == row_text_of(item.text()),
            r.id is None,
            r.created_at is None,
            r.event_api_path == event_api_path,
            item.images is Some <==> r.images is Some,
            item.links is Some <==> r.links is Some,
            item.customDetails is Some <==> r.custom_details is Some,
    {
        let images = match &item.images {
            Some(v) => Some(encode_json(v)),
            None => None,
        };
        let links = match &item.links {
            Some(v) => Some(encode_json(v)),
            None => None,
        };
        let custom_details = match &item.customDetails {
            Some(v) => Some(encode_json(v)),
            None => None,
        };
        EventQueueItem {
            id: None,
            api_key: item.apiKey,
            event_type: item.eventType,
            alert_key: item.alertKey,
            summary: item.summary,
            details: item.details,
            created_at: None,
            priority: item.priority,
            images,
            links,
            custom_details,
            event_api_path,
        }
    }

    /// The canonical event that a row stores; a JSON column that does not
    /// decode reads as absent.
    pub fn from_db(item: EventQueueItem) -> (r: EventQueueItemJson)
        ensures
            r.text() == event_text_of(item.row_text()),
            item.images is None ==> r.images is None,
            item.links is None ==> r.links is None,
            item.custom_details is None ==> r.customDetails is None,
    {
        let images: Option<Vec<EventImage>> = match &item.images {
            Some(s) => decode_json(s.as_str()),
            None => None,
        };
        let links: Option<Vec<EventLink>> = match &item.links {
            Some(s) => decode_json(s.as_str()),
            None => None,
        };
        let custom_details: Option<serde_json::Value> = match &item.custom_details {
            Some(s) => decode_json(s.as_str()),
            None => None,
        };
        EventQueueItemJson {
            apiKey: item.api_key,
            eventType: item.event_type,
            summary: item.summary,
            details: item.details,
            alertKey: item.alert_key,
            priority: item.priority,
            images,
            links,
            customDetails: custom_details,
        }
    }
}

/// Storing a canonical event and reading the row back gives the same text
/// fields (`to_db` then `from_db`).
pub proof fn lemma_db_round_trip_text(e: EventQueueItemJson)
    ensures
        event_text_of(row_text_of(e.text())) == e.text(),
{
}

} // verus!
