//! The row of the one-off `event` command, which is sent once and never
//! queued.
use vstd::prelude::*;
use ilert::ilert_builders::{EventImage, EventLink};
use crate::codec::RowText;
use crate::event::EventQueueItem;
use crate::json::encode_json;
use crate::payload::opt_view;

verus! {

/// Relies on ilert's EventImage::new: an image showing `src`, with no link
/// and no alt text. Nothing is assumed of the value.
pub assume_specification[ EventImage::new ](src: &str) -> EventImage;

/// Relies on the public fields of ilert's EventLink: a link to `href`
/// shown as `text`. Nothing is assumed of the value.
#[verifier::external_body]
fn link_with_text(href: &str, text: &str) -> (r: EventLink) {
    EventLink { href: href.to_string(), text: Some(text.to_string()) }
}

/// The id a command event carries in the logs.
pub open spec fn command_event_id() -> Seq<char> {
    "provided"@
}

/// The row the `event` command sends: the given fields, an image and a
/// link ("Provided Url") when their URLs are given, and the id "provided".
pub fn command_event(
    api_key: &str,
    event_type: &str,
    summary: &str,
    alert_key: Option<String>,
    priority: Option<String>,
    details: Option<String>,
    image: Option<String>,
    link: Option<String>,
) -> (r: EventQueueItem)
    ensures
        r.row_text() == (RowText {
            api_key: api_key@,
            event_type: event_type@,
            alert_key: opt_view(alert_key),
            summary: summary@,
            details: opt_view(details),
            priority: opt_view(priority),
        }),
        opt_view(r.id) == Some(command_event_id()),
        r.created_at is None,
        r.custom_details is None,
        r.event_api_path is None,
        image is Some <==> r.images is Some,
        link is Some <==> r.links is Some,
{
    let mut event = EventQueueItem::new_with_required(api_key, event_type, summary, alert_key);
    event.id = Some(String::from_str("provided"));
    event.priority = priority;
    event.details = details;
    if let Some(url) = &image {
        let images = vec![EventImage::new(url.as_str())];
        event.images = Some(encode_json(&images));
    }
    if let Some(url) = &link {
        let links = vec![link_with_text(url.as_str(), "Provided Url")];
        event.links = Some(encode_json(&links));
    }
    event
}

} // verus!
