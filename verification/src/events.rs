//! Structural events of a markup document.
//!
//! The event-stream reader turns raw document text into a sequence of these
//! events; the tree builder consumes them.  End-of-document is the end of
//! the sequence.

use crate::style::spec_attrs_views;
use vstd::prelude::*;

verus! {

/// One structural event: an element opens, an element closes, an element
/// opens and closes in place, or a text run appears.
#[derive(Debug)]
pub enum RawEvent {
    Open { tag: String, attributes: Vec<(String, String)> },
    SelfClosing { tag: String, attributes: Vec<(String, String)> },
    Close,
    Text(String),
}

/// The model of a structural event.
#[verifier::ext_equal]
pub ghost enum EventModel {
    Open { tag: Seq<char>, attributes: Seq<(Seq<char>, Seq<char>)> },
    SelfClosing { tag: Seq<char>, attributes: Seq<(Seq<char>, Seq<char>)> },
    Close,
    Text(Seq<char>),
}

impl View for RawEvent {
    type V = EventModel;

    open spec fn view(&self) -> EventModel {
        match self {
            RawEvent::Open { tag, attributes } => EventModel::Open {
                tag: tag@,
                attributes: spec_attrs_views(attributes@),
            },
            RawEvent::SelfClosing { tag, attributes } => EventModel::SelfClosing {
                tag: tag@,
                attributes: spec_attrs_views(attributes@),
            },
            RawEvent::Close => EventModel::Close,
            RawEvent::Text(t) => EventModel::Text(t@),
        }
    }
}

/// The models of a sequence of events.
pub open spec fn events_views(evs: Seq<RawEvent>) -> Seq<EventModel> {
    evs.map_values(|e: RawEvent| e@)
}

} // verus!
