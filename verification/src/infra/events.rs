//! Decoding of the answer to an events query: the batch as a whole, and each
//! event of it on its own, so that one bad record never costs the others.

use crate::domain::event::{DateTime, Event};
use crate::domain::picture_url::{url_serialization, PictureUrl};
use uuid::Uuid;
use vstd::prelude::*;
use vstd::string::*;

verus! {

/// Why an events query as a whole gave nothing.
#[derive(Debug)]
pub enum EventsFetchError {
    /// The transport failed; the payload is its message.
    HttpError(String),
    /// A part of the answer that must be there is not; the payload names it.
    MissingField(String),
    /// The answer does not say how many events the server has.
    MissingTotalResultsField,
}

/// Why one event of an answer could not be decoded.
#[derive(Debug)]
pub enum EventDecodeError {
    /// The picture's address is no URL; the payload is the address as received.
    InvalidPictureUrl(String),
    /// A part of the event that must be there is not; the payload is the
    /// event's identifier and a description of what was received.
    UnexpectedStructureOfEvent(Uuid, String),
    /// The event has no identifier.
    EventWithNoId,
}

/// Why a picture could not be fetched.
#[derive(Debug)]
pub enum EventPictureFetchError {
    /// The transport failed; the payload is its message.
    HttpError(String),
}

/// The picture of an event as received.
#[derive(Debug)]
pub struct RawPicture {
    pub url: Option<String>,
}

/// An event as received: every part may be absent.
#[derive(Debug)]
pub struct RawEvent {
    pub uuid: Option<Uuid>,
    pub title: Option<String>,
    pub begins_on: Option<DateTime>,
    pub ends_on: Option<DateTime>,
    pub picture: Option<RawPicture>,
}

/// The result set of an events query as received.
#[derive(Debug)]
pub struct RawSearchEvents {
    pub total: Option<i64>,
    pub elements: Vec<Option<RawEvent>>,
}

/// The data of an answer to an events query.
#[derive(Debug)]
pub struct RawEventsData {
    pub search_events: Option<RawSearchEvents>,
}

/// The answer to an events query.
#[derive(Debug)]
pub struct RawEventsResponse {
    pub data: Option<RawEventsData>,
}

/// The word that a description uses for a part that is, or is not, there.
pub open spec fn presence(present: bool) -> Seq<char> {
    if present {
        "present"@
    } else {
        "missing"@
    }
}

impl RawEvent {
    /// Whether the picture, if there is one, comes with an address.
    pub open spec fn picture_is_whole(&self) -> bool {
        self.picture matches Some(picture) ==> picture.url is Some
    }

    /// Whether title, beginning and end are there, and the picture is whole.
    pub open spec fn is_complete(&self) -> bool {
        &&& self.title is Some
        &&& self.begins_on is Some
        &&& self.ends_on is Some
        &&& self.picture_is_whole()
    }

    /// Which parts of the event are there, in words.
    pub open spec fn shape(&self) -> Seq<char> {
        "title: "@ + presence(self.title is Some) + ", begins_on: "@ + presence(
            self.begins_on is Some,
        ) + ", ends_on: "@ + presence(self.ends_on is Some) + ", picture: "@ + presence(
            self.picture is Some,
        ) + ", picture url: "@ + presence(self.picture is Some && self.picture->0.url is Some)
    }

    /// Whether `outcome` is what decoding this event gives:
    /// - without an identifier, `EventWithNoId`;
    /// - else, where a part is missing, `UnexpectedStructureOfEvent` with the
    ///   identifier and the event's shape;
    /// - else, where the picture's address is no URL, `InvalidPictureUrl` with
    ///   the address;
    /// - else the event, with the picture's URL if there is a picture.
    pub open spec fn decodes_to(&self, outcome: Result<Event, EventDecodeError>) -> bool {
        match outcome {
            Err(EventDecodeError::EventWithNoId) => self.uuid is None,
            Err(EventDecodeError::UnexpectedStructureOfEvent(id, description)) => {
                &&& self.uuid == Some(id)
                &&& !self.is_complete()
                &&& description@ == self.shape()
            },
            Err(EventDecodeError::InvalidPictureUrl(address)) => {
                &&& self.uuid is Some
                &&& self.is_complete()
                &&& self.picture is Some
                &&& self.picture->0.url == Some(address)
                &&& url_serialization(address@) is None
            },
            Ok(event) => {
                &&& self.uuid == Some(event.id)
                &&& self.is_complete()
                &&& self.title == Some(event.title)
                &&& self.begins_on == Some(event.begins_on)
                &&& self.ends_on == Some(event.ends_on)
                &&& match self.picture {
                    None => event.picture_url is None,
                    Some(picture) => event.picture_url is Some && url_serialization(
                        picture.url->0@,
                    ) == Some(event.picture_url->0@),
                }
            },
        }
    }

    /// Writes out which parts of the event are there.
    pub fn describe(&self) -> (description: String)
        ensures
            description@ == self.shape(),
    {
        let mut description: String = "title: ".to_string();
        description.append(word_for(self.title.is_some()));
        description.append(", begins_on: ");
        description.append(word_for(self.begins_on.is_some()));
        description.append(", ends_on: ");
        description.append(word_for(self.ends_on.is_some()));
        description.append(", picture: ");
        description.append(word_for(self.picture.is_some()));
        description.append(", picture url: ");
        let has_url: bool = match &self.picture {
            Some(picture) => picture.url.is_some(),
            None => false,
        };
        description.append(word_for(has_url));
        description
    }
}

/// The word for a part that is, or is not, there.
fn word_for(present: bool) -> (word: &'static str)
    ensures
        word@ == presence(present),
{
    if present {
        "present"
    } else {
        "missing"
    }
}

/// The event with a picture, given what the picture's address parsed to:
/// the event with that URL, or `InvalidPictureUrl` with the address where it
/// parsed to none.
pub fn event_with_picture(
    id: Uuid,
    title: &String,
    begins_on: DateTime,
    ends_on: DateTime,
    address: &String,
    parsed: Option<PictureUrl>,
) -> (outcome: Result<Event, EventDecodeError>)
    ensures
        match outcome {
            Ok(event) => {
                &&& event.id == id
                &&& event.title == *title
                &&& event.begins_on == begins_on
                &&& event.ends_on == ends_on
                &&& parsed is Some
                &&& event.picture_url == parsed
            },
            Err(EventDecodeError::InvalidPictureUrl(refused)) => parsed is None && refused
                == *address,
            Err(_) => false,
        },
{
    match parsed {
        Some(url) => Ok(
            Event { id, title: title.clone(), picture_url: Some(url), begins_on, ends_on },
        ),
        None => Err(EventDecodeError::InvalidPictureUrl(address.clone())),
    }
}

/// Decodes one event as received.
pub fn decode_event(raw: &RawEvent) -> (outcome: Result<Event, EventDecodeError>)
    ensures
        raw.decodes_to(outcome),
{
    let id: Uuid = match raw.uuid {
        Some(id) => id,
        None => {
            return Err(EventDecodeError::EventWithNoId);
        },
    };
    match (&raw.title, raw.begins_on, raw.ends_on) {
        (Some(title), Some(begins_on), Some(ends_on)) => {
            match &raw.picture {
                None => Ok(
                    Event { id, title: title.clone(), picture_url: None, begins_on, ends_on },
                ),
                Some(picture) => match &picture.url {
                    None => Err(EventDecodeError::UnexpectedStructureOfEvent(id, raw.describe())),
                    Some(address) => event_with_picture(
                        id,
                        title,
                        begins_on,
                        ends_on,
                        address,
                        PictureUrl::parse(address.as_str()),
                    ),
                },
            }
        },
        _ => Err(EventDecodeError::UnexpectedStructureOfEvent(id, raw.describe())),
    }
}

impl RawEventsResponse {
    /// The result set, where the answer has one.
    pub open spec fn result_set(&self) -> Option<RawSearchEvents> {
        match self.data {
            Some(data) => data.search_events,
            None => None,
        }
    }

    /// Whether `outcome` is what decoding this answer gives:
    /// - without data, `MissingField("data")`;
    /// - else, without a result set, `MissingField("search_events")`;
    /// - else, without a total, `MissingTotalResultsField`;
    /// - else, where an element is null, `MissingField("event")`;
    /// - else the server's total, and for each element, in order, what
    ///   decoding it gives.
    pub open spec fn decodes_to(
        &self,
        outcome: Result<(Vec<Result<Event, EventDecodeError>>, i64), EventsFetchError>,
    ) -> bool {
        match outcome {
            Err(EventsFetchError::HttpError(_)) => false,
            Err(EventsFetchError::MissingField(name)) => {
                ||| self.data is None && name@ == "data"@
                ||| self.data is Some && self.result_set() is None && name@ == "search_events"@
                ||| {
                    &&& self.result_set() is Some
                    &&& self.result_set()->0.total is Some
                    &&& has_null(self.result_set()->0.elements@)
                    &&& name@ == "event"@
                }
            },
            Err(EventsFetchError::MissingTotalResultsField) => {
                &&& self.result_set() is Some
                &&& self.result_set()->0.total is None
            },
            Ok((outcomes, total)) => {
                &&& self.result_set() is Some
                &&& self.result_set()->0.total == Some(total)
                &&& !has_null(self.result_set()->0.elements@)
                &&& outcomes@.len() == self.result_set()->0.elements@.len()
                &&& forall|i: int|
                    0 <= i < outcomes@.len() ==> (#[trigger] self.result_set()->0.elements@[i])->0.decodes_to(
                        outcomes@[i],
                    )
            },
        }
    }
}

/// Whether some element of the list is null.
pub open spec fn has_null(elements: Seq<Option<RawEvent>>) -> bool {
    exists|i: int| 0 <= i < elements.len() && (#[trigger] elements[i]) is None
}

/// Decodes the answer to an events query. A missing part, or a null among
/// the elements, fails the whole answer; an element that cannot be decoded
/// fails alone, and stands in the result as its error.
pub fn decode_events(response: &RawEventsResponse) -> (outcome: Result<
    (Vec<Result<Event, EventDecodeError>>, i64),
    EventsFetchError,
>)
    ensures
        response.decodes_to(outcome),
{
    let data: &RawEventsData = match &response.data {
        Some(data) => data,
        None => {
            return Err(EventsFetchError::MissingField("data".to_string()));
        },
    };
    let result_set: &RawSearchEvents = match &data.search_events {
        Some(result_set) => result_set,
        None => {
            return Err(EventsFetchError::MissingField("search_events".to_string()));
        },
    };
    let total: i64 = match result_set.total {
        Some(total) => total,
        None => {
            return Err(EventsFetchError::MissingTotalResultsField);
        },
    };
    let mut outcomes: Vec<Result<Event, EventDecodeError>> = Vec::new();
    let mut at: usize = 0;
    while at < result_set.elements.len()
        invariant
            response.result_set() == Some(*result_set),
            result_set.total == Some(total),
            0 <= at <= result_set.elements@.len(),
            outcomes@.len() == at,
            forall|i: int| 0 <= i < at ==> (#[trigger] result_set.elements@[i]) is Some,
            forall|i: int|
                0 <= i < at ==> (#[trigger] result_set.elements@[i])->0.decodes_to(outcomes@[i]),
        decreases result_set.elements@.len() - at,
    {
        match &result_set.elements[at] {
            Some(raw) => {
                outcomes.push(decode_event(raw));
            },
            None => {
                assert(has_null(result_set.elements@)) by {
                    assert(result_set.elements@[at as int] is None);
                }
                return Err(EventsFetchError::MissingField("event".to_string()));
            },
        }
        at = at + 1;
    }
    Ok((outcomes, total))
}

} // verus!
