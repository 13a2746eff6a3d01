use mobilisation::domain::event::{DateTime, Event};
use mobilisation::domain::picture_url::PictureUrl;
use mobilisation::infra::events::{
    decode_event, decode_events, event_with_picture, EventDecodeError, EventsFetchError, RawEvent, RawEventsData,
    RawEventsResponse, RawPicture, RawSearchEvents,
};
use uuid::Uuid;

fn begins() -> DateTime {
    DateTime::parse_from_rfc3339("2001-02-20T00:00:00+01:00").unwrap()
}

fn ends() -> DateTime {
    DateTime::parse_from_rfc3339("2001-02-20T03:00:00+01:00").unwrap()
}

fn picture(url: &str) -> Option<RawPicture> {
    Some(RawPicture { url: Some(url.to_string()) })
}

fn raw(id: u128, title: &str, picture: Option<RawPicture>) -> RawEvent {
    RawEvent {
        uuid: Some(Uuid::from_u128(id)),
        title: Some(title.to_string()),
        begins_on: Some(begins()),
        ends_on: Some(ends()),
        picture,
    }
}

fn answer(total: Option<i64>, elements: Vec<Option<RawEvent>>) -> RawEventsResponse {
    RawEventsResponse {
        data: Some(RawEventsData { search_events: Some(RawSearchEvents { total, elements }) }),
    }
}

fn same_event(event: &Event, id: u128, title: &str, picture_url: Option<&str>) -> bool {
    event.id == Uuid::from_u128(id)
        && event.title == title
        && event.picture_url.as_ref().map(|url| url.as_str()) == picture_url
        && event.begins_on == begins()
        && event.ends_on == ends()
}

fn missing_field(outcome: Result<(Vec<Result<Event, EventDecodeError>>, i64), EventsFetchError>) -> String {
    match outcome {
        Err(EventsFetchError::MissingField(name)) => name,
        other => panic!("{:?}", other),
    }
}

#[test]
fn one_malformed_picture_url_among_three_events() {
    let response = answer(
        Some(250),
        vec![
            Some(raw(1, "first", picture("https://example.org/a.png"))),
            Some(raw(2, "second", picture("not a url"))),
            Some(raw(3, "third", None)),
        ],
    );
    let (outcomes, total) = decode_events(&response).unwrap();
    assert_eq!(total, 250);
    assert_eq!(outcomes.len(), 3);
    assert!(same_event(outcomes[0].as_ref().unwrap(), 1, "first", Some("https://example.org/a.png")));
    assert!(matches!(&outcomes[1], Err(EventDecodeError::InvalidPictureUrl(url)) if url == "not a url"));
    assert!(same_event(outcomes[2].as_ref().unwrap(), 3, "third", None));
    assert_eq!(outcomes.iter().filter(|outcome| outcome.is_ok()).count(), 2);
    assert_eq!(outcomes.iter().filter(|outcome| outcome.is_err()).count(), 1);
}

#[test]
fn the_total_is_the_servers_whatever_decodes() {
    let none_decodes = answer(Some(7), vec![Some(raw(1, "a", picture("::"))), Some(raw(2, "b", picture("")))]);
    let (outcomes, total) = decode_events(&none_decodes).unwrap();
    assert_eq!(total, 7);
    assert!(outcomes.iter().all(|outcome| outcome.is_err()));
    let (outcomes, total) = decode_events(&answer(Some(-4), vec![])).unwrap();
    assert_eq!(total, -4);
    assert!(outcomes.is_empty());
}

#[test]
fn outcomes_come_in_the_order_of_the_elements() {
    let elements = (0..20u128).map(|i| Some(raw(i, "e", None))).collect();
    let (outcomes, _) = decode_events(&answer(Some(20), elements)).unwrap();
    assert_eq!(outcomes.len(), 20);
    for (i, outcome) in outcomes.iter().enumerate() {
        assert_eq!(outcome.as_ref().unwrap().id, Uuid::from_u128(i as u128));
    }
}

#[test]
fn an_answer_without_data_misses_data() {
    assert_eq!(missing_field(decode_events(&RawEventsResponse { data: None })), "data");
}

#[test]
fn an_answer_without_result_set_misses_search_events() {
    let response = RawEventsResponse { data: Some(RawEventsData { search_events: None }) };
    assert_eq!(missing_field(decode_events(&response)), "search_events");
}

#[test]
fn an_answer_without_total_misses_the_total() {
    let outcome = decode_events(&answer(None, vec![Some(raw(1, "a", None))]));
    assert!(matches!(outcome, Err(EventsFetchError::MissingTotalResultsField)));
    // The total is missed before a null element is.
    let outcome = decode_events(&answer(None, vec![None]));
    assert!(matches!(outcome, Err(EventsFetchError::MissingTotalResultsField)));
}

#[test]
fn a_null_element_fails_the_whole_answer() {
    let first = answer(Some(2), vec![None, Some(raw(1, "a", None))]);
    assert_eq!(missing_field(decode_events(&first)), "event");
    let last = answer(Some(2), vec![Some(raw(1, "a", None)), Some(raw(2, "b", picture("x"))), None]);
    assert_eq!(missing_field(decode_events(&last)), "event");
}

#[test]
fn an_event_with_all_its_parts_decodes() {
    let event = decode_event(&raw(9, "title", picture("https://example.org/p.jpg"))).unwrap();
    assert!(same_event(&event, 9, "title", Some("https://example.org/p.jpg")));
}

#[test]
fn an_event_without_picture_is_valid() {
    let event = decode_event(&raw(9, "title", None)).unwrap();
    assert!(same_event(&event, 9, "title", None));
}

#[test]
fn the_picture_url_is_kept_as_the_parser_writes_it() {
    let event = decode_event(&raw(9, "title", picture("HTTPS://Example.ORG/a/../b c"))).unwrap();
    assert_eq!(event.picture_url.unwrap().as_str(), "https://example.org/b%20c");
}

#[test]
fn an_event_without_id_is_refused_first() {
    let mut event = raw(1, "a", picture("not a url"));
    event.uuid = None;
    assert!(matches!(decode_event(&event), Err(EventDecodeError::EventWithNoId)));
    let empty = RawEvent { uuid: None, title: None, begins_on: None, ends_on: None, picture: None };
    assert!(matches!(decode_event(&empty), Err(EventDecodeError::EventWithNoId)));
}

#[test]
fn a_missing_part_is_an_unexpected_structure() {
    let mut no_title = raw(5, "a", None);
    no_title.title = None;
    match decode_event(&no_title) {
        Err(EventDecodeError::UnexpectedStructureOfEvent(id, description)) => {
            assert_eq!(id, Uuid::from_u128(5));
            assert_eq!(
                description,
                "title: missing, begins_on: present, ends_on: present, picture: missing, picture url: missing"
            );
        }
        other => panic!("{:?}", other),
    }
    let mut no_begin = raw(5, "a", None);
    no_begin.begins_on = None;
    assert!(matches!(decode_event(&no_begin), Err(EventDecodeError::UnexpectedStructureOfEvent(_, _))));
    let mut no_end = raw(5, "a", None);
    no_end.ends_on = None;
    assert!(matches!(decode_event(&no_end), Err(EventDecodeError::UnexpectedStructureOfEvent(_, _))));
}

#[test]
fn a_picture_without_url_is_an_unexpected_structure() {
    let event = raw(6, "a", Some(RawPicture { url: None }));
    match decode_event(&event) {
        Err(EventDecodeError::UnexpectedStructureOfEvent(id, description)) => {
            assert_eq!(id, Uuid::from_u128(6));
            assert_eq!(
                description,
                "title: present, begins_on: present, ends_on: present, picture: present, picture url: missing"
            );
        }
        other => panic!("{:?}", other),
    }
}

#[test]
fn a_missing_part_comes_before_the_picture_url() {
    let mut event = raw(7, "a", picture("not a url"));
    event.ends_on = None;
    match decode_event(&event) {
        Err(EventDecodeError::UnexpectedStructureOfEvent(_, description)) => assert_eq!(
            description,
            "title: present, begins_on: present, ends_on: missing, picture: present, picture url: present"
        ),
        other => panic!("{:?}", other),
    }
}

#[test]
fn a_malformed_picture_url_is_handed_back() {
    for address in ["not a url", "", "/relative/path.png", "example.org/a.png", "http://"] {
        match decode_event(&raw(8, "a", picture(address))) {
            Err(EventDecodeError::InvalidPictureUrl(url)) => assert_eq!(url, address),
            other => panic!("{:?}", other),
        }
    }
}

#[test]
fn describe_names_every_part() {
    let whole = raw(1, "a", picture("https://example.org"));
    assert_eq!(
        whole.describe(),
        "title: present, begins_on: present, ends_on: present, picture: present, picture url: present"
    );
    let empty = RawEvent { uuid: None, title: None, begins_on: None, ends_on: None, picture: None };
    assert_eq!(
        empty.describe(),
        "title: missing, begins_on: missing, ends_on: missing, picture: missing, picture url: missing"
    );
}

#[test]
fn urls_parse_to_their_serialization() {
    assert_eq!(PictureUrl::parse("https://example.net").unwrap().as_str(), "https://example.net/");
    assert_eq!(PictureUrl::parse("https://example.net/").unwrap().as_str(), "https://example.net/");
    assert_eq!(
        PictureUrl::parse("http://EXAMPLE.net:80/a?b=c#d").unwrap().as_str(),
        "http://example.net/a?b=c#d"
    );
    assert!(PictureUrl::parse("example.net").is_none());
    assert!(PictureUrl::parse("").is_none());
    let url = PictureUrl::parse("https://example.net/x").unwrap();
    assert_eq!(url.clone(), url);
    assert_eq!(url.clone().as_str(), "https://example.net/x");
}

#[test]
fn a_picture_decides_by_what_its_address_parsed_to() {
    let id = Uuid::from_u128(3);
    let title = "t".to_string();
    let address = "https://example.org/x".to_string();
    let parsed = PictureUrl::parse(&address);
    let event = event_with_picture(id, &title, begins(), ends(), &address, parsed).unwrap();
    assert!(same_event(&event, 3, "t", Some("https://example.org/x")));
    let refused = event_with_picture(id, &title, begins(), ends(), &address, None);
    assert!(matches!(refused, Err(EventDecodeError::InvalidPictureUrl(url)) if url == address));
}
