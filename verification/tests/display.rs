use mobilisation::domain::event::{DateTime, Event, HumanReadableDateTime};
use mobilisation::domain::instance_version::InstanceVersion;
use mobilisation::infra::config::ConfigFetchError;
use mobilisation::infra::events::{EventDecodeError, EventsFetchError};
use mobilisation::presentation::display::write_integer;
use uuid::Uuid;

#[test]
fn messages_of_version_errors() {
    assert_eq!(
        InstanceVersion::from_str("1.2").unwrap_err().message(),
        "The instance version '1.2' was not properly formatted."
    );
    assert_eq!(
        InstanceVersion::from_str("a.2.3").unwrap_err().message(),
        "Failed to parse an integer : invalid digit found in string"
    );
    assert_eq!(
        InstanceVersion::from_str("").unwrap_err().message(),
        "Failed to parse an integer : cannot parse integer from empty string"
    );
}

#[test]
fn messages_of_configuration_errors() {
    assert_eq!(
        ConfigFetchError::MissingField("languages".to_string()).message(),
        "The field languages is missing from the json."
    );
    assert_eq!(
        ConfigFetchError::HttpError("connection refused".to_string()).message(),
        "Http error : connection refused"
    );
    assert_eq!(
        ConfigFetchError::InstanceVersionParsingError(InstanceVersion::from_str("1").unwrap_err())
            .message(),
        "Instance version could not be parsed: The instance version '1' was not properly formatted."
    );
}

#[test]
fn messages_of_events_errors() {
    assert_eq!(
        EventsFetchError::HttpError("timed out".to_string()).message(),
        "Http error : timed out"
    );
    assert_eq!(
        EventsFetchError::MissingTotalResultsField.message(),
        "Missing total number of events in response."
    );
    assert_eq!(
        EventsFetchError::MissingField("data".to_string()).message(),
        "The field data is missing from the json."
    );
}

#[test]
fn messages_of_decode_errors() {
    assert_eq!(EventDecodeError::EventWithNoId.message(), "Event with no id.");
    assert_eq!(
        EventDecodeError::InvalidPictureUrl("not a url".to_string()).message(),
        "Invalid picture url not a url."
    );
    assert_eq!(
        EventDecodeError::UnexpectedStructureOfEvent(Uuid::from_u128(0x1234), "shape".to_string())
            .message(),
        "Unexpected structure of event with id: 00000000-0000-0000-0000-000000001234\nEvent:\nshape\n"
    );
}

#[test]
fn integers_are_written_in_decimal() {
    assert_eq!(write_integer(0), "0");
    assert_eq!(write_integer(7), "7");
    assert_eq!(write_integer(10), "10");
    assert_eq!(write_integer(-1), "-1");
    assert_eq!(write_integer(1234567890), "1234567890");
    assert_eq!(write_integer(-9080706050403020100), "-9080706050403020100");
    assert_eq!(write_integer(i64::MAX), "9223372036854775807");
    assert_eq!(write_integer(i64::MIN), "-9223372036854775808");
    for number in [-1000, -999, -101, -11, -10, -9, 9, 99, 100, 101, 999, 1000, 65536] {
        assert_eq!(write_integer(number), number.to_string());
    }
}

#[test]
fn what_is_told_reads_as_now_or_as_its_label() {
    assert_eq!(HumanReadableDateTime::Now.text(), "Now");
    assert_eq!(HumanReadableDateTime::Later("Saturday 20".to_string()).text(), "Saturday 20");
    assert_eq!(HumanReadableDateTime::Later(String::new()).text(), "");
}

#[test]
fn long_events_are_dated_from_to_and_short_ones_by_their_hours() {
    let event = |begining: &str, end: &str| Event {
        id: Uuid::nil(),
        title: "test".to_string(),
        picture_url: None,
        begins_on: DateTime::parse_from_rfc3339(begining).unwrap(),
        ends_on: DateTime::parse_from_rfc3339(end).unwrap(),
    };
    let short = event("2001-02-20T00:00:00+01:00", "2001-02-20T03:00:00+01:00");
    assert_eq!(short.make_date_string("02/20/01 00:00:00", "02/20/01 03:00:00"), "02/20/01 00:00:00 - 3h");
    let long = event("2001-02-20T00:00:00+01:00", "2001-02-21T03:00:00+01:00");
    assert_eq!(
        long.make_date_string("02/20/01 00:00:00", "02/21/01 03:00:00"),
        "02/20/01 00:00:00 to 02/21/01 03:00:00"
    );
    let almost = event("2001-02-20T00:00:00Z", "2001-02-20T23:59:59Z");
    assert_eq!(almost.make_date_string("a", "b"), "a - 23h");
    let day = event("2001-02-20T00:00:00Z", "2001-02-21T00:00:00Z");
    assert_eq!(day.make_date_string("a", "b"), "a to b");
    let backwards = event("2001-02-20T05:30:00Z", "2001-02-20T00:00:00Z");
    assert_eq!(backwards.make_date_string("a", "b"), "a - -5h");
    let instant = event("2001-02-20T05:30:00Z", "2001-02-20T05:30:00Z");
    assert_eq!(instant.make_date_string("", ""), " - 0h");
}
