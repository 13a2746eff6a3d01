//! The words for the library's values: the messages of its errors, what is
//! told of an event's beginning, and the dates of an event.

use crate::domain::calendar::digit_char;
use crate::domain::event::{
    whole_units, Event, HumanReadableDateTime, Moment, NANOS_PER_DAY, NANOS_PER_HOUR,
};
use crate::domain::instance_version::{
    all_decimal_digits, decimal_value, i32_reading, is_decimal_digit, unsigned_part,
    InstanceVersionParsingError,
};
use crate::infra::config::ConfigFetchError;
use crate::infra::events::{EventDecodeError, EventsFetchError};
use core::num::ParseIntError;
use uuid::Uuid;
use vstd::prelude::*;
use vstd::string::*;

verus! {

/// `Display` of `core::num::ParseIntError`. Nothing is claimed of the text.
#[verifier::external_body]
fn write_integer_diagnostic(error: &ParseIntError) -> (text: String) {
    format!("{}", error)
}

/// `Display` of `uuid::Uuid`. Nothing is claimed of the text.
#[verifier::external_body]
fn write_identifier(id: &Uuid) -> (text: String) {
    format!("{}", id)
}

/// The message for a part that is missing, by its name.
pub open spec fn missing_field_text(name: Seq<char>) -> Seq<char> {
    "The field "@ + name + " is missing from the json."@
}

/// The message for a failure of the transport, by its own message.
pub open spec fn http_error_text(cause: Seq<char>) -> Seq<char> {
    "Http error : "@ + cause
}

/// Writes the message for a part that is missing.
fn write_missing_field(name: &String) -> (text: String)
    ensures
        text@ == missing_field_text(name@),
{
    let mut text: String = "The field ".to_string();
    text.append(name.as_str());
    text.append(" is missing from the json.");
    text
}

/// Writes the message for a failure of the transport.
fn write_http_error(cause: &String) -> (text: String)
    ensures
        text@ == http_error_text(cause@),
{
    let mut text: String = "Http error : ".to_string();
    text.append(cause.as_str());
    text
}

impl InstanceVersionParsingError {
    /// Whether `text` is a message of this error: for a text of the wrong
    /// shape, one sentence around the text; for a component that is no
    /// integer, a fixed opening and then the integer parser's diagnostic.
    pub open spec fn is_told_by(&self, text: Seq<char>) -> bool {
        match self {
            InstanceVersionParsingError::ParseError(given) => text == "The instance version '"@
                + given@ + "' was not properly formatted."@,
            InstanceVersionParsingError::ParseIntError(_) => exists|diagnostic: Seq<char>|
                text == #[trigger] ("Failed to parse an integer : "@ + diagnostic),
        }
    }

    /// The message of this error.
    pub fn message(&self) -> (text: String)
        ensures
            self.is_told_by(text@),
    {
        match self {
            InstanceVersionParsingError::ParseError(given) => {
                let mut text: String = "The instance version '".to_string();
                text.append(given.as_str());
                text.append("' was not properly formatted.");
                text
            },
            InstanceVersionParsingError::ParseIntError(error) => {
                let mut text: String = "Failed to parse an integer : ".to_string();
                let diagnostic: String = write_integer_diagnostic(error);
                text.append(diagnostic.as_str());
                text
            },
        }
    }
}

impl ConfigFetchError {
    /// Whether `text` is a message of this error.
    pub open spec fn is_told_by(&self, text: Seq<char>) -> bool {
        match self {
            ConfigFetchError::MissingField(name) => text == missing_field_text(name@),
            ConfigFetchError::HttpError(cause) => text == http_error_text(cause@),
            ConfigFetchError::InstanceVersionParsingError(error) => exists|inner: Seq<char>|
                error.is_told_by(inner) && text == #[trigger] (
                "Instance version could not be parsed: "@ + inner),
        }
    }

    /// The message of this error.
    pub fn message(&self) -> (text: String)
        ensures
            self.is_told_by(text@),
    {
        match self {
            ConfigFetchError::MissingField(name) => write_missing_field(name),
            ConfigFetchError::HttpError(cause) => write_http_error(cause),
            ConfigFetchError::InstanceVersionParsingError(error) => {
                let mut text: String = "Instance version could not be parsed: ".to_string();
                let inner: String = error.message();
                text.append(inner.as_str());
                text
            },
        }
    }
}

impl EventsFetchError {
    /// The message of this error.
    pub open spec fn text(&self) -> Seq<char> {
        match self {
            EventsFetchError::HttpError(cause) => http_error_text(cause@),
            EventsFetchError::MissingTotalResultsField => "Missing total number of events in response."@,
            EventsFetchError::MissingField(name) => missing_field_text(name@),
        }
    }

    /// The message of this error.
    pub fn message(&self) -> (text: String)
        ensures
            text@ == self.text(),
    {
        match self {
            EventsFetchError::HttpError(cause) => write_http_error(cause),
            EventsFetchError::MissingTotalResultsField => "Missing total number of events in response.".to_string(),
            EventsFetchError::MissingField(name) => write_missing_field(name),
        }
    }
}

impl EventDecodeError {
    /// Whether `text` is a message of this error. The message for an
    /// unexpected structure holds the identifier as `uuid` writes it, and
    /// then the description of the event.
    pub open spec fn is_told_by(&self, text: Seq<char>) -> bool {
        match self {
            EventDecodeError::EventWithNoId => text == "Event with no id."@,
            EventDecodeError::InvalidPictureUrl(address) => text == "Invalid picture url "@
                + address@ + "."@,
            EventDecodeError::UnexpectedStructureOfEvent(_, description) => exists|
                identifier: Seq<char>,
            |
                text == #[trigger] ("Unexpected structure of event with id: "@ + identifier)
                    + "\nEvent:\n"@ + description@ + "\n"@,
        }
    }

    /// The message of this error.
    pub fn message(&self) -> (text: String)
        ensures
            self.is_told_by(text@),
    {
        match self {
            EventDecodeError::EventWithNoId => "Event with no id.".to_string(),
            EventDecodeError::InvalidPictureUrl(address) => {
                let mut text: String = "Invalid picture url ".to_string();
                text.append(address.as_str());
                text.append(".");
                text
            },
            EventDecodeError::UnexpectedStructureOfEvent(id, description) => {
                let mut text: String = "Unexpected structure of event with id: ".to_string();
                let identifier: String = write_identifier(id);
                text.append(identifier.as_str());
                text.append("\nEvent:\n");
                text.append(description.as_str());
                text.append("\n");
                text
            },
        }
    }
}

/// A natural number in decimal digits, without leading zeros.
pub open spec fn natural_text(number: nat) -> Seq<char>
    decreases number,
{
    if number < 10 {
        seq![digit_char(number as int)]
    } else {
        natural_text(number / 10).push(digit_char((number % 10) as int))
    }
}

/// An integer in decimal digits, with a minus sign where it is negative.
pub open spec fn integer_text(number: int) -> Seq<char> {
    if number < 0 {
        seq!['-'] + natural_text((-number) as nat)
    } else {
        natural_text(number as nat)
    }
}

/// A natural number is written with digits only, at least one, and they
/// write that number.
pub proof fn law_naturals_read_back(number: nat)
    ensures
        natural_text(number).len() >= 1,
        all_decimal_digits(natural_text(number)),
        decimal_value(natural_text(number)) == number,
    decreases number,
{
    if number < 10 {
        let text = natural_text(number);
        assert(text.drop_last() =~= Seq::<char>::empty());
        assert(decimal_value(text.drop_last()) == 0);
    } else {
        law_naturals_read_back(number / 10);
        let text = natural_text(number);
        assert(text.drop_last() =~= natural_text(number / 10));
    }
}

/// An integer that fits in an `i32` reads back from what it is written as.
pub proof fn law_integers_read_back(number: int)
    requires
        i32::MIN <= number <= i32::MAX,
    ensures
        i32_reading(integer_text(number)) == Some(number),
{
    if number < 0 {
        law_naturals_read_back((-number) as nat);
        assert(integer_text(number).skip(1) =~= natural_text((-number) as nat));
    } else {
        law_naturals_read_back(number as nat);
        assert(is_decimal_digit(natural_text(number as nat)[0]));
    }
}

/// One decimal digit as a text.
fn write_digit(digit: u64) -> (text: &'static str)
    requires
        digit < 10,
    ensures
        text@ == seq![digit_char(digit as int)],
{
    let text: &'static str = if digit == 0 {
        "0"
    } else if digit == 1 {
        "1"
    } else if digit == 2 {
        "2"
    } else if digit == 3 {
        "3"
    } else if digit == 4 {
        "4"
    } else if digit == 5 {
        "5"
    } else if digit == 6 {
        "6"
    } else if digit == 7 {
        "7"
    } else if digit == 8 {
        "8"
    } else {
        "9"
    };
    proof {
        reveal_strlit("0");
        reveal_strlit("1");
        reveal_strlit("2");
        reveal_strlit("3");
        reveal_strlit("4");
        reveal_strlit("5");
        reveal_strlit("6");
        reveal_strlit("7");
        reveal_strlit("8");
        reveal_strlit("9");
        assert(text@ =~= seq![digit_char(digit as int)]);
    }
    text
}

/// Writes a natural number in decimal digits.
fn write_natural(number: u64) -> (text: String)
    ensures
        text@ == natural_text(number as nat),
    decreases number,
{
    if number < 10 {
        write_digit(number).to_string()
    } else {
        let mut text: String = write_natural(number / 10);
        text.append(write_digit(number % 10));
        proof {
            assert(text@ =~= natural_text(number as nat / 10).push(
                digit_char((number as nat % 10) as int),
            ));
        }
        text
    }
}

/// Writes an integer in decimal digits, with a minus sign where it is negative.
pub fn write_integer(number: i64) -> (text: String)
    ensures
        text@ == integer_text(number as int),
{
    if number < 0 {
        let magnitude: u64 = if number == i64::MIN {
            9_223_372_036_854_775_808
        } else {
            (-number) as u64
        };
        let mut text: String = "-".to_string();
        let digits: String = write_natural(magnitude);
        text.append(digits.as_str());
        proof {
            reveal_strlit("-");
            assert("-"@ =~= seq!['-']);
        }
        text
    } else {
        write_natural(number as u64)
    }
}

impl HumanReadableDateTime {
    /// The words for this value: `Now`, or the label.
    pub open spec fn words(&self) -> Seq<char> {
        match self@ {
            Moment::Now => "Now"@,
            Moment::Later(label) => label,
        }
    }

    /// The words shown for this value.
    pub fn text(&self) -> (text: String)
        ensures
            text@ == self.words(),
    {
        match self {
            HumanReadableDateTime::Now => "Now".to_string(),
            HumanReadableDateTime::Later(label) => label.clone(),
        }
    }
}

impl Event {
    /// When the event takes place, given its beginning and end as written
    /// for the reader: `<beginning> to <end>` for an event of a day or more,
    /// `<beginning> - <hours>h` for a shorter one.
    pub open spec fn date_text(&self, begins_on: Seq<char>, ends_on: Seq<char>) -> Seq<char> {
        if whole_units(self.span(), NANOS_PER_DAY as int) >= 1 {
            begins_on + " to "@ + ends_on
        } else {
            begins_on + " - "@ + integer_text(whole_units(self.span(), NANOS_PER_HOUR as int))
                + "h"@
        }
    }

    /// Writes when the event takes place.
    pub fn make_date_string(&self, begins_on: &str, ends_on: &str) -> (text: String)
        ensures
            text@ == self.date_text(begins_on@, ends_on@),
    {
        let mut text: String = begins_on.to_string();
        if self.is_long() {
            text.append(" to ");
            text.append(ends_on);
        } else {
            text.append(" - ");
            let hours: String = write_integer(self.compute_duration_in_hours());
            text.append(hours.as_str());
            text.append("h");
        }
        text
    }
}

} // verus!
