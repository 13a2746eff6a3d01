//! The version of a server instance, read from its dotted text form.

use core::num::ParseIntError;
use vstd::prelude::*;
use vstd::string::*;

verus! {

#[verifier::external_type_specification]
#[verifier::external_body]
pub struct ExParseIntError(core::num::ParseIntError);

/// Why a text is not an instance version.
#[derive(Debug)]
pub enum InstanceVersionParsingError {
    /// A component is not an integer; the payload is the diagnostic of the
    /// integer parser.
    ParseIntError(ParseIntError),
    /// The components are integers, but there are not three of them; the
    /// payload is the text as it was given.
    ParseError(String),
}

/// Major, minor and patch number of a server instance.
#[derive(Debug, Clone, Copy, PartialEq, Eq, Structural)]
pub struct InstanceVersion {
    pub major: i32,
    pub minor: i32,
    pub patch: i32,
}

/// What a text reads as.
pub enum VersionReading {
    /// Three integers between dots.
    Version { major: int, minor: int, patch: int },
    /// Some component is not an `i32`.
    InvalidInteger,
    /// All components are integers, but there are not three.
    WrongShape,
}

/// An ASCII decimal digit.
pub open spec fn is_decimal_digit(c: char) -> bool {
    '0' <= c && c <= '9'
}

/// The number that a sequence of decimal digits writes.
pub open spec fn decimal_value(digits: Seq<char>) -> int
    decreases digits.len(),
{
    if digits.len() == 0 {
        0
    } else {
        10 * decimal_value(digits.drop_last()) + (digits.last() as int - '0' as int)
    }
}

/// Whether every character of a text is a decimal digit.
pub open spec fn all_decimal_digits(digits: Seq<char>) -> bool {
    forall|i: int| 0 <= i < digits.len() ==> is_decimal_digit(#[trigger] digits[i])
}

/// Whether a text begins with a sign.
pub open spec fn is_signed(text: Seq<char>) -> bool {
    text.len() > 0 && (text[0] == '-' || text[0] == '+')
}

/// A text without its sign, if it begins with one.
pub open spec fn unsigned_part(text: Seq<char>) -> Seq<char> {
    if is_signed(text) {
        text.skip(1)
    } else {
        text
    }
}

/// The integer that a text writes as an optional sign and at least one
/// decimal digit, if it fits in an `i32`.
pub open spec fn i32_reading(text: Seq<char>) -> Option<int> {
    let magnitude = decimal_value(unsigned_part(text));
    let value = if text.len() > 0 && text[0] == '-' {
        -magnitude
    } else {
        magnitude
    };
    if unsigned_part(text).len() > 0 && all_decimal_digits(unsigned_part(text)) && i32::MIN
        <= value <= i32::MAX {
        Some(value)
    } else {
        None
    }
}

/// First position at or after `from` that holds a dot; the length of the text if none does.
pub open spec fn segment_end(text: Seq<char>, from: int) -> int
    decreases text.len() - from,
{
    if from < 0 || from >= text.len() {
        text.len() as int
    } else if text[from] == '.' {
        from
    } else {
        segment_end(text, from + 1)
    }
}

/// The pieces between the dots of `text`, from position `from` on. A text
/// without a dot is one piece, and an empty text one empty piece. (A piece
/// never ends before it starts: `law_segment_end` shows it.)
pub open spec fn segments_from(text: Seq<char>, from: int) -> Seq<Seq<char>>
    decreases text.len() - from,
{
    if from < 0 || from > text.len() {
        Seq::empty()
    } else {
        let end = segment_end(text, from);
        if end >= text.len() {
            seq![text.subrange(from, text.len() as int)]
        } else if end < from {
            Seq::empty()
        } else {
            seq![text.subrange(from, end)] + segments_from(text, end + 1)
        }
    }
}

/// The pieces between the dots of `text`.
pub open spec fn dot_segments(text: Seq<char>) -> Seq<Seq<char>> {
    segments_from(text, 0)
}

/// Whether some piece is not an `i32`.
pub open spec fn has_invalid(segments: Seq<Seq<char>>) -> bool {
    exists|i: int| 0 <= i < segments.len() && i32_reading(#[trigger] segments[i]) is None
}

/// What `text` reads as: every piece must be an `i32`, and then there must be
/// exactly three.
pub open spec fn version_reading(text: Seq<char>) -> VersionReading {
    let segments = dot_segments(text);
    if has_invalid(segments) {
        VersionReading::InvalidInteger
    } else if segments.len() == 3 {
        VersionReading::Version {
            major: i32_reading(segments[0])->0,
            minor: i32_reading(segments[1])->0,
            patch: i32_reading(segments[2])->0,
        }
    } else {
        VersionReading::WrongShape
    }
}

/// Whether `read` is what reading `text` gives: the version, or the error
/// that tells why it is none, `ParseError` with the text itself.
pub open spec fn reads_as(
    text: Seq<char>,
    read: Result<InstanceVersion, InstanceVersionParsingError>,
) -> bool {
    match read {
        Ok(version) => version_reading(text) == (VersionReading::Version {
            major: version.major as int,
            minor: version.minor as int,
            patch: version.patch as int,
        }),
        Err(InstanceVersionParsingError::ParseIntError(_)) => version_reading(
            text,
        ) is InvalidInteger,
        Err(InstanceVersionParsingError::ParseError(given)) => version_reading(text) is WrongShape
            && given@ == text,
    }
}

/// `<i32 as core::str::FromStr>::from_str`: it accepts an optional `+` or `-`
/// followed by decimal digits only, at least one, whose value fits in an
/// `i32`, and returns that value; on every other text it fails.
#[verifier::external_body]
pub(crate) fn read_i32(text: &str) -> (read: Result<i32, ParseIntError>)
    ensures
        match read {
            Ok(value) => i32_reading(text@) == Some(value as int),
            Err(_) => i32_reading(text@) is None,
        },
{
    <i32 as core::str::FromStr>::from_str(text)
}

/// The pieces put together again, a dot between each two.
pub open spec fn joined(pieces: Seq<Seq<char>>) -> Seq<char>
    decreases pieces.len(),
{
    if pieces.len() == 0 {
        Seq::empty()
    } else if pieces.len() == 1 {
        pieces[0]
    } else {
        pieces[0] + seq!['.'] + joined(pieces.drop_first())
    }
}

/// The piece that starts at `from` ends at or after `from`, within the text,
/// at a dot or at the end of the text, and holds no dot.
pub proof fn law_segment_end(text: Seq<char>, from: int)
    requires
        0 <= from <= text.len(),
    ensures
        from <= segment_end(text, from) <= text.len(),
        segment_end(text, from) < text.len() ==> text[segment_end(text, from)] == '.',
        forall|k: int| from <= k < segment_end(text, from) ==> text[k] != '.',
    decreases text.len() - from,
{
    if from < text.len() && text[from] != '.' {
        law_segment_end(text, from + 1);
    }
}

/// Cutting a text at its dots loses nothing and leaves no dot in a piece:
/// there is at least one piece, no piece holds a dot, and the pieces joined
/// with dots are the text again.
pub proof fn law_segments_rejoin(text: Seq<char>, from: int)
    requires
        0 <= from <= text.len(),
    ensures
        segments_from(text, from).len() >= 1,
        forall|i: int, k: int|
            0 <= i < segments_from(text, from).len() && 0 <= k < segments_from(text, from)[i].len()
                ==> segments_from(text, from)[i][k] != '.',
        joined(segments_from(text, from)) == text.skip(from),
    decreases text.len() - from,
{
    law_segment_end(text, from);
    let end = segment_end(text, from);
    if end >= text.len() {
        assert(text.subrange(from, text.len() as int) == text.skip(from));
    } else {
        law_segments_rejoin(text, end + 1);
        let head = text.subrange(from, end);
        let rest = segments_from(text, end + 1);
        let all = segments_from(text, from);
        assert(all == seq![head] + rest);
        assert(all.drop_first() == rest);
        assert(all[0] == head);
        assert(joined(all) == head + seq!['.'] + joined(rest));
        assert(head + seq!['.'] + text.skip(end + 1) == text.skip(from));
        assert forall|i: int, k: int| 0 <= i < all.len() && 0 <= k < all[i].len() implies all[i][k]
            != '.' by {
            if i > 0 {
                assert(all[i] == rest[i - 1]);
            }
        }
    }
}

/// Where no dot stands between `from` and `upto`, the piece that starts at
/// `from` ends where the one that starts at `upto` ends.
proof fn lemma_segment_end_skips(text: Seq<char>, from: int, upto: int)
    requires
        0 <= from <= upto <= text.len(),
        forall|k: int| from <= k < upto ==> text[k] != '.',
    ensures
        segment_end(text, from) == segment_end(text, upto),
    decreases upto - from,
{
    if from < upto {
        lemma_segment_end_skips(text, from + 1, upto);
    }
}

impl InstanceVersion {
    /// Reads a version written as `<int>.<int>.<int>`. The text is cut at
    /// every dot, nothing is trimmed, and each piece must be an `i32`: the
    /// first that is not gives `ParseIntError`. Any number of pieces other
    /// than three then gives `ParseError` with the text.
    pub fn from_str(s: &str) -> (read: Result<InstanceVersion, InstanceVersionParsingError>)
        ensures
            reads_as(s@, read),
    {
        let length: usize = s.unicode_len();
        let mut values: Vec<i32> = Vec::new();
        let ghost mut done: Seq<Seq<char>> = Seq::empty();
        let mut start: usize = 0;
        let mut at: usize = 0;
        while at < length
            invariant
                length == s@.len(),
                0 <= start <= at <= length,
                forall|k: int| start <= k < at ==> s@[k] != '.',
                dot_segments(s@) == done + segments_from(s@, start as int),
                done.len() == values.len(),
                forall|k: int|
                    0 <= k < done.len() ==> i32_reading(#[trigger] done[k]) == Some(
                        values[k] as int,
                    ),
            decreases length - at,
        {
            if s.get_char(at) == '.' {
                proof {
                    lemma_segment_end_skips(s@, start as int, at as int);
                }
                match read_i32(s.substring_char(start, at)) {
                    Ok(value) => {
                        values.push(value);
                        proof {
                            done = done.push(s@.subrange(start as int, at as int));
                        }
                    },
                    Err(error) => {
                        assert(has_invalid(dot_segments(s@))) by {
                            assert(i32_reading(dot_segments(s@)[done.len() as int]) is None);
                        }
                        return Err(InstanceVersionParsingError::ParseIntError(error));
                    },
                }
                start = at + 1;
            }
            at = at + 1;
        }
        proof {
            lemma_segment_end_skips(s@, start as int, length as int);
        }
        match read_i32(s.substring_char(start, length)) {
            Ok(value) => {
                values.push(value);
                proof {
                    done = done.push(s@.subrange(start as int, length as int));
                }
            },
            Err(error) => {
                assert(has_invalid(dot_segments(s@))) by {
                    assert(i32_reading(dot_segments(s@)[done.len() as int]) is None);
                }
                return Err(InstanceVersionParsingError::ParseIntError(error));
            },
        }
        assert(dot_segments(s@) == done);
        if values.len() == 3 {
            Ok(InstanceVersion { major: values[0], minor: values[1], patch: values[2] })
        } else {
            Err(InstanceVersionParsingError::ParseError(s.to_string()))
        }
    }
}

impl core::str::FromStr for InstanceVersion {
    type Err = InstanceVersionParsingError;

    /// Reads a version as `InstanceVersion::from_str` does.
    fn from_str(s: &str) -> (read: Result<Self, Self::Err>)
        ensures
            reads_as(s@, read),
    {
        InstanceVersion::from_str(s)
    }
}

impl Default for InstanceVersion {
    /// Version 0.0.0.
    fn default() -> (zero: InstanceVersion)
        ensures
            zero == (InstanceVersion { major: 0, minor: 0, patch: 0 }),
    {
        InstanceVersion { major: 0, minor: 0, patch: 0 }
    }
}

} // verus!
