//! From a file's name to the date it was named for.

use vstd::prelude::*;
use vstd::string::*;
use vstd::utf8::*;
use crate::card::ScoreCard;
use crate::error::{AppError, NameFault};
use crate::time::{is_calendar_date, midnight_utc_seconds, PointInTime};

verus! {

/// Byte offset at which the date tag starts in a file name.
pub const TAG_START: usize = 11;

/// Byte offset just past the date tag.
pub const TAG_END: usize = 17;

/// The date tag of a file name: the text held by bytes 11 to 16 of its
/// UTF-8 form, if the name is longer than 17 bytes and those six bytes do
/// not cut a character in two.
pub open spec fn date_tag(name: Seq<char>) -> Result<Seq<char>, AppError> {
    let bytes = encode_utf8(name);
    if bytes.len() <= TAG_END {
        Err(AppError::BadName(NameFault::TooShort))
    } else if !is_char_boundary(bytes, TAG_START as int) || !is_char_boundary(
        bytes,
        TAG_END as int,
    ) {
        Err(AppError::BadName(NameFault::InvalidDate))
    } else {
        Ok(decode_utf8(bytes.subrange(TAG_START as int, TAG_END as int)))
    }
}

/// In a name of ASCII characters bytes and characters coincide: a name of
/// at least 18 characters has the six characters from position 11 on as its
/// date tag.
pub proof fn lemma_ascii_name_tag(name: Seq<char>)
    requires
        is_ascii_chars(name),
        name.len() >= 18,
    ensures
        date_tag(name) == Ok::<Seq<char>, AppError>(name.subrange(11, 17)),
{
    broadcast use group_utf8_lib;

    let bytes = encode_utf8(name);
    let tag = name.subrange(11, 17);
    is_ascii_chars_encode_utf8(name);
    assert(is_ascii_chars(tag));
    is_ascii_chars_encode_utf8(tag);
    assert(encode_utf8(tag) =~= bytes.subrange(11, 17));
    assert(!is_continuation_byte(bytes[11]) && !is_continuation_byte(bytes[17])) by {
        assert(name[11] as u8 == bytes[11]);
        assert(name[17] as u8 == bytes[17]);
        utf8_byte_ranges_bitwise(bytes[11]);
        utf8_byte_ranges_bitwise(bytes[17]);
    }
    is_char_boundary_iff_not_is_continuation_byte(bytes, 11);
    is_char_boundary_iff_not_is_continuation_byte(bytes, 17);
    encode_utf8_decode_utf8(tag);
}

/// Whether `c` is one of the ten decimal digits.
pub open spec fn is_digit(c: char) -> bool {
    '0' <= c && c <= '9'
}

/// The number that two decimal digits spell at `at` and `at + 1`.
pub open spec fn two_digits(text: Seq<char>, at: int) -> int {
    10 * (text[at] as int - '0' as int) + (text[at + 1] as int - '0' as int)
}

/// Whether `tag` is made of exactly six decimal digits.
pub open spec fn is_digit_tag(tag: Seq<char>) -> bool {
    tag.len() == 6 && forall|i: int| 0 <= i < 6 ==> is_digit(#[trigger] tag[i])
}

/// The year a six-digit tag names: its first two digits, taken for 2000 to
/// 2069 below 70 and for 1970 to 1999 from 70 on.
pub open spec fn tag_year(tag: Seq<char>) -> int {
    let yy = two_digits(tag, 0);
    if yy < 70 {
        2000 + yy
    } else {
        1900 + yy
    }
}

/// The month a six-digit tag names.
pub open spec fn tag_month(tag: Seq<char>) -> int {
    two_digits(tag, 2)
}

/// The day of the month a six-digit tag names.
pub open spec fn tag_day(tag: Seq<char>) -> int {
    two_digits(tag, 4)
}

/// Midnight UTC of the day that a six-digit tag names, where it names one.
pub open spec fn tag_midnight(tag: Seq<char>) -> Option<PointInTime> {
    if is_calendar_date(tag_year(tag), tag_month(tag), tag_day(tag)) {
        Some(
            PointInTime {
                seconds: midnight_utc_seconds(tag_year(tag), tag_month(tag), tag_day(tag)) as i64,
                nanos: 0,
            },
        )
    } else {
        None
    }
}

/// The text handed to the date parser for a tag: the tag, a time of day of
/// `000000` and an offset of `+0000`.
pub open spec fn stamp_text(tag: Seq<char>) -> Seq<char> {
    tag + "000000+0000"@
}

/// The format against which a stamp text is parsed.
pub open spec fn stamp_format() -> Seq<char> {
    "%y%m%d%H%M%S%z"@
}

/// What chrono's `DateTime::parse_from_str` makes of a text under a format:
/// the instant it parsed, or `None` where it turned the text down.
pub uninterp spec fn parsed_instant(text: Seq<char>, format: Seq<char>) -> Option<PointInTime>;

/// Calls chrono's `DateTime::parse_from_str` and reads the instant off the
/// result with `timestamp` and `timestamp_subsec_nanos`.
///
/// Trusted, not proved, and asked of the format `%y%m%d%H%M%S%z` alone: the
/// outcome is `parsed_instant` of the two texts; and a text of six digits
/// followed by `000000+0000` parses to midnight UTC of the day the digits
/// name, with two-digit years below 70 in the 2000s and the others in the
/// 1900s, and is turned down where the digits name no day of the calendar.
#[verifier::external_body]
fn parse_instant(text: &str, format: &str) -> (r: Option<PointInTime>)
    requires
        format@ == stamp_format(),
    ensures
        r == parsed_instant(text@, format@),
        is_digit_tag(text@.subrange(0, 6)) && text@ == stamp_text(text@.subrange(0, 6)) ==> r
            == tag_midnight(text@.subrange(0, 6)),
{
    match chrono::DateTime::parse_from_str(text, format) {
        Ok(parsed) => Some(
            PointInTime { seconds: parsed.timestamp(), nanos: parsed.timestamp_subsec_nanos() },
        ),
        Err(_) => None,
    }
}

/// The date a file name stands for: what the date parser makes of its tag.
pub open spec fn name_instant(name: Seq<char>) -> Result<PointInTime, AppError> {
    match date_tag(name) {
        Err(e) => Err(e),
        Ok(tag) => match parsed_instant(stamp_text(tag), stamp_format()) {
            Some(instant) => Ok(instant),
            None => Err(AppError::BadName(NameFault::InvalidDate)),
        },
    }
}

impl ScoreCard {
    /// Extracts the six-byte date tag that starts at byte 11 of `file_name`.
    ///
    /// A name of 17 bytes or fewer is too short. A name in which byte 11 or
    /// byte 17 lies inside a character has no tag that is text.
    pub fn date_tag_from_file_name(file_name: &str) -> (r: Result<String, AppError>)
        ensures
            match r {
                Ok(tag) => date_tag(file_name@) == Ok::<Seq<char>, AppError>(tag@),
                Err(e) => date_tag(file_name@) == Err::<Seq<char>, AppError>(e),
            },
            encode_utf8(file_name@).len() < 18 ==> r == Err::<String, AppError>(
                AppError::BadName(NameFault::TooShort),
            ),
            is_ascii_chars(file_name@) && file_name@.len() >= 18 ==> (r matches Ok(tag) && tag@
                == file_name@.subrange(11, 17)),
    {
        broadcast use group_utf8_lib;

        proof {
            if is_ascii_chars(file_name@) && file_name@.len() >= 18 {
                lemma_ascii_name_tag(file_name@);
            }
        }

        if file_name.as_bytes().len() <= TAG_END {
            return Err(AppError::BadName(NameFault::TooShort));
        }
        if !file_name.is_char_boundary(TAG_START) || !file_name.is_char_boundary(TAG_END) {
            return Err(AppError::BadName(NameFault::InvalidDate));
        }
        let (head, _) = file_name.split_at(TAG_END);
        proof {
            let bytes = file_name.spec_bytes();
            let front = head.spec_bytes();
            assert(front =~= bytes.subrange(0, 17));
            valid_utf8_split(bytes, 17);
            is_char_boundary_iff_not_is_continuation_byte(bytes, 11);
            is_char_boundary_iff_not_is_continuation_byte(front, 11);
        }
        let (_, tag) = head.split_at(TAG_START);
        assert(tag.spec_bytes() =~= file_name.spec_bytes().subrange(11, 17));
        Ok(tag.to_owned())
    }

    /// Reads the date off a file name: the tag is completed to a full stamp
    /// at midnight UTC and handed to the date parser.
    ///
    /// Whatever the tag holds, the result is what the parser makes of the
    /// stamp. For a tag of six digits the result is spelled out: midnight
    /// UTC of the day they name, or `InvalidDate` where they name none.
    pub fn systime_from_file_name(file_name: &str) -> (r: Result<PointInTime, AppError>)
        ensures
            r == name_instant(file_name@),
            date_tag(file_name@) matches Ok(tag) ==> (is_digit_tag(tag) ==> r == match tag_midnight(
                tag,
            ) {
                Some(instant) => Ok::<PointInTime, AppError>(instant),
                None => Err(AppError::BadName(NameFault::InvalidDate)),
            }),
    {
        let mut text = match Self::date_tag_from_file_name(file_name) {
            Ok(tag) => tag,
            Err(e) => {
                return Err(e);
            },
        };
        let ghost tag = text@;
        text.append("000000+0000");
        proof {
            reveal_strlit("000000+0000");
            if is_digit_tag(tag) {
                assert(text@.subrange(0, 6) =~= tag);
            }
        }
        match parse_instant(text.as_str(), "%y%m%d%H%M%S%z") {
            Some(instant) => Ok(instant),
            None => Err(AppError::BadName(NameFault::InvalidDate)),
        }
    }
}

} // verus!
