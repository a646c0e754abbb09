//! Conversions between epoch counts, RFC 3339 text and UTC instants.
//!
//! Calendar arithmetic is left to `chrono`; this module fixes which instants
//! exist, what is handed to `chrono`, and what comes back.

use chrono::format::ParseErrorKind;
use chrono::{DateTime, SecondsFormat, TimeZone, Utc};
use vstd::prelude::*;

verus! {

/// Epoch seconds of the earliest instant `chrono` represents,
/// midnight of January 1 of the year -262143.
pub const MIN_UTC_SECONDS: i64 = -8_334_601_228_800;

/// Epoch seconds of the last whole second `chrono` represents,
/// 23:59:59 of December 31 of the year 262142.
pub const MAX_UTC_SECONDS: i64 = 8_210_266_876_799;

/// Whether an epoch-second count lies in the range of representable instants.
pub open spec fn representable_seconds(seconds: int) -> bool {
    MIN_UTC_SECONDS <= seconds <= MAX_UTC_SECONDS
}

/// Epoch seconds of the first second of the year 0000.
pub const MIN_FOUR_DIGIT_SECONDS: i64 = -62_167_219_200;

/// Epoch seconds of the last second of the year 9999.
pub const MAX_FOUR_DIGIT_SECONDS: i64 = 253_402_300_799;

/// Whether an epoch second lies in a year from 0000 to 9999, the years that
/// RFC 3339 has a text for.
pub open spec fn four_digit_year(seconds: int) -> bool {
    MIN_FOUR_DIGIT_SECONDS <= seconds <= MAX_FOUR_DIGIT_SECONDS
}

/// The instant at the start of an epoch second, as a text written with `Z`
/// reads: no fraction, and no offset from UTC.
pub open spec fn whole_second_at_utc(seconds: int) -> OffsetInstant {
    OffsetInstant { seconds: seconds as i64, nanos: 0, offset_seconds: 0 }
}

/// Whether a text is an RFC 3339 date and time that reads as `instant`.
pub open spec fn reads_as(text: Seq<char>, instant: OffsetInstant) -> bool {
    rfc3339_reading(text) == Ok::<OffsetInstant, ParseError>(instant)
}

/// Whether `nanos` is a nanosecond count that may accompany `seconds`: below
/// one second, or below two during a leap second, which only the last second
/// of a minute can carry.
pub open spec fn admissible_nanos(seconds: int, nanos: int) -> bool {
    0 <= nanos < 1_000_000_000 || (nanos < 2_000_000_000 && seconds % 60 == 59)
}

/// An instant on the UTC time line: whole seconds since 1970-01-01T00:00:00Z
/// and the nanoseconds into that second.
#[derive(Clone, Copy, Debug, PartialEq, Eq, Structural)]
pub struct UtcInstant {
    seconds: i64,
    nanos: u32,
}

/// An instant together with the offset from UTC, in seconds east, under which
/// it was written down.
#[derive(Clone, Copy, Debug, PartialEq, Eq, Structural)]
pub struct OffsetInstant {
    pub seconds: i64,
    pub nanos: u32,
    pub offset_seconds: i32,
}

/// Why a text is not an RFC 3339 date and time.
#[derive(Clone, Copy, Debug, PartialEq, Eq, Structural)]
pub enum ParseError {
    /// A field is outside its permitted range.
    OutOfRange,
    /// The text holds a character that cannot stand where it does.
    Invalid,
    /// The text ends too early.
    TooShort,
    /// The text goes on after a complete date and time.
    TooLong,
    /// Any other defect.
    Other,
}

/// What `chrono::DateTime::parse_from_rfc3339` makes of a text.
pub uninterp spec fn rfc3339_reading(text: Seq<char>) -> Result<OffsetInstant, ParseError>;

/// The text `chrono` writes for the UTC instant `nanos` nanoseconds into the
/// epoch second `seconds`, in RFC 3339 form without a fraction and with `Z`
/// for the offset.
pub uninterp spec fn rfc3339_utc_text(seconds: int, nanos: int) -> Seq<char>;

/// `chrono::TimeZone::timestamp_millis_opt` on `Utc`: the count is split into
/// whole seconds, rounded toward the past, and the milliseconds left over;
/// there is an instant exactly when the seconds are representable.
#[verifier::external_body]
fn utc_timestamp_millis(milliseconds: i64) -> (parts: Option<(i64, u32)>)
    ensures
        parts == (if representable_seconds(milliseconds / 1000) {
            Some(((milliseconds / 1000) as i64, ((milliseconds % 1000) * 1_000_000) as u32))
        } else {
            None
        }),
{
    Utc.timestamp_millis_opt(milliseconds).single().map(
        |d| (d.timestamp(), d.timestamp_subsec_nanos()),
    )
}

/// `chrono::TimeZone::timestamp_opt` on `Utc`: there is an instant exactly
/// when the seconds are representable and the nanoseconds admissible, and it
/// reports both as they were given.
#[verifier::external_body]
fn utc_timestamp(seconds: i64, nanos: u32) -> (parts: Option<(i64, u32)>)
    ensures
        parts == (if representable_seconds(seconds as int) && admissible_nanos(
            seconds as int,
            nanos as int,
        ) {
            Some((seconds, nanos))
        } else {
            None
        }),
{
    Utc.timestamp_opt(seconds, nanos).single().map(|d| (d.timestamp(), d.timestamp_subsec_nanos()))
}

/// `chrono::DateTime::parse_from_rfc3339`, with the instant taken apart into
/// epoch seconds, nanoseconds and offset, and the error into its category.
#[verifier::external_body]
fn parse_rfc3339(text: &str) -> (reading: Result<OffsetInstant, ParseError>)
    ensures
        reading == rfc3339_reading(text@),
{
    match DateTime::parse_from_rfc3339(text) {
        Ok(d) => Ok(OffsetInstant {
            seconds: d.timestamp(),
            nanos: d.timestamp_subsec_nanos(),
            offset_seconds: d.offset().local_minus_utc(),
        }),
        Err(e) => Err(match e.kind() {
            ParseErrorKind::OutOfRange => ParseError::OutOfRange,
            ParseErrorKind::Invalid => ParseError::Invalid,
            ParseErrorKind::TooShort => ParseError::TooShort,
            ParseErrorKind::TooLong => ParseError::TooLong,
            _ => ParseError::Other,
        }),
    }
}

/// `chrono::DateTime::from_timestamp`, then `to_rfc3339_opts` with whole
/// seconds and `Z`: there is a text exactly when the seconds are
/// representable and the nanoseconds admissible, and it ends in the `Z` that
/// stands for the offset of UTC. In the years 0000 to 9999 the text has the
/// form `YYYY-MM-DDTHH:MM:SSZ`, which `parse_from_rfc3339` reads as the
/// start of the same second at offset zero, unless the second is a leap
/// second.
#[verifier::external_body]
fn format_utc(seconds: i64, nanos: u32) -> (text: Option<String>)
    ensures
        text is Some <==> (representable_seconds(seconds as int) && admissible_nanos(
            seconds as int,
            nanos as int,
        )),
        text is Some ==> text->0@ == rfc3339_utc_text(seconds as int, nanos as int),
        text is Some ==> text->0@.len() > 0 && text->0@.last() == 'Z',
        (text is Some && four_digit_year(seconds as int) && nanos < 1_000_000_000) ==> reads_as(
            text->0@,
            whole_second_at_utc(seconds as int),
        ),
{
    DateTime::from_timestamp(seconds, nanos).map(
        |d| d.to_rfc3339_opts(SecondsFormat::Secs, true),
    )
}

impl UtcInstant {
    #[verifier::type_invariant]
    spec fn in_range(self) -> bool {
        &&& representable_seconds(self.seconds as int)
        &&& self.nanos < 1_000_000_000
    }

    /// The instant `nanos` nanoseconds into the epoch second `seconds`.
    pub closed spec fn at(seconds: int, nanos: int) -> UtcInstant {
        UtcInstant { seconds: seconds as i64, nanos: nanos as u32 }
    }

    /// The parts of a representable instant are the ones it was made of.
    pub proof fn lemma_at(seconds: int, nanos: int)
        requires
            representable_seconds(seconds),
            0 <= nanos < 1_000_000_000,
        ensures
            Self::at(seconds, nanos).timestamp() == seconds,
            Self::at(seconds, nanos).timestamp_subsec_nanos() == nanos,
    {
    }

    /// Epoch seconds of this instant, rounded toward the past.
    pub closed spec fn spec_timestamp(self) -> i64 {
        self.seconds
    }

    /// Nanoseconds since the last whole second.
    pub closed spec fn spec_timestamp_subsec_nanos(self) -> u32 {
        self.nanos
    }

    /// Nanoseconds from the epoch to this instant.
    pub open spec fn nanos_since_epoch(self) -> int {
        self.timestamp() * 1_000_000_000 + self.timestamp_subsec_nanos()
    }

    /// The instant `nanos` nanoseconds into the epoch second `seconds`, where
    /// that second is representable and `nanos` is less than a second.
    pub fn new(seconds: i64, nanos: u32) -> (instant: Option<UtcInstant>)
        ensures
            instant == (if representable_seconds(seconds as int) && nanos < 1_000_000_000 {
                Some(Self::at(seconds as int, nanos as int))
            } else {
                None
            }),
    {
        if nanos >= 1_000_000_000 {
            return None;
        }
        match utc_timestamp(seconds, nanos) {
            Some((seconds, nanos)) => Some(UtcInstant { seconds, nanos }),
            None => None,
        }
    }

    #[verifier::when_used_as_spec(spec_timestamp)]
    pub fn timestamp(self) -> (seconds: i64)
        ensures
            seconds == self.spec_timestamp(),
            representable_seconds(seconds as int),
    {
        proof {
            use_type_invariant(self);
        }
        self.seconds
    }

    #[verifier::when_used_as_spec(spec_timestamp_subsec_nanos)]
    pub fn timestamp_subsec_nanos(self) -> (nanos: u32)
        ensures
            nanos == self.spec_timestamp_subsec_nanos(),
            nanos < 1_000_000_000,
    {
        proof {
            use_type_invariant(self);
        }
        self.nanos
    }
}

/// Namespace of the timestamp conversions.
pub struct DateTimeOffsetExtensions;

impl DateTimeOffsetExtensions {
    /// The instant a millisecond count stands for: its whole seconds,
    /// rounded toward the past, and the milliseconds left over.
    pub open spec fn instant_of_milliseconds(milliseconds: int) -> UtcInstant {
        UtcInstant::at(milliseconds / 1000, (milliseconds % 1000) * 1_000_000)
    }

    /// The instant at the start of an epoch second.
    pub open spec fn instant_of_seconds(seconds: int) -> UtcInstant {
        UtcInstant::at(seconds, 0)
    }

    /// The text of an instant: that of the start of its second.
    pub open spec fn utc_text(instant: UtcInstant) -> Seq<char> {
        rfc3339_utc_text(instant.timestamp() as int, 0)
    }

    /// The instant `milliseconds` after the epoch (before it, when negative).
    ///
    /// An instant is one that `chrono` can hold, from the year -262143 to
    /// the year 262142; a count of milliseconds may lie far beyond that.
    /// The count has to fall on a representable second: there is no instant
    /// to give for any other.
    pub fn from_utc_unix_time_milliseconds(milliseconds: i64) -> (instant: UtcInstant)
        requires
            representable_seconds(milliseconds / 1000),
        ensures
            instant == Self::instant_of_milliseconds(milliseconds as int),
            instant.timestamp() == milliseconds / 1000,
            instant.timestamp_subsec_nanos() == (milliseconds % 1000) * 1_000_000,
    {
        match utc_timestamp_millis(milliseconds) {
            Some((seconds, nanos)) => UtcInstant { seconds, nanos },
            None => vstd::pervasive::unreached(),
        }
    }

    /// The instant `seconds` after the epoch (before it, when negative).
    ///
    /// The second has to be a representable one, as for
    /// `from_utc_unix_time_milliseconds`; `UtcInstant::new` gives `None` in
    /// place of this demand.
    pub fn from_utc_unix_time_seconds(seconds: i64) -> (instant: UtcInstant)
        requires
            representable_seconds(seconds as int),
        ensures
            instant == Self::instant_of_seconds(seconds as int),
            instant.timestamp() == seconds,
            instant.timestamp_subsec_nanos() == 0,
    {
        match utc_timestamp(seconds, 0) {
            Some((seconds, nanos)) => UtcInstant { seconds, nanos },
            None => vstd::pervasive::unreached(),
        }
    }

    /// Reads an RFC 3339 date and time.
    pub fn from_utc_iso8601_string(date_time: &str) -> (reading: Result<OffsetInstant, ParseError>)
        ensures
            reading == rfc3339_reading(date_time@),
    {
        parse_rfc3339(date_time)
    }

    /// Writes the instant in RFC 3339 form, cut to whole seconds, with `Z`
    /// for the offset.
    ///
    /// In the years 0000 to 9999 the text reads back, through
    /// `from_utc_iso8601_string`, as the start of the second it was written
    /// for. Outside of them the year is written with a sign and more
    /// digits, which is no RFC 3339.
    pub fn to_utc_iso8601_string(date_time: &UtcInstant) -> (text: String)
        ensures
            text@ == Self::utc_text(*date_time),
            text@.len() > 0 && text@.last() == 'Z',
            four_digit_year(date_time.timestamp() as int) ==> reads_as(
                text@,
                whole_second_at_utc(date_time.timestamp() as int),
            ),
    {
        proof {
            use_type_invariant(date_time);
        }
        match format_utc(date_time.seconds, 0) {
            Some(text) => text,
            None => vstd::pervasive::unreached(),
        }
    }

    /// Writes the instant as `to_utc_iso8601_string` does.
    pub fn to_rfc3339_string(date_time: &UtcInstant) -> (text: String)
        ensures
            text@ == Self::utc_text(*date_time),
            text@.len() > 0 && text@.last() == 'Z',
            four_digit_year(date_time.timestamp() as int) ==> reads_as(
                text@,
                whole_second_at_utc(date_time.timestamp() as int),
            ),
    {
        Self::to_utc_iso8601_string(date_time)
    }

    /// What lies below the second leaves no trace in the text: the instant of
    /// a millisecond count is written as the start of its second is.
    pub proof fn lemma_text_keeps_whole_second(milliseconds: i64)
        requires
            representable_seconds(milliseconds / 1000),
        ensures
            Self::utc_text(Self::instant_of_milliseconds(milliseconds as int)) == Self::utc_text(
                Self::instant_of_seconds(milliseconds / 1000),
            ),
            Self::utc_text(Self::instant_of_milliseconds(milliseconds as int)) == rfc3339_utc_text(
                milliseconds / 1000,
                0,
            ),
    {
        UtcInstant::lemma_at(milliseconds / 1000, (milliseconds % 1000) * 1_000_000);
        UtcInstant::lemma_at(milliseconds / 1000, 0);
    }
}

} // verus!
