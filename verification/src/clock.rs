//! Points in time, as far as a run needs them: the clock, comparison, adding
//! a granted lifetime, and the two textual forms written to disk and to the
//! log.

use vstd::prelude::*;
use crate::error::Error;

verus! {

/// Nanoseconds in one second.
pub const NANOS_PER_SECOND: i128 = 1_000_000_000;

/// The earliest instant that can be represented: the start of the year -9999,
/// in nanoseconds since the Unix epoch.
pub const MIN_UNIX_NANOS: i128 = -377_705_116_800_000_000_000;

/// The latest instant that can be represented: the last nanosecond of the
/// year 9999, in nanoseconds since the Unix epoch.
pub const MAX_UNIX_NANOS: i128 = 253_402_300_799_999_999_999;

/// The start of the year 0, in nanoseconds since the Unix epoch. Earlier
/// instants have no RFC 3339 form.
pub const YEAR_ZERO_UNIX_NANOS: i128 = -62_167_219_200_000_000_000;

/// Whether `unix_nanos` lies within the representable range.
pub open spec fn representable(unix_nanos: int) -> bool {
    MIN_UNIX_NANOS <= unix_nanos <= MAX_UNIX_NANOS
}

/// The RFC 3339 text of the instant `unix_nanos`, in UTC.
pub uninterp spec fn rfc3339_text(unix_nanos: int) -> Seq<char>;

/// The text with which the instant `unix_nanos` is shown in the log.
pub uninterp spec fn display_text(unix_nanos: int) -> Seq<char>;

/// `time::error::Format`, the formatter's failure. It is only carried from
/// the formatter to where its text is taken; nothing is claimed about it.
#[verifier::external_type_specification]
#[verifier::external_body]
pub struct ExFormat(time::error::Format);

/// `time::OffsetDateTime::now_utc`, read as nanoseconds since the Unix epoch.
/// Nothing is claimed about which instant comes back, only that it is one the
/// `time` crate can hold.
#[verifier::external_body]
fn system_unix_nanos() -> (unix_nanos: i128)
    ensures
        representable(unix_nanos as int),
{
    time::OffsetDateTime::now_utc().unix_timestamp_nanos()
}

/// `time::OffsetDateTime::format` with the well-known RFC 3339 description,
/// on the UTC date-time at `unix_nanos`. The formatter refuses exactly the
/// years outside 0..=9999; otherwise its output is the text named
/// `rfc3339_text`.
#[verifier::external_body]
fn format_rfc3339(unix_nanos: i128) -> (r: Result<String, time::error::Format>)
    requires
        representable(unix_nanos as int),
    ensures
        r is Ok <==> YEAR_ZERO_UNIX_NANOS <= unix_nanos,
        r matches Ok(text) ==> text@ == rfc3339_text(unix_nanos as int),
{
    time::OffsetDateTime::from_unix_timestamp_nanos(unix_nanos).unwrap().format(
        &time::format_description::well_known::Rfc3339,
    )
}

/// The `Display` text of a `time::error::Format`.
#[verifier::external_body]
fn format_error_text(e: &time::error::Format) -> (text: String) {
    e.to_string()
}

/// The `Display` text of the UTC `time::OffsetDateTime` at `unix_nanos`.
#[verifier::external_body]
fn format_display(unix_nanos: i128) -> (text: String)
    requires
        representable(unix_nanos as int),
    ensures
        text@ == display_text(unix_nanos as int),
{
    time::OffsetDateTime::from_unix_timestamp_nanos(unix_nanos).unwrap().to_string()
}

/// An instant, counted in nanoseconds since the Unix epoch. Every value lies
/// between the years -9999 and 9999.
#[derive(Clone, Copy, Debug)]
pub struct Timestamp {
    unix_nanos: i128,
}

impl View for Timestamp {
    type V = int;

    closed spec fn view(&self) -> int {
        self.unix_nanos as int
    }
}

impl Timestamp {
    #[verifier::type_invariant]
    spec fn in_range(self) -> bool {
        representable(self.unix_nanos as int)
    }

    /// The instant `unix_nanos` nanoseconds after the Unix epoch, if it is
    /// representable.
    pub fn from_unix_nanos(unix_nanos: i128) -> (r: Option<Timestamp>)
        ensures
            r is Some <==> representable(unix_nanos as int),
            r matches Some(t) ==> t@ == unix_nanos,
    {
        if MIN_UNIX_NANOS <= unix_nanos && unix_nanos <= MAX_UNIX_NANOS {
            Some(Timestamp { unix_nanos })
        } else {
            None
        }
    }

    /// Nanoseconds since the Unix epoch.
    pub fn unix_nanos(&self) -> (n: i128)
        ensures
            n == self@,
            representable(n as int),
    {
        proof {
            use_type_invariant(self);
        }
        self.unix_nanos
    }

    /// The current instant, as the system clock gives it.
    pub fn now() -> (t: Timestamp)
        ensures
            representable(t@),
    {
        Timestamp { unix_nanos: system_unix_nanos() }
    }

    /// Whether this instant lies strictly before `other`.
    pub fn is_before(&self, other: &Timestamp) -> (b: bool)
        ensures
            b == (self@ < other@),
    {
        self.unix_nanos < other.unix_nanos
    }

    /// The instant `seconds` whole seconds later, if it is representable.
    pub fn plus_seconds(&self, seconds: u64) -> (r: Option<Timestamp>)
        ensures
            r is Some <==> representable(self@ + seconds * NANOS_PER_SECOND),
            r matches Some(t) ==> t@ == self@ + seconds * NANOS_PER_SECOND,
    {
        proof {
            use_type_invariant(self);
        }
        let lifetime: i128 = (seconds as i128) * NANOS_PER_SECOND;
        Timestamp::from_unix_nanos(self.unix_nanos + lifetime)
    }

    /// The RFC 3339 form of this instant, as written to the token file. It
    /// exists from the year 0 on; earlier instants give a `TimeFormat` error.
    pub fn rfc3339(&self) -> (r: Result<String, Error>)
        ensures
            r is Ok <==> YEAR_ZERO_UNIX_NANOS <= self@,
            r matches Ok(text) ==> text@ == rfc3339_text(self@),
            r matches Err(e) ==> e is TimeFormat,
    {
        proof {
            use_type_invariant(self);
        }
        match format_rfc3339(self.unix_nanos) {
            Ok(text) => Ok(text),
            Err(e) => Err(Error::TimeFormat(format_error_text(&e))),
        }
    }

    /// The form of this instant that is written to the log.
    pub fn to_string(&self) -> (text: String)
        ensures
            text@ == display_text(self@),
    {
        proof {
            use_type_invariant(self);
        }
        format_display(self.unix_nanos)
    }
}

} // verus!
