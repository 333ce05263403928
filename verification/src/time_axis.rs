//! Date and time axis values: an instant model in nanoseconds from the
//! Unix epoch, the two mutually exclusive serialization policies for it
//! (RFC-3339 text and epoch-millisecond number), and the ordinal calendar
//! fragments that label category axes. RFC-3339 rendering and parsing
//! delegate to the `time` crate.

use vstd::prelude::*;
use vstd::string::*;
use crate::dispatch::{WithTypeAndSerializer, ScaleType, FormatError};
use crate::text::{int_wire, json_string_wire, append_i64, append_json_string};
use crate::numeric::{frac_digits, append_frac};

verus! {

/// An instant: nanoseconds from the Unix epoch, at UTC.
#[derive(Clone, Copy, Debug, PartialEq, Eq, Structural)]
pub struct UtcInstant {
    pub unix_nanos: i128,
}

impl UtcInstant {
    /// The instant `unix_nanos` nanoseconds from the Unix epoch.
    pub fn new(unix_nanos: i128) -> (r: UtcInstant)
        ensures
            r.unix_nanos == unix_nanos,
    {
        UtcInstant { unix_nanos }
    }
}

/// The RFC-3339 text of the instant `unix_nanos` nanoseconds from the Unix
/// epoch, rendered at UTC; nothing for instants the format cannot carry.
/// The text is a function of the instant alone.
pub uninterp spec fn rfc3339_of(unix_nanos: i128) -> Option<Seq<char>>;

/// Relies on time's `OffsetDateTime::from_unix_timestamp_nanos` and
/// `format` with the RFC-3339 well-known format: renders the instant at
/// UTC, failing exactly when the instant lies outside the range the
/// format carries (years 0 through 9999).
#[verifier::external_body]
fn format_rfc3339(unix_nanos: i128) -> (r: Option<String>)
    ensures
        r is Some <==> rfc3339_of(unix_nanos) is Some,
        r matches Some(s) ==> Some(s@) == rfc3339_of(unix_nanos),
{
    let odt = time::OffsetDateTime::from_unix_timestamp_nanos(unix_nanos).ok()?;
    odt.format(&time::format_description::well_known::Rfc3339).ok()
}

/// Relies on time's `OffsetDateTime::parse` with the RFC-3339 well-known
/// format and `unix_timestamp_nanos`: parsing the canonical RFC-3339 text
/// of an instant recovers exactly that instant.
#[verifier::external_body]
fn parse_rfc3339_nanos(s: &str) -> (r: Option<i128>)
    ensures
        forall|t: i128| rfc3339_of(t) == Some(s@) ==> r == Some(t),
{
    time::OffsetDateTime::parse(s, &time::format_description::well_known::Rfc3339).ok().map(
        |odt| odt.unix_timestamp_nanos(),
    )
}

/// The RFC-3339 text of an instant; nothing for instants outside the
/// representable range.
pub fn rfc3339_string(t: &UtcInstant) -> (r: Option<String>)
    ensures
        r is Some <==> rfc3339_of(t.unix_nanos) is Some,
        r matches Some(s) ==> Some(s@) == rfc3339_of(t.unix_nanos),
{
    format_rfc3339(t.unix_nanos)
}

/// Parses an RFC-3339 text: on the canonical text of any instant, that
/// instant comes back.
pub fn rfc3339_parse(s: &str) -> (r: Option<UtcInstant>)
    ensures
        forall|t: i128| rfc3339_of(t) == Some(s@) ==> r == Some(UtcInstant { unix_nanos: t }),
{
    match parse_rfc3339_nanos(s) {
        Some(n) => Some(UtcInstant { unix_nanos: n }),
        None => None,
    }
}

/// Round-trip law: serializing an instant to RFC-3339 text and parsing
/// that text recovers an equivalent instant, whenever the instant is
/// representable in the format at all.
pub fn rfc3339_round_trip(t: &UtcInstant) -> (r: Option<UtcInstant>)
    ensures
        rfc3339_of(t.unix_nanos) is Some ==> r == Some(*t),
{
    match rfc3339_string(t) {
        Some(s) => rfc3339_parse(s.as_str()),
        None => None,
    }
}

/// An instant under the textual time policy: serializes as its RFC-3339
/// text. One deployment picks this or [`EpochMillisStamp`], never both on
/// one axis.
#[derive(Clone, Copy, Debug, PartialEq, Eq, Structural)]
pub struct Rfc3339Stamp(pub UtcInstant);

impl WithTypeAndSerializer for Rfc3339Stamp {
    open spec fn category() -> ScaleType {
        ScaleType::Time
    }

    open spec fn wire_ok(&self) -> bool {
        rfc3339_of(self.0.unix_nanos) is Some
    }

    open spec fn wire(&self) -> Seq<char> {
        seq!['"'] + rfc3339_of(self.0.unix_nanos).unwrap() + seq!['"']
    }

    fn scale_type() -> (t: ScaleType) {
        ScaleType::Time
    }

    fn append_wire(&self, out: &mut String) -> (r: Result<(), FormatError>) {
        match format_rfc3339(self.0.unix_nanos) {
            Some(s) => {
                proof {
                    reveal_strlit("\"");
                }
                out.append("\"");
                out.append(s.as_str());
                out.append("\"");
                proof {
                    assert(out@ =~= old(out)@ + self.wire());
                }
                Ok(())
            },
            None => Err(FormatError::Unrenderable),
        }
    }
}

/// The instant in whole milliseconds from the Unix epoch, rounded toward
/// minus infinity.
pub open spec fn millis_of(unix_nanos: int) -> int {
    unix_nanos / 1000000
}

/// An instant under the numeric time policy: serializes as the number of
/// epoch milliseconds. The alternative to [`Rfc3339Stamp`].
#[derive(Clone, Copy, Debug, PartialEq, Eq, Structural)]
pub struct EpochMillisStamp(pub UtcInstant);

impl WithTypeAndSerializer for EpochMillisStamp {
    open spec fn category() -> ScaleType {
        ScaleType::Time
    }

    open spec fn wire_ok(&self) -> bool {
        -0x8000000000000000 <= millis_of(self.0.unix_nanos as int) <= 0x7fffffffffffffff
    }

    open spec fn wire(&self) -> Seq<char> {
        int_wire(millis_of(self.0.unix_nanos as int))
    }

    fn scale_type() -> (t: ScaleType) {
        ScaleType::Time
    }

    fn append_wire(&self, out: &mut String) -> (r: Result<(), FormatError>) {
        let n = self.0.unix_nanos;
        if n >= 0 {
            let q: u128 = (n as u128) / 1000000;
            if q > 0x7fffffffffffffffu128 {
                return Err(FormatError::Unrenderable);
            }
            append_i64(out, q as i64);
            Ok(())
        } else {
            let mag: u128 = if n == i128::MIN {
                0x80000000000000000000000000000000u128
            } else {
                (-n) as u128
            };
            let q: u128 = (mag + 999999) / 1000000;
            proof {
                lemma_neg_div(mag as int, q as int);
            }
            if q > 0x8000000000000000u128 {
                return Err(FormatError::Unrenderable);
            }
            let m: i64 = if q == 0x8000000000000000u128 {
                i64::MIN
            } else {
                -(q as i64)
            };
            append_i64(out, m);
            Ok(())
        }
    }
}

/// Flooring division of a negated magnitude: `(-mag) / 1000000` is the
/// negated rounded-up quotient of the magnitude.
proof fn lemma_neg_div(mag: int, q: int)
    requires
        mag > 0,
        q == (mag + 999999) / 1000000,
    ensures
        (-mag) / 1000000 == -q,
{
    let k: int = 1000000;
    assert(k * q <= mag + 999999 && mag <= k * q) by {
        assert((mag + 999999) == k * ((mag + 999999) / k) + (mag + 999999) % k);
        assert(0 <= (mag + 999999) % k < k);
    }
    assert((-mag) == k * (-q) + (k * q - mag));
    assert(0 <= k * q - mag < k);
    assert((-mag) / k == -q) by {
        assert((-mag) == k * ((-mag) / k) + (-mag) % k);
        assert(0 <= (-mag) % k < k);
        let d = (-mag) / k;
        assert(k * d + (-mag) % k == k * (-q) + (k * q - mag));
        if d < -q {
            assert(k * d <= k * (-q) - k) by (nonlinear_arith)
                requires
                    d <= -q - 1,
                    k > 0,
            ;
        }
        if d > -q {
            assert(k * d >= k * (-q) + k) by (nonlinear_arith)
                requires
                    d >= -q + 1,
                    k > 0,
            ;
        }
    }
}

/// A day of the week; an ordinal, non-numeric label for category axes.
#[derive(Clone, Copy, Debug, PartialEq, Eq, Structural)]
pub enum Weekday {
    Monday,
    Tuesday,
    Wednesday,
    Thursday,
    Friday,
    Saturday,
    Sunday,
}

impl Weekday {
    /// The English name of this weekday.
    pub open spec fn name(&self) -> Seq<char> {
        match self {
            Weekday::Monday => "Monday"@,
            Weekday::Tuesday => "Tuesday"@,
            Weekday::Wednesday => "Wednesday"@,
            Weekday::Thursday => "Thursday"@,
            Weekday::Friday => "Friday"@,
            Weekday::Saturday => "Saturday"@,
            Weekday::Sunday => "Sunday"@,
        }
    }

    /// The English name of this weekday as a string slice.
    pub fn as_str(&self) -> (r: &'static str)
        ensures
            r@ == self.name(),
    {
        match self {
            Weekday::Monday => "Monday",
            Weekday::Tuesday => "Tuesday",
            Weekday::Wednesday => "Wednesday",
            Weekday::Thursday => "Thursday",
            Weekday::Friday => "Friday",
            Weekday::Saturday => "Saturday",
            Weekday::Sunday => "Sunday",
        }
    }
}

impl WithTypeAndSerializer for Weekday {
    open spec fn category() -> ScaleType {
        ScaleType::Category
    }

    open spec fn wire_ok(&self) -> bool {
        true
    }

    open spec fn wire(&self) -> Seq<char> {
        json_string_wire(self.name())
    }

    fn scale_type() -> (t: ScaleType) {
        ScaleType::Category
    }

    fn append_wire(&self, out: &mut String) -> (r: Result<(), FormatError>) {
        append_json_string(out, self.as_str());
        Ok(())
    }
}

/// A month of the year; an ordinal, non-numeric label for category axes.
#[derive(Clone, Copy, Debug, PartialEq, Eq, Structural)]
pub enum Month {
    January,
    February,
    March,
    April,
    May,
    June,
    July,
    August,
    September,
    October,
    November,
    December,
}

impl Month {
    /// The English name of this month.
    pub open spec fn name(&self) -> Seq<char> {
        match self {
            Month::January => "January"@,
            Month::February => "February"@,
            Month::March => "March"@,
            Month::April => "April"@,
            Month::May => "May"@,
            Month::June => "June"@,
            Month::July => "July"@,
            Month::August => "August"@,
            Month::September => "September"@,
            Month::October => "October"@,
            Month::November => "November"@,
            Month::December => "December"@,
        }
    }

    /// The English name of this month as a string slice.
    pub fn as_str(&self) -> (r: &'static str)
        ensures
            r@ == self.name(),
    {
        match self {
            Month::January => "January",
            Month::February => "February",
            Month::March => "March",
            Month::April => "April",
            Month::May => "May",
            Month::June => "June",
            Month::July => "July",
            Month::August => "August",
            Month::September => "September",
            Month::October => "October",
            Month::November => "November",
            Month::December => "December",
        }
    }
}

impl WithTypeAndSerializer for Month {
    open spec fn category() -> ScaleType {
        ScaleType::Category
    }

    open spec fn wire_ok(&self) -> bool {
        true
    }

    open spec fn wire(&self) -> Seq<char> {
        json_string_wire(self.name())
    }

    fn scale_type() -> (t: ScaleType) {
        ScaleType::Category
    }

    fn append_wire(&self, out: &mut String) -> (r: Result<(), FormatError>) {
        append_json_string(out, self.as_str());
        Ok(())
    }
}

/// A time of day, serialized as an `HH:MM:SS` string for category axes.
#[derive(Clone, Copy, Debug, PartialEq, Eq, Structural)]
pub struct TimeOfDay {
    pub hour: u8,
    pub minute: u8,
    pub second: u8,
}

/// The `HH:MM:SS` text of a time of day, each component zero padded to
/// two digits.
pub open spec fn clock_text(hour: nat, minute: nat, second: nat) -> Seq<char> {
    frac_digits(hour, 2) + seq![':'] + frac_digits(minute, 2) + seq![':'] + frac_digits(second, 2)
}

impl WithTypeAndSerializer for TimeOfDay {
    open spec fn category() -> ScaleType {
        ScaleType::Category
    }

    open spec fn wire_ok(&self) -> bool {
        self.hour < 24 && self.minute < 60 && self.second < 60
    }

    open spec fn wire(&self) -> Seq<char> {
        seq!['"'] + clock_text(self.hour as nat, self.minute as nat, self.second as nat)
            + seq!['"']
    }

    fn scale_type() -> (t: ScaleType) {
        ScaleType::Category
    }

    fn append_wire(&self, out: &mut String) -> (r: Result<(), FormatError>) {
        if self.hour < 24 && self.minute < 60 && self.second < 60 {
            proof {
                reveal_strlit("\"");
                reveal_strlit(":");
            }
            out.append("\"");
            append_frac(out, self.hour as u64, 2);
            out.append(":");
            append_frac(out, self.minute as u64, 2);
            out.append(":");
            append_frac(out, self.second as u64, 2);
            out.append("\"");
            proof {
                assert(out@ =~= old(out)@ + self.wire());
            }
            Ok(())
        } else {
            Err(FormatError::Unrenderable)
        }
    }
}

/// A calendar date, serialized as the RFC-3339 full-date `YYYY-MM-DD`.
#[derive(Clone, Copy, Debug, PartialEq, Eq, Structural)]
pub struct CalendarDate {
    pub year: u16,
    pub month: u8,
    pub day: u8,
}

/// The `YYYY-MM-DD` text of a calendar date, zero padded.
pub open spec fn date_text(year: nat, month: nat, day: nat) -> Seq<char> {
    frac_digits(year, 4) + seq!['-'] + frac_digits(month, 2) + seq!['-'] + frac_digits(day, 2)
}

impl WithTypeAndSerializer for CalendarDate {
    open spec fn category() -> ScaleType {
        ScaleType::Time
    }

    open spec fn wire_ok(&self) -> bool {
        self.year <= 9999 && 1 <= self.month <= 12 && 1 <= self.day <= 31
    }

    open spec fn wire(&self) -> Seq<char> {
        seq!['"'] + date_text(self.year as nat, self.month as nat, self.day as nat) + seq!['"']
    }

    fn scale_type() -> (t: ScaleType) {
        ScaleType::Time
    }

    fn append_wire(&self, out: &mut String) -> (r: Result<(), FormatError>) {
        if self.year <= 9999 && 1 <= self.month && self.month <= 12 && 1 <= self.day && self.day
            <= 31 {
            proof {
                reveal_strlit("\"");
                reveal_strlit("-");
            }
            out.append("\"");
            append_frac(out, self.year as u64, 4);
            out.append("-");
            append_frac(out, self.month as u64, 2);
            out.append("-");
            append_frac(out, self.day as u64, 2);
            out.append("\"");
            proof {
                assert(out@ =~= old(out)@ + self.wire());
            }
            Ok(())
        } else {
            Err(FormatError::Unrenderable)
        }
    }
}

} // verus!
