//! The alternative date/time backend: RFC-3339 rendering and parsing
//! through the `chrono` crate. Its canonical text differs from the `time`
//! backend's (a `+00:00` suffix rather than `Z`), so the two backends keep
//! separate wire specifications. Chrono renders years outside 0000–9999
//! with an explicit sign that its own RFC-3339 parser rejects, so this
//! backend treats only instants with a four-digit year as renderable, and
//! parsing is claimed to invert serialization exactly on that range.

use vstd::prelude::*;
use vstd::string::*;
use crate::dispatch::{WithTypeAndSerializer, ScaleType, FormatError};

verus! {

/// Whether the instant at `unix_seconds` from the Unix epoch falls in the
/// years 0000 through 9999: the range whose RFC-3339 text carries a plain
/// four-digit year. Chrono writes years outside it with an explicit sign,
/// a form its own RFC-3339 parser does not accept.
pub open spec fn four_digit_year(unix_seconds: int) -> bool {
    -62167219200 <= unix_seconds <= 253402300799
}

/// The RFC-3339 text chrono renders for the instant given as whole seconds
/// from the Unix epoch plus subsecond nanoseconds, at UTC; nothing for
/// instants outside chrono's range. The text is a function of the instant
/// alone.
pub uninterp spec fn chrono_rfc3339_of(unix_seconds: i64, subsec_nanos: u32) -> Option<Seq<char>>;

/// Relies on chrono's `DateTime::<Utc>::from_timestamp` and `to_rfc3339`:
/// renders the instant at UTC, failing exactly when the instant lies
/// outside chrono's representable range.
#[verifier::external_body]
fn format_chrono_rfc3339(unix_seconds: i64, subsec_nanos: u32) -> (r: Option<String>)
    requires
        subsec_nanos < 1000000000,
    ensures
        r is Some <==> chrono_rfc3339_of(unix_seconds, subsec_nanos) is Some,
        r matches Some(s) ==> Some(s@) == chrono_rfc3339_of(unix_seconds, subsec_nanos),
{
    chrono::DateTime::<chrono::Utc>::from_timestamp(unix_seconds, subsec_nanos).map(
        |dt| dt.to_rfc3339(),
    )
}

/// Relies on chrono's `DateTime::parse_from_rfc3339`, `timestamp` and
/// `timestamp_subsec_nanos`: parsing the canonical RFC-3339 text of an
/// instant whose year has four digits recovers exactly that instant.
/// Nothing is claimed of instants outside that range: chrono renders their
/// year with an explicit sign, which its parser rejects.
#[verifier::external_body]
fn parse_chrono_rfc3339(s: &str) -> (r: Option<(i64, u32)>)
    ensures
        forall|se: i64, na: u32|
            #[trigger] chrono_rfc3339_of(se, na) == Some(s@) && na < 1000000000 && four_digit_year(
                se as int,
            ) ==> r == Some((se, na)),
{
    chrono::DateTime::parse_from_rfc3339(s).ok().map(
        |dt| (dt.timestamp(), dt.timestamp_subsec_nanos()),
    )
}

/// An instant under the textual time policy, rendered through the chrono
/// backend: whole seconds from the Unix epoch plus subsecond nanoseconds.
#[derive(Clone, Copy, Debug, PartialEq, Eq, Structural)]
pub struct ChronoStamp {
    pub unix_seconds: i64,
    pub subsec_nanos: u32,
}

impl WithTypeAndSerializer for ChronoStamp {
    open spec fn category() -> ScaleType {
        ScaleType::Time
    }

    open spec fn wire_ok(&self) -> bool {
        &&& self.subsec_nanos < 1000000000
        &&& four_digit_year(self.unix_seconds as int)
        &&& chrono_rfc3339_of(self.unix_seconds, self.subsec_nanos) is Some
    }

    open spec fn wire(&self) -> Seq<char> {
        seq!['"'] + chrono_rfc3339_of(self.unix_seconds, self.subsec_nanos).unwrap() + seq!['"']
    }

    fn scale_type() -> (t: ScaleType) {
        ScaleType::Time
    }

    fn append_wire(&self, out: &mut String) -> (r: Result<(), FormatError>) {
        if self.subsec_nanos >= 1000000000 {
            return Err(FormatError::Unrenderable);
        }
        if self.unix_seconds < -62167219200i64 || self.unix_seconds > 253402300799i64 {
            return Err(FormatError::Unrenderable);
        }
        match format_chrono_rfc3339(self.unix_seconds, self.subsec_nanos) {
            Some(s) => {
                proof {
                    reveal_strlit("\"");
                }
                out.append("\"");
                out.append(s.as_str());
                out.append("\"");
                proof {
                    assert(out@ =~= old(out)@ + self.wire());
                }
                Ok(())
            },
            None => Err(FormatError::Unrenderable),
        }
    }
}

/// The chrono backend's RFC-3339 text of an instant; nothing for instants
/// outside its representable range.
pub fn chrono_rfc3339_string(t: &ChronoStamp) -> (r: Option<String>)
    requires
        t.subsec_nanos < 1000000000,
    ensures
        r is Some <==> chrono_rfc3339_of(t.unix_seconds, t.subsec_nanos) is Some,
        r matches Some(s) ==> Some(s@) == chrono_rfc3339_of(t.unix_seconds, t.subsec_nanos),
{
    format_chrono_rfc3339(t.unix_seconds, t.subsec_nanos)
}

/// Parses an RFC-3339 text written by the chrono backend: on the canonical
/// text of any instant with a four-digit year, that instant comes back.
pub fn chrono_rfc3339_parse(s: &str) -> (r: Option<ChronoStamp>)
    ensures
        forall|se: i64, na: u32|
            #[trigger] chrono_rfc3339_of(se, na) == Some(s@) && na < 1000000000 && four_digit_year(
                se as int,
            ) ==> r == Some(ChronoStamp { unix_seconds: se, subsec_nanos: na }),
{
    match parse_chrono_rfc3339(s) {
        Some((se, na)) => Some(ChronoStamp { unix_seconds: se, subsec_nanos: na }),
        None => None,
    }
}

/// Round-trip law for the chrono backend: serializing a renderable instant
/// to RFC-3339 text and parsing that text recovers an equivalent instant.
/// Renderable means a four-digit year; chrono formats instants beyond that
/// range, but in a signed-year form its own RFC-3339 parser rejects, so no
/// recovery is promised there.
pub fn chrono_rfc3339_round_trip(t: &ChronoStamp) -> (r: Option<ChronoStamp>)
    requires
        t.subsec_nanos < 1000000000,
    ensures
        chrono_rfc3339_of(t.unix_seconds, t.subsec_nanos) is Some && four_digit_year(
            t.unix_seconds as int,
        ) ==> r == Some(*t),
{
    match chrono_rfc3339_string(t) {
        Some(s) => chrono_rfc3339_parse(s.as_str()),
        None => None,
    }
}

} // verus!
