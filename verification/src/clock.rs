//! Wall-clock time.
//!
//! The site shows times of the zone nine hours ahead of UTC. A `LocalTime` is a reading of a
//! clock in that zone; the database is read and written in UTC.
use vstd::prelude::*;

verus! {

/// Seconds by which the site's zone is ahead of UTC.
pub const ZONE_SECONDS: i64 = 32400;

/// The first second of the earliest and the last second of the latest day that `chrono` knows.
pub const MIN_SECONDS: i64 = -8334601228800;

pub const MAX_SECONDS: i64 = 8210266876799;

/// The readings that `chrono` can represent: seconds since midnight of 1970-01-01 on the clock,
/// and nanoseconds within the second. A leap second follows second 59 of its minute and counts
/// its nanoseconds from one thousand million on.
pub open spec fn representable(secs: int, nanos: int) -> bool {
    &&& MIN_SECONDS <= secs <= MAX_SECONDS
    &&& 0 <= nanos < 2_000_000_000
    &&& nanos >= 1_000_000_000 ==> secs % 60 == 59
}

/// The readings whose year is written with four digits and no sign.
pub open spec fn four_digit_year(secs: int) -> bool {
    -62167219200 <= secs <= 253402300799
}

/// A reading without its fraction of a second.
pub open spec fn whole_second(secs: i64, nanos: u32) -> (i64, u32) {
    (secs, if nanos >= 1_000_000_000 { 1_000_000_000 } else { 0 })
}

/// The form in which readings are shown: date, a `T` and the time to the second.
pub const ISO_FORMAT: &'static str = "%Y-%m-%dT%H:%M:%S";

/// A format in which each percent sign asks for the year, month, day, hour, minute or second.
pub open spec fn plain_format(format: Seq<char>) -> bool {
    forall|i: int|
        0 <= i < format.len() && #[trigger] format[i] == '%' ==> i + 1 < format.len()
            && is_format_letter(format[i + 1])
}

pub open spec fn is_format_letter(c: char) -> bool {
    c == 'Y' || c == 'm' || c == 'd' || c == 'H' || c == 'M' || c == 'S'
}

/// A clock reading in a format, as `chrono` writes it.
pub uninterp spec fn formatted(secs: i64, nanos: u32, format: Seq<char>) -> Seq<char>;

/// A clock reading in the form in which it is shown.
pub open spec fn iso_seconds(secs: i64, nanos: u32) -> Seq<char> {
    formatted(secs, nanos, ISO_FORMAT@)
}

/// The local clock reading in an RFC 3339 text, as `chrono` parses it: seconds and nanoseconds.
pub uninterp spec fn rfc3339_local(text: Seq<char>) -> Option<(i64, u32)>;

// ---------- outside calls ----------

/// The error of `chrono`'s parsers.
#[verifier::external_type_specification]
#[verifier::external_body]
pub struct ExParseError(chrono::ParseError);

/// Formats with `chrono` (`DateTime::from_timestamp`, `naive_utc` and `format`). Claimed: the
/// result is the named text of the reading in the format; and in the form in which readings are
/// shown, followed by an offset of nine hours, the text of a reading with a four-digit year is one
/// that `parse_rfc3339` reads back as the same second.
#[verifier::external_body]
fn format_reading(secs: i64, nanos: u32, format: &str) -> (r: String)
    requires
        representable(secs as int, nanos as int),
        plain_format(format@),
    ensures
        r@ == formatted(secs, nanos, format@),
        format@ == ISO_FORMAT@ && four_digit_year(secs as int) ==> rfc3339_local(r@ + "+09:00"@)
            == Some(whole_second(secs, nanos)),
{
    let reading = chrono::DateTime::from_timestamp(secs, nanos).unwrap().naive_utc();
    reading.format(format).to_string()
}

/// Parses with `chrono::DateTime::parse_from_rfc3339` and takes `naive_local`. Claimed: the
/// result is the named reading of the text, it is an error where there is none, and the reading
/// is one that `chrono` can represent.
#[verifier::external_body]
fn parse_rfc3339(text: &str) -> (r: Result<(i64, u32), chrono::ParseError>)
    ensures
        r is Ok <==> rfc3339_local(text@) is Some,
        r matches Ok(reading) ==> rfc3339_local(text@) == Some(reading) && representable(
            reading.0 as int,
            reading.1 as int,
        ),
{
    let local = chrono::DateTime::parse_from_rfc3339(text)?.naive_local().and_utc();
    Ok((local.timestamp(), local.timestamp_subsec_nanos()))
}

// ---------- readings ----------

/// A reading of a clock in the site's zone.
#[derive(Debug, Clone, Copy, PartialEq, Eq)]
pub struct LocalTime {
    secs: i64,
    nanos: u32,
}

impl LocalTime {
    #[verifier::type_invariant]
    spec fn well_formed(self) -> bool {
        representable(self.secs as int, self.nanos as int)
    }

    /// Seconds since midnight of 1970-01-01 on the clock.
    pub closed spec fn spec_secs(self) -> i64 {
        self.secs
    }

    /// Nanoseconds within the second.
    pub closed spec fn spec_nanos(self) -> u32 {
        self.nanos
    }

    /// Midnight of 1970-01-01.
    pub fn epoch() -> (r: Self)
        ensures
            r.spec_secs() == 0,
            r.spec_nanos() == 0,
    {
        LocalTime { secs: 0, nanos: 0 }
    }

    /// The reading with these seconds and nanoseconds, if there is such a reading.
    pub fn new(secs: i64, nanos: u32) -> (r: Option<Self>)
        ensures
            r is Some <==> representable(secs as int, nanos as int),
            r matches Some(t) ==> t.spec_secs() == secs && t.spec_nanos() == nanos,
    {
        if MIN_SECONDS <= secs && secs <= MAX_SECONDS && nanos < 2_000_000_000 && (nanos
            < 1_000_000_000 || is_second_59(secs)) {
            Some(LocalTime { secs, nanos })
        } else {
            None
        }
    }

    /// What the clock reads at a moment given in UTC.
    pub fn from_utc(secs: i64, nanos: u32) -> (r: Option<Self>)
        ensures
            r is Some <==> representable(secs + ZONE_SECONDS, nanos as int),
            r matches Some(t) ==> t.spec_secs() == secs + ZONE_SECONDS && t.spec_nanos() == nanos,
    {
        if secs > MAX_SECONDS {
            return None;
        }
        LocalTime::new(secs + ZONE_SECONDS, nanos)
    }

    pub fn secs(&self) -> (r: i64)
        ensures
            r == self.spec_secs(),
            representable(self.spec_secs() as int, self.spec_nanos() as int),
    {
        proof {
            use_type_invariant(self);
        }
        self.secs
    }

    pub fn nanos(&self) -> (r: u32)
        ensures
            r == self.spec_nanos(),
            representable(self.spec_secs() as int, self.spec_nanos() as int),
    {
        proof {
            use_type_invariant(self);
        }
        self.nanos
    }

    /// The moment of the reading in UTC, in seconds since the start of 1970.
    pub fn utc_secs(&self) -> (r: i64)
        ensures
            r == self.spec_secs() - ZONE_SECONDS,
    {
        proof {
            use_type_invariant(self);
        }
        self.secs - ZONE_SECONDS
    }

    /// The reading in the form `2026-01-02T03:04:05`.
    pub fn iso(&self) -> (r: String)
        ensures
            r@ == iso_seconds(self.spec_secs(), self.spec_nanos()),
            four_digit_year(self.spec_secs() as int) ==> rfc3339_local(r@ + "+09:00"@) == Some(
                whole_second(self.spec_secs(), self.spec_nanos()),
            ),
    {
        proof {
            use_type_invariant(self);
            reveal_strlit("%Y-%m-%dT%H:%M:%S");
        }
        format_reading(self.secs, self.nanos, ISO_FORMAT)
    }

    /// The local reading in an RFC 3339 text, whatever the offset it names.
    pub fn parse(text: &str) -> (r: Option<Self>)
        ensures
            r is Some <==> rfc3339_local(text@) is Some,
            r matches Some(t) ==> rfc3339_local(text@) == Some((t.spec_secs(), t.spec_nanos())),
    {
        match parse_rfc3339(text) {
            Ok((secs, nanos)) => LocalTime::new(secs, nanos),
            Err(_) => None,
        }
    }
}

/// A reading is its seconds and nanoseconds.
pub proof fn law_reading(a: LocalTime, b: LocalTime)
    requires
        a.spec_secs() == b.spec_secs(),
        a.spec_nanos() == b.spec_nanos(),
    ensures
        a == b,
{
}

/// Whether a moment is second 59 of its minute.
fn is_second_59(secs: i64) -> (r: bool)
    requires
        MIN_SECONDS <= secs <= MAX_SECONDS,
    ensures
        r == (secs as int % 60 == 59),
{
    // The shift is a whole number of minutes and makes the dividend positive.
    (secs + 8334601228800) % 60 == 59
}

/// The zone is nine hours ahead, readings are shown to the second with a four-part format, and a
/// reading loses nothing but its fraction of a second.
pub proof fn law_shown_reading(secs: i64, nanos: u32)
    ensures
        ZONE_SECONDS == 9 * 60 * 60,
        iso_seconds(secs, nanos) == formatted(secs, nanos, "%Y-%m-%dT%H:%M:%S"@),
        whole_second(secs, nanos).0 == secs,
        nanos < 1_000_000_000 ==> whole_second(secs, nanos).1 == 0,
        nanos >= 1_000_000_000 ==> whole_second(secs, nanos).1 == 1_000_000_000,
{
}

/// Every second in range has a reading for each of its nanoseconds; a second 59 has the readings of
/// a leap second too, and no other second does.
pub proof fn law_representable(secs: int, nanos: int)
    ensures
        0 <= nanos < 1_000_000_000 ==> (representable(secs, nanos) <==> -8334601228800 <= secs
            <= 8210266876799),
        1_000_000_000 <= nanos < 2_000_000_000 ==> (representable(secs, nanos) <==> -8334601228800
            <= secs <= 8210266876799 && (secs + 1) % 60 == 0),
        nanos < 0 || nanos >= 2_000_000_000 ==> !representable(secs, nanos),
{
}

/// The years from 0000 to 9999 have four digits: from the midnight that begins the first, 719528
/// days before 1970, to the second before the one that ends the last, 2932897 days after.
pub proof fn law_four_digit_year(secs: int)
    ensures
        four_digit_year(secs) <==> -719528 * 86400 <= secs < 2932897 * 86400,
{
}

} // verus!
