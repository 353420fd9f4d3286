//! Instants in UTC, held as whole seconds since the Unix epoch and the nanoseconds
//! past that second, with chrono doing the calendar work (reading the clock, writing
//! and reading RFC 3339 text).
use vstd::prelude::*;

verus! {

/// The earliest second chrono can represent: January 1 of year -262143, 00:00:00 UTC.
pub const MIN_SECS: i64 = -8334601228800;

/// The last second chrono can represent: December 31 of year 262142, 23:59:59 UTC.
pub const MAX_SECS: i64 = 8210266876799;

/// Whether chrono has an instant with these parts: the second lies in chrono's range,
/// and the nanoseconds stay under one second, or under two seconds when the instant
/// is a leap second (the 59th second of a minute).
pub open spec fn valid_instant(secs: i64, nanos: u32) -> bool {
    &&& MIN_SECS <= secs <= MAX_SECS
    &&& (nanos < 1_000_000_000 || (nanos < 2_000_000_000 && secs % 60 == 59))
}

/// An instant in UTC.
#[derive(Debug, Clone, Copy, PartialEq, Eq, PartialOrd, Ord, Hash)]
pub struct Timestamp {
    secs: i64,
    nanos: u32,
}

/// Whether the second lies in the years 0 to 9999 (UTC), those that RFC 3339 text
/// writes with four digits.
pub open spec fn in_four_digit_years(secs: i64) -> bool {
    -62_167_219_200 <= secs <= 253_402_300_799
}

/// The RFC 3339 text that chrono writes for an instant (`to_rfc3339`).
pub uninterp spec fn spec_rfc3339(secs: i64, nanos: u32) -> Seq<char>;

/// The instant that chrono reads from RFC 3339 text (`parse_from_rfc3339`), taken to
/// UTC, if the text is one.
pub uninterp spec fn spec_parse_rfc3339(text: Seq<char>) -> Option<(i64, u32)>;

/// The text chrono writes for an instant with the pattern `%Y%m%dT%H%M%S%3f`.
pub uninterp spec fn spec_compact_stamp(secs: i64, nanos: u32) -> Seq<char>;

/// The instant `days` whole days before the one with these parts, as chrono's
/// `DateTime - TimeDelta::days(days)` computes it (for at least one day, a leap
/// second first moves on to the start of the next second); none when it falls
/// before chrono's range.
pub open spec fn days_before(secs: i64, nanos: u32, days: nat) -> Option<(i64, u32)> {
    let leap = days > 0 && nanos >= 1_000_000_000;
    let s = if leap {
        secs + 1
    } else {
        secs as int
    };
    let n = if leap {
        nanos - 1_000_000_000
    } else {
        nanos as int
    };
    let t = s - 86_400 * days;
    if MIN_SECS <= t <= MAX_SECS {
        Some((t as i64, n as u32))
    } else {
        None
    }
}

impl Timestamp {
    #[verifier::type_invariant]
    spec fn inv(self) -> bool {
        valid_instant(self.secs, self.nanos)
    }

    /// The seconds since the epoch and the nanoseconds past that second.
    pub closed spec fn parts(self) -> (i64, u32) {
        (self.secs, self.nanos)
    }

    /// The instant with these parts, when chrono has one.
    pub fn from_parts(secs: i64, nanos: u32) -> (r: Option<Timestamp>)
        ensures
            match r {
                Some(t) => valid_instant(secs, nanos) && t.parts() == (secs, nanos),
                None => !valid_instant(secs, nanos),
            },
    {
        let rem = secs % 60;
        let second_of_minute = if rem < 0 {
            rem + 60
        } else {
            rem
        };
        assert(second_of_minute == secs % 60);
        if MIN_SECS <= secs && secs <= MAX_SECS && (nanos < 1_000_000_000 || (nanos
            < 2_000_000_000 && second_of_minute == 59)) {
            Some(Timestamp { secs, nanos })
        } else {
            None
        }
    }

    pub fn secs(&self) -> (s: i64)
        ensures
            s == self.parts().0,
    {
        self.secs
    }

    pub fn nanos(&self) -> (n: u32)
        ensures
            n == self.parts().1,
    {
        self.nanos
    }

    /// The instant `days` whole days earlier (see `days_before`).
    pub fn days_before(&self, days: u32) -> (r: Option<Timestamp>)
        ensures
            match r {
                Some(t) => days_before(self.parts().0, self.parts().1, days as nat) == Some(t.parts()),
                None => days_before(self.parts().0, self.parts().1, days as nat) is None,
            },
    {
        proof {
            use_type_invariant(self);
        }
        let leap = days > 0 && self.nanos >= 1_000_000_000;
        let (s, n) = if leap {
            (self.secs + 1, self.nanos - 1_000_000_000)
        } else {
            (self.secs, self.nanos)
        };
        let back: i64 = 86_400 * (days as i64);
        if s - MIN_SECS < back {
            return None;
        }
        let t = s - back;
        proof {
            assert(t % 60 == s % 60) by {
                assert(back == 60 * (1_440 * days));
            }
        }
        Some(Timestamp { secs: t, nanos: n })
    }

    /// The current time, read from the system clock (see `clock_now`). Nothing is
    /// stated of the instant: it depends on the clock.
    pub fn now() -> (t: Timestamp) {
        let (secs, nanos) = clock_now();
        Timestamp { secs, nanos }
    }

    /// This instant as RFC 3339 text, as chrono writes it.
    pub fn to_rfc3339(&self) -> (s: String)
        ensures
            s@ == spec_rfc3339(self.parts().0, self.parts().1),
            in_four_digit_years(self.parts().0) ==> spec_parse_rfc3339(s@) == Some(self.parts()),
    {
        proof {
            use_type_invariant(self);
        }
        rfc3339_text(self.secs, self.nanos)
    }

    /// The instant named by RFC 3339 text, as chrono reads it (taken to UTC); none when
    /// the text names no instant.
    pub fn parse_rfc3339(text: &str) -> (r: Option<Timestamp>)
        ensures
            match r {
                Some(t) => spec_parse_rfc3339(text@) == Some(t.parts()),
                None => spec_parse_rfc3339(text@) is None,
            },
    {
        match read_rfc3339(text) {
            Some((secs, nanos)) => Some(Timestamp { secs, nanos }),
            None => None,
        }
    }

    /// This instant written with chrono's pattern `%Y%m%dT%H%M%S%3f` (date, `T`, time
    /// and milliseconds, without separators).
    pub fn compact_stamp(&self) -> (s: String)
        ensures
            s@ == spec_compact_stamp(self.parts().0, self.parts().1),
    {
        proof {
            use_type_invariant(self);
        }
        compact_text(self.secs, self.nanos)
    }
}

/// The current time from chrono's `Utc::now`, as seconds since the epoch and
/// nanoseconds past that second. Every instant chrono holds has valid parts; nothing
/// else is stated, as the value depends on the clock.
#[verifier::external_body]
fn clock_now() -> (r: (i64, u32))
    ensures
        valid_instant(r.0, r.1),
{
    let now = chrono::Utc::now();
    (now.timestamp(), now.timestamp_subsec_nanos())
}

/// The RFC 3339 text of the instant, written by chrono's `DateTime::to_rfc3339`
/// (`DateTime::from_timestamp` has an instant for exactly these parts). For a year
/// from 0 to 9999 the text has four year digits, the seconds (`60` for a leap
/// second), every nonzero nanosecond digit and the offset `+00:00`, and chrono's
/// `parse_from_rfc3339` reads it back as the same instant.
#[verifier::external_body]
fn rfc3339_text(secs: i64, nanos: u32) -> (s: String)
    requires
        valid_instant(secs, nanos),
    ensures
        s@ == spec_rfc3339(secs, nanos),
        in_four_digit_years(secs) ==> spec_parse_rfc3339(s@) == Some((secs, nanos)),
{
    chrono::DateTime::from_timestamp(secs, nanos).unwrap().to_rfc3339()
}

/// The instant that chrono's `DateTime::parse_from_rfc3339` reads from the text, as
/// the parts of its UTC time. That parser takes four-digit years and offsets under
/// a day in whole minutes only, so what it reads lies well within chrono's range and
/// keeps a leap second on the 59th second of a minute.
#[verifier::external_body]
fn read_rfc3339(text: &str) -> (r: Option<(i64, u32)>)
    ensures
        r == spec_parse_rfc3339(text@),
        r matches Some(p) ==> valid_instant(p.0, p.1),
{
    match chrono::DateTime::parse_from_rfc3339(text) {
        Ok(dt) => Some((dt.timestamp(), dt.timestamp_subsec_nanos())),
        Err(_) => None,
    }
}

/// The instant written by chrono's `format` with the pattern `%Y%m%dT%H%M%S%3f`.
#[verifier::external_body]
fn compact_text(secs: i64, nanos: u32) -> (s: String)
    requires
        valid_instant(secs, nanos),
    ensures
        s@ == spec_compact_stamp(secs, nanos),
{
    chrono::DateTime::from_timestamp(secs, nanos).unwrap().format("%Y%m%dT%H%M%S%3f").to_string()
}

} // verus!
