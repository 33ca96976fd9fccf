//! Instants of UTC time and their RFC 3339 text.
//!
//! Reading the clock and formatting a calendar date are left to `chrono`.
//! An instant is held here as a count of seconds since 1970-01-01T00:00:00Z
//! and a count of nanoseconds within that second, with the invariant that
//! `chrono` can represent it, so that formatting never fails.

use vstd::prelude::*;

verus! {

/// The earliest second `chrono` represents, `-262143-01-01T00:00:00Z`,
/// counted from the epoch.
pub const MIN_UTC_SECONDS: i64 = -8_334_601_228_800;

/// The last second `chrono` represents, `+262142-12-31T23:59:59Z`, counted
/// from the epoch.
pub const MAX_UTC_SECONDS: i64 = 8_210_266_876_799;

/// Nanoseconds in a second. A nanosecond count at or above this stands for
/// a leap second, and is admitted only in the last second of a minute.
pub const NANOS_PER_SECOND: u32 = 1_000_000_000;

/// Whether `secs` seconds and `nanos` nanoseconds since the epoch name an
/// instant that `chrono` represents.
pub open spec fn is_representable(secs: i64, nanos: u32) -> bool {
    &&& MIN_UTC_SECONDS <= secs <= MAX_UTC_SECONDS
    &&& (nanos < NANOS_PER_SECOND || (nanos < 2 * NANOS_PER_SECOND && secs % 60 == 59))
}

/// The RFC 3339 text that `chrono` gives for the instant `secs` seconds and
/// `nanos` nanoseconds after the epoch, in UTC. It means something only
/// where [`is_representable`] holds.
pub uninterp spec fn rfc3339_text(secs: i64, nanos: u32) -> Seq<char>;

/// Whether `text` is the RFC 3339 text of some representable instant.
pub open spec fn is_utc_timestamp(text: Seq<char>) -> bool {
    exists|secs: i64, nanos: u32|
        is_representable(secs, nanos) && text == #[trigger] rfc3339_text(secs, nanos)
}

/// Reads the system clock through `chrono::Utc::now` and takes the result
/// apart with `DateTime::timestamp` and `DateTime::timestamp_subsec_nanos`.
///
/// Trusted: the pair names a representable instant. `Utc::now` builds its
/// result with `DateTime::from_timestamp`, which `chrono` documents to
/// round-trip with the two accessors. `Utc::now` does not return when the
/// system clock reads a time before the epoch or beyond `chrono`'s range.
#[verifier::external_body]
fn read_utc_clock() -> (now: (i64, u32))
    ensures
        is_representable(now.0, now.1),
{
    let t = chrono::Utc::now();
    (t.timestamp(), t.timestamp_subsec_nanos())
}

/// Formats an instant with `chrono::DateTime::from_timestamp` followed by
/// `DateTime::to_rfc3339`.
///
/// Trusted: `from_timestamp` yields a value exactly on the representable
/// instants (seconds within `chrono`'s range of dates; nanoseconds below
/// one second, or below two in the last second of a minute), and the text
/// is a function of the two counts alone.
#[verifier::external_body]
fn format_rfc3339(secs: i64, nanos: u32) -> (text: Option<String>)
    ensures
        text is Some <==> is_representable(secs, nanos),
        text matches Some(s) ==> s@ == rfc3339_text(secs, nanos),
{
    match chrono::DateTime::from_timestamp(secs, nanos) {
        Some(t) => Some(t.to_rfc3339()),
        None => None,
    }
}

/// An instant of UTC time that `chrono` represents.
#[derive(Clone, Copy, Debug, PartialEq, Eq)]
pub struct UtcInstant {
    secs: i64,
    nanos: u32,
}

/// What a [`UtcInstant`] holds: seconds since the epoch, and nanoseconds
/// within that second.
pub struct UtcInstantView {
    pub secs: i64,
    pub nanos: u32,
}

impl View for UtcInstant {
    type V = UtcInstantView;

    closed spec fn view(&self) -> UtcInstantView {
        UtcInstantView { secs: self.secs, nanos: self.nanos }
    }
}

impl UtcInstant {
    #[verifier::type_invariant]
    spec fn representable(self) -> bool {
        is_representable(self.secs, self.nanos)
    }

    /// The instant `secs` seconds and `nanos` nanoseconds after the epoch,
    /// where `chrono` represents it.
    pub fn new(secs: i64, nanos: u32) -> (instant: Option<UtcInstant>)
        ensures
            instant is Some <==> is_representable(secs, nanos),
            instant matches Some(t) ==> t@ == (UtcInstantView { secs, nanos }),
    {
        if secs < MIN_UTC_SECONDS || secs > MAX_UTC_SECONDS {
            return None;
        }
        if nanos >= NANOS_PER_SECOND {
            let last_of_minute = match secs.checked_rem_euclid(60) {
                Some(second) => second == 59,
                None => false,
            };
            if nanos >= 2 * NANOS_PER_SECOND || !last_of_minute {
                return None;
            }
        }
        Some(UtcInstant { secs, nanos })
    }

    /// The current instant, read from the system clock.
    pub fn now() -> (instant: UtcInstant)
        ensures
            is_representable(instant@.secs, instant@.nanos),
    {
        let (secs, nanos) = read_utc_clock();
        UtcInstant { secs, nanos }
    }

    /// Seconds since the epoch.
    pub fn secs(&self) -> (secs: i64)
        ensures
            secs == self@.secs,
    {
        self.secs
    }

    /// Nanoseconds within the second.
    pub fn nanos(&self) -> (nanos: u32)
        ensures
            nanos == self@.nanos,
    {
        self.nanos
    }

    /// The instant as RFC 3339 text, such as
    /// `2024-01-15T10:30:00.123456789+00:00`.
    pub fn to_rfc3339(&self) -> (text: String)
        ensures
            text@ == rfc3339_text(self@.secs, self@.nanos),
            is_utc_timestamp(text@),
    {
        proof {
            use_type_invariant(self);
        }
        format_rfc3339(self.secs, self.nanos).unwrap()
    }
}

} // verus!
