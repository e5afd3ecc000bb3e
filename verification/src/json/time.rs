//! Instants as event messages carry them: RFC 3339 on the wire, seconds and
//! nanoseconds since the Unix epoch in memory.

use vstd::prelude::*;

verus! {

/// The instant that `chrono` reads out of an RFC 3339 text, as seconds since
/// the Unix epoch and nanoseconds within the second; `None` where the text is
/// not RFC 3339.
pub uninterp spec fn rfc3339_instant(text: Seq<char>) -> Option<(i64, u32)>;

/// The RFC 3339 text that `chrono` writes for an instant in UTC; `None` where
/// `chrono` has no date for these numbers.
pub uninterp spec fn instant_rfc3339(secs: i64, nanos: u32) -> Option<Seq<char>>;

/// Whether an instant survives being written and read again.
pub open spec fn round_trips(secs: i64, nanos: u32) -> bool {
    instant_rfc3339(secs, nanos) matches Some(text) && rfc3339_instant(text) == Some(
        (secs, nanos),
    )
}

/// Calls `chrono::DateTime::parse_from_rfc3339` and takes the result's
/// `timestamp` and `timestamp_subsec_nanos`. The contract names what comes
/// back; it claims only that the same text gives the same instant.
#[verifier::external_body]
fn parse_rfc3339(text: &str) -> (r: Option<(i64, u32)>)
    ensures
        r == rfc3339_instant(text@),
{
    chrono::DateTime::parse_from_rfc3339(text).ok().map(
        |d| (d.timestamp(), d.timestamp_subsec_nanos()),
    )
}

/// Calls `chrono::DateTime::from_timestamp`, then `to_rfc3339_opts` with
/// automatic sub-second digits and `Z` for UTC, which is how `chrono` writes
/// a UTC instant for serde. The contract names what comes back.
#[verifier::external_body]
fn print_rfc3339(secs: i64, nanos: u32) -> (r: Option<String>)
    ensures
        match r {
            Some(s) => instant_rfc3339(secs, nanos) == Some(s@),
            None => instant_rfc3339(secs, nanos) is None,
        },
{
    chrono::DateTime::from_timestamp(secs, nanos).map(
        |d| d.to_rfc3339_opts(chrono::SecondsFormat::AutoSi, true),
    )
}

/// An instant in UTC that can be written as RFC 3339 and read back unchanged.
#[derive(Debug, Clone, Copy, PartialEq, Eq)]
pub struct Timestamp {
    secs: i64,
    nanos: u32,
}

impl Timestamp {
    #[verifier::type_invariant]
    spec fn well_formed(self) -> bool {
        round_trips(self.secs, self.nanos)
    }

    /// Seconds since the Unix epoch.
    pub closed spec fn spec_secs(self) -> i64 {
        self.secs
    }

    /// Nanoseconds since the last whole second.
    pub closed spec fn spec_nanos(self) -> u32 {
        self.nanos
    }

    /// Whether the instant can be written as RFC 3339 and read back
    /// unchanged. Every `Timestamp` that a program holds can.
    pub closed spec fn valid(self) -> bool {
        round_trips(self.secs, self.nanos)
    }

    /// The instant that an RFC 3339 text denotes, if it is one that can be
    /// written and read back unchanged.
    pub closed spec fn spec_from_rfc3339(text: Seq<char>) -> Option<Timestamp> {
        match rfc3339_instant(text) {
            Some((secs, nanos)) => if round_trips(secs, nanos) {
                Some(Timestamp { secs, nanos })
            } else {
                None
            },
            None => None,
        }
    }

    /// The instant as RFC 3339 text in UTC.
    pub closed spec fn spec_to_rfc3339(self) -> Seq<char> {
        match instant_rfc3339(self.secs, self.nanos) {
            Some(text) => text,
            None => Seq::empty(),
        }
    }

    /// The instant that the text denotes, normalised to UTC.
    ///
    /// `None` where the text is not RFC 3339, or where its instant cannot be
    /// written and read back unchanged.
    pub fn from_rfc3339(text: &str) -> (r: Option<Timestamp>)
        ensures
            r == Timestamp::spec_from_rfc3339(text@),
            r matches Some(t) ==> rfc3339_instant(text@) == Some((t.spec_secs(), t.spec_nanos())),
            r is None ==> (rfc3339_instant(text@) matches Some((secs, nanos)) ==> !round_trips(
                secs,
                nanos,
            )),
    {
        match parse_rfc3339(text) {
            None => None,
            Some((secs, nanos)) => match print_rfc3339(secs, nanos) {
                None => None,
                Some(canonical) => {
                    let again = parse_rfc3339(canonical.as_str());
                    match again {
                        Some((s, n)) => if s == secs && n == nanos {
                            Some(Timestamp { secs, nanos })
                        } else {
                            None
                        },
                        None => None,
                    }
                },
            },
        }
    }

    /// The instant as RFC 3339 text in UTC.
    pub fn to_rfc3339(&self) -> (r: String)
        ensures
            self.valid(),
            r@ == self.spec_to_rfc3339(),
            instant_rfc3339(self.spec_secs(), self.spec_nanos()) == Some(r@),
    {
        proof {
            use_type_invariant(self);
        }
        match print_rfc3339(self.secs, self.nanos) {
            Some(text) => text,
            None => String::new(),
        }
    }

    /// Seconds since the Unix epoch.
    pub fn secs(&self) -> (r: i64)
        ensures
            r == self.spec_secs(),
    {
        self.secs
    }

    /// Nanoseconds since the last whole second.
    pub fn nanos(&self) -> (r: u32)
        ensures
            r == self.spec_nanos(),
    {
        self.nanos
    }
}

/// Reading what was written for a valid instant gives the instant back.
pub proof fn lemma_time_round_trip(t: Timestamp)
    requires
        t.valid(),
    ensures
        Timestamp::spec_from_rfc3339(t.spec_to_rfc3339()) == Some(t),
{
}

} // verus!
