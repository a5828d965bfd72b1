//! Instants on the UTC time line, as the registry orders and stores them.

use std::cmp::Ordering;
use vstd::prelude::*;

verus! {

/// An instant in UTC: the whole seconds since 1970-01-01T00:00:00Z and the
/// nanoseconds into that second.
///
/// `nanos` may reach beyond 999,999,999 while a leap second lasts, so two
/// instants are told apart by the pair, and ordered by seconds first.
#[derive(Clone, Copy, Debug, PartialEq, Eq, Structural)]
pub struct Timestamp {
    pub secs: i64,
    pub nanos: u32,
}

/// Seconds since the epoch of 2012-03-29T22:00:00Z: releases older than this
/// have no server download and never enter a registry.
pub const RELEASE_CUTOFF_SECS: i64 = 1_333_058_400;

impl Timestamp {
    /// `self` is strictly earlier than `other`.
    pub open spec fn is_before(self, other: Timestamp) -> bool {
        self.secs < other.secs || (self.secs == other.secs && self.nanos < other.nanos)
    }

    /// `self` is `other` or later.
    pub open spec fn is_at_or_after(self, other: Timestamp) -> bool {
        !self.is_before(other)
    }

    /// The instant that starts the given second.
    pub open spec fn at_second(secs: i64) -> Timestamp {
        Timestamp { secs, nanos: 0 }
    }

    /// The instant that starts the given second.
    pub fn from_secs(secs: i64) -> (t: Timestamp)
        ensures
            t == Timestamp::at_second(secs),
    {
        Timestamp { secs, nanos: 0 }
    }

    /// Whether `self` is strictly earlier than `other`.
    pub fn before(&self, other: &Timestamp) -> (r: bool)
        ensures
            r == self.is_before(*other),
    {
        self.secs < other.secs || (self.secs == other.secs && self.nanos < other.nanos)
    }

    /// Whether `self` is `other` or later.
    pub fn at_or_after(&self, other: &Timestamp) -> (r: bool)
        ensures
            r == self.is_at_or_after(*other),
    {
        !self.before(other)
    }
}

impl PartialOrd for Timestamp {
    fn partial_cmp(&self, other: &Self) -> (r: Option<Ordering>) {
        if self.before(other) {
            Some(Ordering::Less)
        } else if other.before(self) {
            Some(Ordering::Greater)
        } else {
            Some(Ordering::Equal)
        }
    }
}

impl vstd::std_specs::cmp::PartialOrdSpecImpl for Timestamp {
    open spec fn obeys_partial_cmp_spec() -> bool {
        true
    }

    open spec fn partial_cmp_spec(&self, other: &Self) -> Option<Ordering> {
        if self.is_before(*other) {
            Some(Ordering::Less)
        } else if other.is_before(*self) {
            Some(Ordering::Greater)
        } else {
            Some(Ordering::Equal)
        }
    }
}

/// What chrono reads from `text` as a `DateTime<Utc>`: the seconds and
/// nanoseconds of the instant, or `None` where chrono rejects the text.
pub uninterp spec fn parsed_timestamp(text: Seq<char>) -> Option<(i64, u32)>;

/// How chrono writes the instant `(secs, nanos)` as text, or `None` where
/// chrono has no `DateTime<Utc>` for the pair.
pub uninterp spec fn timestamp_text(secs: i64, nanos: u32) -> Option<Seq<char>>;

/// Calls chrono's `FromStr` for `DateTime<Utc>`, which accepts a relaxed
/// RFC 3339 form, and hands back `timestamp()` and
/// `timestamp_subsec_nanos()` of the instant read. The contract claims only
/// that the outcome depends on the text alone.
#[verifier::external_body]
fn parse_timestamp(text: &str) -> (r: Option<(i64, u32)>)
    ensures
        r == parsed_timestamp(text@),
{
    match text.parse::<chrono::DateTime<chrono::Utc>>() {
        Ok(instant) => Some((instant.timestamp(), instant.timestamp_subsec_nanos())),
        Err(_) => None,
    }
}

/// Calls chrono's `DateTime::<Utc>::from_timestamp` and, where that gives an
/// instant, its `Display`. The contract claims only that the outcome depends
/// on the two numbers alone.
#[verifier::external_body]
fn format_timestamp(secs: i64, nanos: u32) -> (r: Option<String>)
    ensures
        match r {
            Some(text) => timestamp_text(secs, nanos) == Some(text@),
            None => timestamp_text(secs, nanos) is None,
        },
{
    match chrono::DateTime::<chrono::Utc>::from_timestamp(secs, nanos) {
        Some(instant) => Some(instant.to_string()),
        None => None,
    }
}

impl Timestamp {
    /// The instant written in `text`, if chrono can read one there.
    pub open spec fn parsed(text: Seq<char>) -> Option<Timestamp> {
        match parsed_timestamp(text) {
            Some((secs, nanos)) => Some(Timestamp { secs, nanos }),
            None => None,
        }
    }

    /// The text that stands for this instant in a compiled table, if the
    /// instant is one that chrono can represent.
    pub open spec fn text(self) -> Option<Seq<char>> {
        timestamp_text(self.secs, self.nanos)
    }

    /// The instant has a text, and that text reads back as the instant.
    pub open spec fn restorable(self) -> bool {
        self.text() matches Some(text) && Timestamp::parsed(text) == Some(self)
    }

    /// Reads an instant from its text.
    pub fn parse(text: &str) -> (r: Option<Timestamp>)
        ensures
            r == Timestamp::parsed(text@),
    {
        match parse_timestamp(text) {
            Some((secs, nanos)) => Some(Timestamp { secs, nanos }),
            None => None,
        }
    }

    /// Writes the instant as text.
    pub fn to_text(&self) -> (r: Option<String>)
        ensures
            match r {
                Some(text) => self.text() == Some(text@),
                None => self.text() is None,
            },
    {
        format_timestamp(self.secs, self.nanos)
    }

    /// Writes the instant as text, and makes sure that the text reads back
    /// as the instant: an instant for which it does not has no text here.
    pub fn to_restorable_text(&self) -> (r: Option<String>)
        ensures
            r is Some <==> self.restorable(),
            r matches Some(text) ==> self.text() == Some(text@),
    {
        let text = match self.to_text() {
            Some(text) => text,
            None => {
                return None;
            },
        };
        match Timestamp::parse(text.as_str()) {
            Some(read) => if read.secs == self.secs && read.nanos == self.nanos {
                Some(text)
            } else {
                None
            },
            None => None,
        }
    }
}

/// The order of instants is total: of two instants exactly one is earlier,
/// or they are the same instant.
pub proof fn lemma_instants_totally_ordered(a: Timestamp, b: Timestamp)
    ensures
        a.is_before(b) || b.is_before(a) || a == b,
        !(a.is_before(b) && b.is_before(a)),
        !a.is_before(a),
{
}

/// Earlier-than is transitive.
pub proof fn lemma_before_transitive(a: Timestamp, b: Timestamp, c: Timestamp)
    requires
        a.is_before(b),
        b.is_before(c),
    ensures
        a.is_before(c),
{
}

} // verus!
