//! Source modification times, and the watermark test that decides whether a
//! playlist's tracks must be fetched again.

use vstd::prelude::*;

verus! {

/// A point in time: whole seconds since the Unix epoch, and the nanoseconds
/// past that second.
#[derive(Debug, Clone, Copy, PartialEq, Eq, Structural)]
pub struct Timestamp {
    pub seconds: i64,
    pub nanos: u32,
}

/// Whether `a` is no later than `b`.
pub open spec fn not_after(a: Timestamp, b: Timestamp) -> bool {
    a.seconds < b.seconds || (a.seconds == b.seconds && a.nanos <= b.nanos)
}

impl Timestamp {
    /// Whether `self` is no later than `other`.
    pub fn not_after(&self, other: &Timestamp) -> (r: bool)
        ensures
            r == not_after(*self, *other),
    {
        self.seconds < other.seconds || (self.seconds == other.seconds && self.nanos
            <= other.nanos)
    }
}

/// How the source catalog writes modification times.
pub const TIMESTAMP_FORMAT: &'static str = "%Y-%m-%dT%H:%M:%S%.fZ";

/// The time that chrono reads from `text` under `format`, if it reads one.
pub uninterp spec fn parsed_datetime(text: Seq<char>, format: Seq<char>) -> Option<Timestamp>;

/// Relies on chrono's `NaiveDateTime::parse_from_str`, read as a UTC time:
/// whether it succeeds, and the time it gives, depend on the text and the
/// format alone.
#[verifier::external_body]
fn parse_datetime(text: &str, format: &str) -> (r: Option<Timestamp>)
    ensures
        r == parsed_datetime(text@, format@),
{
    match chrono::NaiveDateTime::parse_from_str(text, format) {
        Ok(t) => Some(
            Timestamp { seconds: t.and_utc().timestamp(), nanos: t.and_utc().timestamp_subsec_nanos() },
        ),
        Err(_) => None,
    }
}

/// What a modification time field says.
#[derive(Debug, Clone, Copy, PartialEq, Eq, Structural)]
pub enum Stamp {
    /// No time was given.
    Absent,
    /// A time was given that does not read as one.
    Unreadable,
    /// The time given.
    At(Timestamp),
}

/// The stamp that a parse result stands for.
pub open spec fn stamp_of(parsed: Option<Timestamp>) -> Stamp {
    match parsed {
        Some(t) => Stamp::At(t),
        None => Stamp::Unreadable,
    }
}

/// The stamp of an optional modification time field.
pub open spec fn field_stamp(text: Option<Seq<char>>) -> Stamp {
    match text {
        Some(s) => stamp_of(parsed_datetime(s, TIMESTAMP_FORMAT@)),
        None => Stamp::Absent,
    }
}

/// The view of an optional string.
pub open spec fn opt_text(v: Option<String>) -> Option<Seq<char>> {
    match v {
        Some(s) => Some(s@),
        None => None,
    }
}

/// Reads a modification time field in the source catalog's format.
pub fn read_stamp(text: &Option<String>) -> (r: Stamp)
    ensures
        r == field_stamp(opt_text(*text)),
{
    match text {
        Some(s) => match parse_datetime(s.as_str(), TIMESTAMP_FORMAT) {
            Some(t) => Stamp::At(t),
            None => Stamp::Unreadable,
        },
        None => Stamp::Absent,
    }
}

/// What to do about a playlist's tracks, given its modification time.
#[derive(Debug, Clone, Copy, PartialEq, Eq, Structural)]
pub enum SourcePlan {
    /// The ledger's copy is current: use the recorded tracks.
    Reuse,
    /// Fetch the tracks from the source again.
    Refetch,
    /// The source gave a modification time that cannot be read.
    Reject,
}

/// The plan for a playlist whose source stamp is `source` and whose ledger
/// watermark is `saved` (`Absent` where the ledger has no record).
pub open spec fn source_plan(source: Stamp, saved: Stamp) -> SourcePlan {
    match source {
        Stamp::Unreadable => SourcePlan::Reject,
        Stamp::At(s) => match saved {
            Stamp::At(w) => if not_after(s, w) {
                SourcePlan::Reuse
            } else {
                SourcePlan::Refetch
            },
            _ => SourcePlan::Refetch,
        },
        Stamp::Absent => SourcePlan::Refetch,
    }
}

/// Decides whether a playlist's tracks must be fetched again: only where
/// the ledger's watermark is no earlier than the source's modification time
/// can its recorded tracks be used.
pub fn plan_source(source: Stamp, saved: Stamp) -> (r: SourcePlan)
    ensures
        r == source_plan(source, saved),
{
    match source {
        Stamp::Unreadable => SourcePlan::Reject,
        Stamp::At(s) => match saved {
            Stamp::At(w) => if s.not_after(&w) {
                SourcePlan::Reuse
            } else {
                SourcePlan::Refetch
            },
            _ => SourcePlan::Refetch,
        },
        Stamp::Absent => SourcePlan::Refetch,
    }
}

} // verus!
