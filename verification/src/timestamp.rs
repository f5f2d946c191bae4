//! Instants as the provider writes them.

use vstd::prelude::*;
use crate::GitError;

verus! {

/// An instant on the UTC time line: whole seconds since 1970-01-01T00:00:00Z
/// and the nanoseconds into that second.
#[derive(Debug, Clone, Copy, PartialEq, Eq, Structural)]
pub struct Timestamp {
    pub seconds: i64,
    pub nanos: u32,
}

/// The instant that an RFC 3339 text denotes, as seconds since the epoch and
/// nanoseconds into the second; nothing where the text is not RFC 3339.
pub uninterp spec fn rfc3339_instant(text: Seq<char>) -> Option<(i64, u32)>;

/// `chrono::DateTime::parse_from_rfc3339`, with the instant it yields read
/// through `DateTime::timestamp` and `DateTime::timestamp_subsec_nanos`. The
/// parse depends on the text alone, and both readings are taken in UTC
/// whatever offset the text names.
#[verifier::external_body]
fn parse_rfc3339(text: &str) -> (parsed: Option<(i64, u32)>)
    ensures
        parsed == rfc3339_instant(text@),
{
    match chrono::DateTime::parse_from_rfc3339(text) {
        Ok(instant) => Some((instant.timestamp(), instant.timestamp_subsec_nanos())),
        Err(_) => None,
    }
}

impl Timestamp {
    /// The timestamp for what a parse yielded: an unreadable text makes the
    /// record that holds it malformed.
    pub fn from_parsed(parsed: Option<(i64, u32)>) -> (timestamp: Result<Timestamp, GitError>)
        ensures
            timestamp == match parsed {
                Some((seconds, nanos)) => Ok::<Timestamp, GitError>(Timestamp { seconds, nanos }),
                None => Err(GitError::MalformedResponse),
            },
    {
        match parsed {
            Some((seconds, nanos)) => Ok(Timestamp { seconds, nanos }),
            None => Err(GitError::MalformedResponse),
        }
    }
}

/// Reads an RFC 3339 text as an instant in UTC. Fails with
/// `MalformedResponse` exactly where the text is not RFC 3339.
pub fn from_str_to_naive_datetime(text: &str) -> (timestamp: Result<Timestamp, GitError>)
    ensures
        timestamp == match rfc3339_instant(text@) {
            Some((seconds, nanos)) => Ok::<Timestamp, GitError>(Timestamp { seconds, nanos }),
            None => Err(GitError::MalformedResponse),
        },
{
    Timestamp::from_parsed(parse_rfc3339(text))
}

} // verus!
