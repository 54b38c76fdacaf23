//! Names of run artifacts.
//!
//! An artifact is named after the instant at which its run began: the
//! calendar form of the run-start timestamp in UTC, to the millisecond,
//! followed by the file extension.

use vstd::prelude::*;
use vstd::string::StringExecFns;

use crate::envelope::Timestamp;

verus! {

/// Millisecond stamp of the earliest instant the calendar can hold:
/// midnight before 1 January of the year -262143.
pub const MIN_UTC_MILLIS: i64 = -8_334_601_228_800_000;

/// Millisecond stamp of the latest instant the calendar can hold: the last
/// millisecond of 31 December of the year 262142.
pub const MAX_UTC_MILLIS: i64 = 8_210_266_876_799_999;

/// Whether the calendar can hold the instant `millis` milliseconds after
/// the Unix epoch.
pub open spec fn representable(millis: i64) -> bool {
    MIN_UTC_MILLIS <= millis <= MAX_UTC_MILLIS
}

/// The text that the calendar library prints for the UTC instant `millis`
/// milliseconds after the Unix epoch, such as `1970-01-01T00:00:01Z`, or
/// `None` where it cannot hold that instant.
pub uninterp spec fn utc_text(millis: i64) -> Option<Seq<char>>;

/// Why no name could be derived from a timestamp.
#[derive(Clone, Copy, Debug, PartialEq, Eq)]
pub enum NameError {
    /// The message carried no time.
    TimestampUnavailable,
    /// The time lies outside what the calendar can hold.
    TimestampOutOfRange,
}

impl NameError {
    /// The error in words.
    pub fn message(&self) -> (text: String)
        ensures
            text@ == "Failed to convert timestamp to milliseconds"@,
    {
        String::from_str("Failed to convert timestamp to milliseconds")
    }
}

/// Trusted: calls `chrono::DateTime::<Utc>::from_timestamp_millis` and
/// prints the instant it returns with the `Debug` form of `DateTime<Utc>`.
///
/// The contract gives the printed text a name, `utc_text`, and claims that
/// an instant comes back exactly for the stamps between `DateTime::MIN_UTC`
/// and `DateTime::MAX_UTC`. Nothing is proved of the text itself.
#[verifier::external_body]
fn utc_debug_text(millis: i64) -> (text: Option<String>)
    ensures
        text is Some <==> representable(millis),
        match text {
            Some(t) => utc_text(millis) == Some(t@),
            None => utc_text(millis) is None,
        },
{
    match chrono::DateTime::<chrono::Utc>::from_timestamp_millis(millis) {
        Some(instant) => Some(format!("{:?}", instant)),
        None => None,
    }
}

/// The artifact name made of an instant's text: the text followed by `.h5`.
pub open spec fn with_extension(text: Seq<char>) -> Seq<char> {
    text + ".h5"@
}

/// The name of the artifact of a run that began at `timestamp`, or the
/// reason why it has none.
pub open spec fn filename_of(timestamp: Timestamp) -> Result<Seq<char>, NameError> {
    match timestamp.millis() {
        None => Err(NameError::TimestampUnavailable),
        Some(millis) => match utc_text(millis) {
            None => Err(NameError::TimestampOutOfRange),
            Some(text) => Ok(with_extension(text)),
        },
    }
}

/// Whether `name` is what `expected` describes.
pub open spec fn names_agree(name: Result<String, NameError>, expected: Result<Seq<char>, NameError>) -> bool {
    match name {
        Ok(n) => expected == Ok::<Seq<char>, NameError>(n@),
        Err(e) => expected == Err::<Seq<char>, NameError>(e),
    }
}

/// Completes a name from the text of an instant: appends the extension, or
/// reports that the instant was out of range where there is no text.
pub fn artifact_name(text: Option<String>) -> (name: Result<String, NameError>)
    ensures
        match text {
            Some(t) => name is Ok && name->Ok_0@ == with_extension(t@),
            None => name == Err::<String, NameError>(NameError::TimestampOutOfRange),
        },
{
    match text {
        Some(t) => Ok(t.concat(".h5")),
        None => Err(NameError::TimestampOutOfRange),
    }
}

/// Derives the artifact name of a run from the timestamp of its run-start
/// message.
///
/// A name comes back exactly where the timestamp carries a time that the
/// calendar can hold. The name is a function of the millisecond stamp
/// alone: two runs that begin in the same millisecond get the same name.
pub fn generate_filename(timestamp: Timestamp) -> (name: Result<String, NameError>)
    ensures
        names_agree(name, filename_of(timestamp)),
        name is Ok <==> timestamp.millis() is Some && representable(timestamp.millis()->0),
        timestamp.millis() is None ==> name == Err::<String, NameError>(
            NameError::TimestampUnavailable,
        ),
        timestamp.millis() is Some && !representable(timestamp.millis()->0) ==> name == Err::<
            String,
            NameError,
        >(NameError::TimestampOutOfRange),
{
    match timestamp.to_millis() {
        None => Err(NameError::TimestampUnavailable),
        Some(millis) => artifact_name(utc_debug_text(millis)),
    }
}

/// Names depend on the millisecond stamp and on nothing else: timestamps
/// that carry the same stamp, whatever their kind, give the same name or
/// fail alike.
pub proof fn lemma_name_is_function_of_millis(first: Timestamp, second: Timestamp)
    requires
        first.millis() == second.millis(),
    ensures
        filename_of(first) == filename_of(second),
{
}

} // verus!
