//! The ways in which a conversion can fail.

use vstd::prelude::*;

verus! {

/// Every failure ends the conversion it occurs in; none is retried.
#[derive(Debug, PartialEq, Eq)]
pub enum Error {
    /// The chain client could not answer; the text is the cause it gave.
    Rpc(String),
    /// The time zone identifier names no known zone.
    InvalidTimezone,
    /// The time string is not one to six numeric components in range.
    MalformedTimeString,
    /// The instant lies before the genesis block.
    PredatesGenesis,
    /// The wall-clock time was skipped in the zone (a gap in local time).
    /// A time that the zone's clocks showed twice is no failure: it means
    /// the earlier of its two instants.
    NonexistentLocalTime,
    /// The instant lies after the timestamp of the chain head.
    TimeInFuture,
    /// The instant cannot be represented.
    TimeOutOfRange,
}

impl Error {
    /// What `message` returns, as a sequence of characters.
    pub open spec fn message_text(&self) -> Seq<char> {
        match self {
            Error::Rpc(cause) => cause@,
            Error::InvalidTimezone => "Invalid time zone."@,
            Error::MalformedTimeString => "Malformed time string."@,
            Error::PredatesGenesis => "year predates Ethereum"@,
            Error::NonexistentLocalTime => "Local time does not exist."@,
            Error::TimeInFuture => "Time is in the future."@,
            Error::TimeOutOfRange => "Time is out of range."@,
        }
    }

    /// A line of text for the user. A chain client's cause is handed on
    /// as it came.
    pub fn message(&self) -> (text: String)
        ensures
            text@ == self.message_text(),
    {
        match self {
            Error::Rpc(cause) => cause.clone(),
            Error::InvalidTimezone => "Invalid time zone.".to_owned(),
            Error::MalformedTimeString => "Malformed time string.".to_owned(),
            Error::PredatesGenesis => "year predates Ethereum".to_owned(),
            Error::NonexistentLocalTime => "Local time does not exist.".to_owned(),
            Error::TimeInFuture => "Time is in the future.".to_owned(),
            Error::TimeOutOfRange => "Time is out of range.".to_owned(),
        }
    }
}

} // verus!
