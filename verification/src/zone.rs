//! Time zones, as the tz database describes them.
//!
//! What a zone does to a clock is not computed here: `chrono_tz` holds the
//! database and `chrono` does the arithmetic. This module gives each answer
//! of theirs a name and hands it on as plain values; nothing in it is
//! proved. The decisions taken on those answers are in `instant`.

use chrono::{Datelike, LocalResult, TimeZone, Timelike};
use chrono_tz::Tz;
use vstd::prelude::*;
use crate::calendar::WallClock;
use crate::error::Error;

verus! {

/// What a wall-clock time means in a zone.
#[derive(Debug, Clone, Copy, PartialEq, Eq, Structural)]
pub enum LocalInstant {
    /// No instant: the clocks of the zone skipped this time, or the fields
    /// name no time at all.
    Nonexistent,
    /// One instant, in unix seconds.
    Single(i64),
    /// Two instants, in unix seconds: the clocks of the zone showed this
    /// time twice.
    Ambiguous(i64, i64),
}

/// Whether `chrono_tz` knows a zone of this name.
pub uninterp spec fn zone_known(name: Seq<char>) -> bool;

/// The instants at which the clocks of a zone show the given fields;
/// `None` where the zone is not known.
pub uninterp spec fn zone_local_instant(name: Seq<char>, clock: WallClock) -> Option<LocalInstant>;

/// The fields that the clocks of a zone show at an instant, in unix
/// seconds; `None` where the zone is not known or the instant is out of
/// the range of `chrono`.
pub uninterp spec fn zone_wall_clock(name: Seq<char>, instant: int) -> Option<WallClock>;

/// An instant, in unix seconds, written out in a zone; `None` where the
/// zone is not known or the instant is out of the range of `chrono`.
pub uninterp spec fn zone_rendering(name: Seq<char>, instant: int) -> Option<Seq<char>>;

/// Calls `<chrono_tz::Tz as FromStr>::from_str` and says whether it found
/// a zone. The contract only names that answer.
#[verifier::external_body]
pub(crate) fn zone_exists(name: &str) -> (known: bool)
    ensures
        known == zone_known(name@),
{
    name.parse::<Tz>().is_ok()
}

/// Calls `chrono::TimeZone::with_ymd_and_hms` on the zone of that name and
/// hands on its three outcomes, each instant as unix seconds. The contract
/// only names that answer; it is `None` where the name does not parse.
#[verifier::external_body]
pub(crate) fn local_instant(name: &str, clock: &WallClock) -> (found: Option<LocalInstant>)
    ensures
        found == zone_local_instant(name@, *clock),
{
    let tz: Tz = name.parse().ok()?;
    let WallClock { year, month, day, hour, minute, second } = *clock;
    Some(
        match tz.with_ymd_and_hms(year, month, day, hour, minute, second) {
            LocalResult::None => LocalInstant::Nonexistent,
            LocalResult::Single(at) => LocalInstant::Single(at.timestamp()),
            LocalResult::Ambiguous(first, second) => LocalInstant::Ambiguous(
                first.timestamp(),
                second.timestamp(),
            ),
        },
    )
}

/// Calls `chrono::TimeZone::timestamp_opt` on the zone of that name and
/// reads the six fields off the date it gives. The contract only names
/// that answer; it is `None` where the name does not parse or `chrono`
/// has no date for the instant.
#[verifier::external_body]
pub(crate) fn wall_clock_at(name: &str, instant: i64) -> (clock: Option<WallClock>)
    ensures
        clock == zone_wall_clock(name@, instant as int),
{
    let tz: Tz = name.parse().ok()?;
    let at = tz.timestamp_opt(instant, 0).single()?;
    Some(
        WallClock {
            year: at.year(),
            month: at.month(),
            day: at.day(),
            hour: at.hour(),
            minute: at.minute(),
            second: at.second(),
        },
    )
}

/// Calls `chrono::TimeZone::timestamp_opt` on the zone of that name and
/// writes the date out with `to_string`. The contract only names that
/// text; there is none where the name does not parse or `chrono` has no
/// date for the instant.
#[verifier::external_body]
pub(crate) fn render_at(name: &str, instant: i64) -> (text: Option<String>)
    ensures
        text is Some <==> zone_rendering(name@, instant as int) is Some,
        text is Some ==> text->0@ == zone_rendering(name@, instant as int)->0,
{
    let tz: Tz = name.parse().ok()?;
    Some(tz.timestamp_opt(instant, 0).single()?.to_string())
}

/// A time zone that is known to exist, held by its identifier.
#[derive(Debug)]
pub struct TzHandle {
    name: String,
}

impl TzHandle {
    #[verifier::type_invariant]
    spec fn known(self) -> bool {
        zone_known(self.name@)
    }

    /// The identifier of the zone.
    pub closed spec fn view(&self) -> Seq<char> {
        self.name@
    }

    /// The identifier of the zone, which names a known zone.
    pub fn name(&self) -> (name: &str)
        ensures
            name@ == self@,
            zone_known(self@),
    {
        proof {
            use_type_invariant(self);
        }
        self.name.as_str()
    }
}

/// Resolves a time zone identifier. It fails with `InvalidTimezone` on
/// every identifier that names no zone, and on no other.
pub fn parse_timezone(time_zone: &str) -> (handle: Result<TzHandle, Error>)
    ensures
        match handle {
            Ok(tz) => zone_known(time_zone@) && tz@ == time_zone@,
            Err(e) => !zone_known(time_zone@) && e == Error::InvalidTimezone,
        },
{
    if zone_exists(time_zone) {
        Ok(TzHandle { name: time_zone.to_owned() })
    } else {
        Err(Error::InvalidTimezone)
    }
}

} // verus!
