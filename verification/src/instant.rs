//! From a time string to a unix instant, and from a unix instant to text.
//!
//! A time string is read as wall-clock time in the configured zone. What
//! it leaves out is filled in twice over: with the least value of each
//! field, and, where the fields given agree with the genesis instant as the
//! zone's clocks showed it, with the genesis instant itself. So `2015`
//! means the second in which the chain began, not a midnight at which
//! there was no chain yet.

use vstd::prelude::*;
use crate::calendar::WallClock;
use crate::config::Config;
use crate::error::Error;
use crate::genesis::GENESIS_UNIX;
use crate::timestring::{complete, is_start_of, parse_partial, partial_of, PartialTime};
use crate::zone::{
    local_instant, parse_timezone, render_at, wall_clock_at, zone_known, zone_local_instant,
    zone_rendering, zone_wall_clock, LocalInstant, TzHandle,
};

verus! {

/// The instant that a wall-clock time is taken to mean: the only one, or
/// the earlier of two where the zone's clocks showed the time twice; none
/// where they never showed it.
pub open spec fn earliest(local: LocalInstant) -> Option<i64> {
    match local {
        LocalInstant::Nonexistent => None,
        LocalInstant::Single(at) => Some(at),
        LocalInstant::Ambiguous(first, second) => Some(
            if first <= second {
                first
            } else {
                second
            },
        ),
    }
}

/// Whether the fields given agree with the genesis instant as the zone's
/// clocks showed it.
pub open spec fn snaps_to_genesis(partial: Seq<u32>, genesis_local: Option<WallClock>) -> bool {
    genesis_local is Some && is_start_of(partial, genesis_local->0.fields())
}

/// The unix instant of a partial time, given the two answers of the zone:
/// the genesis instant on its clocks, and the instants at which its clocks
/// showed the partial time completed with least values.
pub open spec fn resolved(
    partial: Seq<u32>,
    genesis_local: Option<WallClock>,
    local: LocalInstant,
) -> Result<u64, Error> {
    if snaps_to_genesis(partial, genesis_local) {
        Ok(GENESIS_UNIX)
    } else {
        match earliest(local) {
            None => Err(Error::NonexistentLocalTime),
            Some(at) => if at < GENESIS_UNIX {
                Err(Error::PredatesGenesis)
            } else {
                Ok(at as u64)
            },
        }
    }
}

/// The unix instant that a time string means in a zone.
pub open spec fn unix_of(zone: Seq<char>, time: Seq<char>) -> Result<u64, Error> {
    if !zone_known(zone) {
        Err(Error::InvalidTimezone)
    } else {
        match partial_of(time) {
            None => Err(Error::MalformedTimeString),
            Some(partial) => match zone_local_instant(zone, complete(partial)) {
                None => Err(Error::InvalidTimezone),
                Some(local) => resolved(
                    partial,
                    zone_wall_clock(zone, GENESIS_UNIX as int),
                    local,
                ),
            },
        }
    }
}

/// An instant written out in a zone.
pub open spec fn rendering_of(zone: Seq<char>, unix: u64) -> Result<Seq<char>, Error> {
    if unix > i64::MAX {
        Err(Error::TimeOutOfRange)
    } else {
        match zone_rendering(zone, unix as int) {
            Some(text) => Ok(text),
            None => Err(Error::TimeOutOfRange),
        }
    }
}

/// Decides the unix instant of a partial time from the two answers of the
/// zone.
///
/// A partial time that agrees with the genesis instant on the zone's
/// clocks is the genesis instant. Any other is the instant of its
/// completion with least values: the earlier one where there are two,
/// `NonexistentLocalTime` where there is none, `PredatesGenesis` where it
/// lies before genesis.
pub fn resolve_instant(
    partial: &PartialTime,
    genesis_local: Option<WallClock>,
    local: LocalInstant,
) -> (unix: Result<u64, Error>)
    ensures
        unix == resolved(partial@, genesis_local, local),
        unix is Ok ==> unix->Ok_0 >= GENESIS_UNIX,
{
    let snaps: bool = match genesis_local {
        Some(clock) => partial.starts(&clock),
        None => false,
    };
    if snaps {
        return Ok(GENESIS_UNIX);
    }
    let at: i64 = match local {
        LocalInstant::Nonexistent => {
            return Err(Error::NonexistentLocalTime);
        },
        LocalInstant::Single(at) => at,
        LocalInstant::Ambiguous(first, second) => if first <= second {
            first
        } else {
            second
        },
    };
    if at < GENESIS_UNIX as i64 {
        Err(Error::PredatesGenesis)
    } else {
        Ok(at as u64)
    }
}

/// The unix instant that a time string means in a zone.
pub fn instant_in_zone(tz: &TzHandle, time: &str) -> (unix: Result<u64, Error>)
    ensures
        unix == unix_of(tz@, time@),
        unix is Ok ==> unix->Ok_0 >= GENESIS_UNIX,
{
    let name: &str = tz.name();
    let partial: PartialTime = match parse_partial(time) {
        Ok(partial) => partial,
        Err(e) => {
            return Err(e);
        },
    };
    let clock: WallClock = partial.completed();
    let local: LocalInstant = match local_instant(name, &clock) {
        Some(local) => local,
        None => {
            return Err(Error::InvalidTimezone);
        },
    };
    let genesis_local: Option<WallClock> = wall_clock_at(name, GENESIS_UNIX as i64);
    resolve_instant(&partial, genesis_local, local)
}

/// Converts a time string of the form `YYYY[-MM[-DD[ hh[:mm[:ss]]]]]`, read
/// in the configured time zone, to unix seconds.
///
/// The time zone is looked at first (`InvalidTimezone`), then the string
/// (`MalformedTimeString`), then the instant (`NonexistentLocalTime`,
/// `PredatesGenesis`). An instant that is returned is never before
/// genesis.
pub fn time_to_unix(config: &Config, time: &str) -> (unix: Result<u64, Error>)
    requires
        config.time_zone is Some,
    ensures
        unix == unix_of(config.time_zone->0@, time@),
        unix is Ok ==> unix->Ok_0 >= GENESIS_UNIX,
{
    match parse_timezone(config.time_zone()) {
        Ok(tz) => instant_in_zone(&tz, time),
        Err(e) => Err(e),
    }
}

/// Writes the unix time of a block out in a zone. It fails with
/// `TimeOutOfRange` where the time has no date.
pub fn render_block_time(tz: &TzHandle, block_unix: u64) -> (text: Result<String, Error>)
    ensures
        match text {
            Ok(text) => rendering_of(tz@, block_unix) == Ok::<Seq<char>, Error>(text@),
            Err(e) => rendering_of(tz@, block_unix) == Err::<Seq<char>, Error>(e),
        },
{
    if block_unix > i64::MAX as u64 {
        return Err(Error::TimeOutOfRange);
    }
    match render_at(tz.name(), block_unix as i64) {
        Some(text) => Ok(text),
        None => Err(Error::TimeOutOfRange),
    }
}

/// A time string that agrees with the genesis instant on the zone's clocks
/// means the genesis instant, however many of the six fields it gives and
/// whatever the zone makes of its completion with least values.
pub proof fn lemma_genesis_start_is_genesis(
    partial: Seq<u32>,
    genesis_local: WallClock,
    local: LocalInstant,
)
    requires
        is_start_of(partial, genesis_local.fields()),
    ensures
        resolved(partial, Some(genesis_local), local) == Ok::<u64, Error>(GENESIS_UNIX),
{
}

/// No time string means an instant before genesis: one whose completion
/// lies before genesis is rejected with `PredatesGenesis`, unless it
/// agrees with the genesis instant on the zone's clocks, and whatever is
/// returned is at or after genesis.
pub proof fn lemma_before_genesis_rejected(
    partial: Seq<u32>,
    genesis_local: Option<WallClock>,
    local: LocalInstant,
)
    ensures
        resolved(partial, genesis_local, local) is Ok ==> resolved(
            partial,
            genesis_local,
            local,
        )->Ok_0 >= GENESIS_UNIX,
        !snaps_to_genesis(partial, genesis_local) && earliest(local) is Some && earliest(local)->0
            < GENESIS_UNIX ==> resolved(partial, genesis_local, local) == Err::<u64, Error>(
            Error::PredatesGenesis,
        ),
{
}

} // verus!
