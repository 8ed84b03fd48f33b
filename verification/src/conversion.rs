//! The two conversions from end to end: a block number to a rendered
//! time, and a time string to a block number.
//!
//! Each begins with what can be decided without the node: the time zone is
//! resolved, and a time string is read, before the first request is made.
//! What follows is the oracle or the search, one request at a time.

use vstd::prelude::*;
use crate::chain::Request;
use crate::config::Config;
use crate::error::Error;
use crate::genesis::GENESIS_UNIX;
use crate::instant::{render_block_time, rendering_of, time_to_unix, unix_of};
use crate::oracle::{OracleState, OracleStep};
use crate::search::{SearchState, SearchStep};
use crate::zone::{parse_timezone, zone_known, TzHandle};

verus! {

/// A conversion of a block number to a rendered time under way: the
/// oracle estimates the block's time, which is then written out in the
/// zone.
#[derive(Debug)]
pub struct BlockToTime {
    pub tz: TzHandle,
    pub oracle: OracleState,
}

/// What the conversion of a block number does next.
#[derive(Debug)]
pub enum BlockToTimeStep {
    /// Put the state's pending request to the node and come back with the
    /// answer.
    Ask(BlockToTime),
    /// The time of the block written out, or the failure that ended the
    /// conversion.
    Done(Result<String, Error>),
}

impl BlockToTime {
    /// The request to put to the node.
    pub fn request(&self) -> (request: Request)
        ensures
            request == self.oracle.pending(),
    {
        self.oracle.request()
    }

    /// Takes the answer to the pending request and says what comes next:
    /// the oracle's next request, the oracle's failure, or the estimate
    /// written out in the zone, which fails with `TimeOutOfRange` where
    /// the estimate has no date.
    pub fn advance(self, reply: Result<u64, String>) -> (step: BlockToTimeStep)
        ensures
            match crate::oracle::advanced(self.oracle, reply) {
                OracleStep::Ask(next) => step matches BlockToTimeStep::Ask(state) && state.tz
                    == self.tz && state.oracle == next,
                OracleStep::Done(Err(e)) => step matches BlockToTimeStep::Done(Err(f)) && f == e,
                OracleStep::Done(Ok(unix)) => step matches BlockToTimeStep::Done(text) && match text {
                    Ok(text) => rendering_of(self.tz@, unix) == Ok::<Seq<char>, Error>(text@),
                    Err(e) => rendering_of(self.tz@, unix) == Err::<Seq<char>, Error>(e),
                },
            },
    {
        match crate::oracle::advance(self.oracle, reply) {
            OracleStep::Ask(next) => BlockToTimeStep::Ask(BlockToTime { tz: self.tz, oracle: next }),
            OracleStep::Done(Err(e)) => BlockToTimeStep::Done(Err(e)),
            OracleStep::Done(Ok(unix)) => BlockToTimeStep::Done(render_block_time(&self.tz, unix)),
        }
    }
}

/// Begins the conversion of a block number to a time in the configured
/// zone. An unknown zone ends it with `InvalidTimezone` before anything is
/// asked of the node; with a known zone the oracle begins its estimate for
/// the block.
pub fn block_to_time(config: Config, block_num: u64) -> (step: BlockToTimeStep)
    requires
        config.time_zone is Some,
    ensures
        match step {
            BlockToTimeStep::Ask(state) => {
                &&& zone_known(config.time_zone->0@)
                &&& state.tz@ == config.time_zone->0@
                &&& state.oracle == (OracleState::AwaitingHead { height: block_num })
            },
            BlockToTimeStep::Done(end) => {
                &&& !zone_known(config.time_zone->0@)
                &&& end matches Err(e) && e == Error::InvalidTimezone
            },
        },
{
    match parse_timezone(config.time_zone()) {
        Ok(tz) => BlockToTimeStep::Ask(BlockToTime { tz, oracle: crate::oracle::start(block_num) }),
        Err(e) => BlockToTimeStep::Done(Err(e)),
    }
}

/// Begins the conversion of a time string, read in the configured zone,
/// to the first block at or after it. A string that means no instant at or
/// after genesis ends it with the failure of `time_to_unix` before
/// anything is asked of the node; any other begins the search for its
/// instant.
pub fn time_to_block(config: &Config, time: &str) -> (step: SearchStep)
    requires
        config.time_zone is Some,
    ensures
        step == match unix_of(config.time_zone->0@, time@) {
            Ok(target) => SearchStep::Ask(SearchState::Locating { target }),
            Err(e) => SearchStep::Done(Err(e)),
        },
        step matches SearchStep::Ask(SearchState::Locating { target }) ==> target >= GENESIS_UNIX,
{
    match time_to_unix(config, time) {
        Ok(target) => SearchStep::Ask(crate::search::start(target)),
        Err(e) => SearchStep::Done(Err(e)),
    }
}

} // verus!
