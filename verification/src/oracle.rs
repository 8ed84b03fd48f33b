//! The block timestamp oracle: what the unix time of a block is, or will
//! be.
//!
//! The oracle asks for the head on every estimate, then for one timestamp:
//! that of the block itself where the block exists, that of the head where
//! it does not. What it does between the two questions and after the
//! second is `advance`; the caller puts the questions to the node.

use vstd::prelude::*;
use crate::chain::{answers, estimate, head_of, served, RecordedChain, Request};
use crate::error::Error;
use crate::genesis::AVERAGE_BLOCK_SECONDS;

verus! {

/// An estimate under way.
#[derive(Debug, Clone, Copy, PartialEq, Eq, Structural)]
pub enum OracleState {
    /// The head has been asked for.
    AwaitingHead { height: u64 },
    /// The head is known, and a timestamp has been asked for.
    AwaitingTimestamp { height: u64, head: u64 },
}

/// What the oracle does next.
#[derive(Debug, PartialEq, Eq)]
pub enum OracleStep {
    /// Put the state's pending request to the node and come back with the
    /// answer.
    Ask(OracleState),
    /// The estimate, or the failure that ended it.
    Done(Result<u64, Error>),
}

impl OracleState {
    /// The block whose time is being estimated.
    pub open spec fn height(self) -> u64 {
        match self {
            OracleState::AwaitingHead { height } => height,
            OracleState::AwaitingTimestamp { height, .. } => height,
        }
    }

    /// The request whose answer the state waits for: the head, then the
    /// timestamp of the block or of the head, whichever is lower.
    pub open spec fn pending(self) -> Request {
        match self {
            OracleState::AwaitingHead { .. } => Request::Head,
            OracleState::AwaitingTimestamp { height, head } => Request::Timestamp(
                if height <= head {
                    height
                } else {
                    head
                },
            ),
        }
    }

    /// The number of answers that the estimate still needs.
    pub open spec fn remaining(self) -> nat {
        match self {
            OracleState::AwaitingHead { .. } => 2,
            OracleState::AwaitingTimestamp { .. } => 1,
        }
    }

    /// Whether the state can have come about on this chain: the head it
    /// holds is the chain's.
    pub open spec fn fits(self, stamps: Seq<u64>) -> bool {
        &&& stamps.len() >= 1
        &&& self matches OracleState::AwaitingTimestamp { head, .. } ==> head == head_of(stamps)
    }

    /// Whether the state can have come about on a chain that began with
    /// these blocks and may have grown since, in an estimate for one of
    /// them.
    pub open spec fn within(self, stamps: Seq<u64>) -> bool {
        &&& stamps.len() >= 1
        &&& self.height() <= head_of(stamps)
        &&& self matches OracleState::AwaitingTimestamp { head, .. } ==> head >= head_of(stamps)
    }

    /// The block whose time is being estimated.
    pub fn block(&self) -> (height: u64)
        ensures
            height == self.height(),
    {
        match self {
            OracleState::AwaitingHead { height } => *height,
            OracleState::AwaitingTimestamp { height, .. } => *height,
        }
    }

    /// The request to put to the node.
    pub fn request(&self) -> (request: Request)
        ensures
            request == self.pending(),
    {
        match self {
            OracleState::AwaitingHead { .. } => Request::Head,
            OracleState::AwaitingTimestamp { height, head } => Request::Timestamp(
                if *height <= *head {
                    *height
                } else {
                    *head
                },
            ),
        }
    }
}

/// An estimate as the oracle returns it: the number, or `TimeOutOfRange`
/// where it does not fit 64 bits.
pub open spec fn in_range(at: int) -> Result<u64, Error> {
    if 0 <= at <= u64::MAX {
        Ok(at as u64)
    } else {
        Err(Error::TimeOutOfRange)
    }
}

/// The estimate for a block, given the head and the timestamp that was
/// asked for: the timestamp itself for a block up to the head, the
/// timestamp plus twelve seconds a block for one past the head.
pub open spec fn predicted(height: u64, head: u64, stamp: u64) -> Result<u64, Error> {
    if height <= head {
        Ok(stamp)
    } else {
        in_range(stamp + AVERAGE_BLOCK_SECONDS * (height - head))
    }
}

/// The step that follows a state and the answer to its request.
pub open spec fn advanced(state: OracleState, reply: Result<u64, String>) -> OracleStep {
    match reply {
        Err(cause) => OracleStep::Done(Err(Error::Rpc(cause))),
        Ok(value) => match state {
            OracleState::AwaitingHead { height } => OracleStep::Ask(
                OracleState::AwaitingTimestamp { height, head: value },
            ),
            OracleState::AwaitingTimestamp { height, head } => OracleStep::Done(
                predicted(height, head, value),
            ),
        },
    }
}

/// Begins the estimate for a block: the head is asked for first.
pub fn start(height: u64) -> (state: OracleState)
    ensures
        state == (OracleState::AwaitingHead { height }),
{
    OracleState::AwaitingHead { height }
}

/// The estimate for a block from the head and the timestamp asked for.
pub fn predict(height: u64, head: u64, stamp: u64) -> (at: Result<u64, Error>)
    ensures
        at == predicted(height, head, stamp),
{
    if height <= head {
        return Ok(stamp);
    }
    let ahead: u128 = (height - head) as u128;
    let at: u128 = stamp as u128 + AVERAGE_BLOCK_SECONDS as u128 * ahead;
    if at <= u64::MAX as u128 {
        Ok(at as u64)
    } else {
        Err(Error::TimeOutOfRange)
    }
}

/// Takes the answer to the state's request and says what comes next.
///
/// A failure of the node ends the estimate with that failure and its
/// cause. The head is followed by the request for a timestamp; the
/// timestamp ends the estimate.
pub fn advance(state: OracleState, reply: Result<u64, String>) -> (step: OracleStep)
    ensures
        step == advanced(state, reply),
{
    match reply {
        Err(cause) => OracleStep::Done(Err(Error::Rpc(cause))),
        Ok(value) => match state {
            OracleState::AwaitingHead { height } => OracleStep::Ask(
                OracleState::AwaitingTimestamp { height, head: value },
            ),
            OracleState::AwaitingTimestamp { height, head } => OracleStep::Done(
                predict(height, head, value),
            ),
        },
    }
}

/// On a chain that stands still, each truthful answer takes the oracle one
/// step nearer to the chain's estimate for the block: the request it makes
/// is one that the chain can answer, and it ends with that estimate and no
/// other.
pub proof fn lemma_advance_on_chain(stamps: Seq<u64>, state: OracleState, value: u64)
    requires
        stamps.len() <= u64::MAX,
        state.fits(stamps),
        served(stamps, state.pending()) == Some(value),
    ensures
        match advanced(state, Ok(value)) {
            OracleStep::Ask(next) => {
                &&& next.fits(stamps)
                &&& next.height() == state.height()
                &&& next.remaining() < state.remaining()
                &&& served(stamps, next.pending()) is Some
            },
            OracleStep::Done(at) => at == in_range(estimate(stamps, state.height() as int)),
        },
{
}

/// The time of a block that exists does not depend on how far the chain
/// has grown since: whatever head at or above the block the node reports,
/// the oracle asks for the block's own timestamp and ends with it.
pub proof fn lemma_advance_on_grown_chain(stamps: Seq<u64>, state: OracleState, value: u64)
    requires
        state.within(stamps),
        answers(stamps, state.pending(), value),
    ensures
        match advanced(state, Ok(value)) {
            OracleStep::Ask(next) => {
                &&& next.within(stamps)
                &&& next.height() == state.height()
                &&& next.remaining() < state.remaining()
            },
            OracleStep::Done(at) => at == Ok::<u64, Error>(stamps[state.height() as int]),
        },
{
}

/// The state's request can be answered by every chain that the state
/// fits.
pub proof fn lemma_request_served(stamps: Seq<u64>, state: OracleState)
    requires
        stamps.len() <= u64::MAX,
        state.fits(stamps),
    ensures
        served(stamps, state.pending()) is Some,
{
}

/// The unix time of a block on a recorded chain: its timestamp where the
/// block exists, a prediction of twelve seconds a block past the head. It
/// fails with `TimeOutOfRange` where the prediction does not fit 64 bits,
/// and in no other case.
pub fn get_block_unix_time(chain: &RecordedChain, block_num: u64) -> (at: Result<u64, Error>)
    ensures
        at == in_range(estimate(chain@, block_num as int)),
{
    proof {
        use_type_invariant(chain);
    }
    let mut state: OracleState = start(block_num);
    loop
        invariant
            chain@.len() <= u64::MAX,
            state.fits(chain@),
            state.height() == block_num,
        decreases state.remaining(),
    {
        let reply: Result<u64, String> = chain.answer(state.request());
        proof {
            lemma_request_served(chain@, state);
            lemma_advance_on_chain(chain@, state, reply->Ok_0);
        }
        match advance(state, reply) {
            OracleStep::Ask(next) => {
                state = next;
            },
            OracleStep::Done(at) => {
                return at;
            },
        }
    }
}

} // verus!
