//! The chain as a node shows it: a head and a timestamp for every block up
//! to the head.
//!
//! The library never talks to a node. It says what to ask (`Request`) and
//! takes the answer as a number or as a failure with its cause. A chain is
//! modelled by the timestamps of its blocks in the order of their heights;
//! `RecordedChain` is such a list held in memory, which answers requests
//! the way a node would.

use vstd::prelude::*;
use crate::genesis::AVERAGE_BLOCK_SECONDS;

verus! {

/// A question to the chain client. Each is answered by one number.
#[derive(Debug, Clone, Copy, PartialEq, Eq, Structural)]
pub enum Request {
    /// The height of the chain head.
    Head,
    /// The unix timestamp of the block at a height.
    Timestamp(u64),
}

/// The height of the head of a chain of at least one block.
pub open spec fn head_of(stamps: Seq<u64>) -> int {
    stamps.len() - 1
}

/// Whether the timestamps never decrease with the height.
pub open spec fn monotone(stamps: Seq<u64>) -> bool {
    forall|i: int, j: int| 0 <= i <= j < stamps.len() ==> stamps[i] <= stamps[j]
}

/// The unix time of a block: its timestamp where the block exists, and
/// past the head the head's timestamp plus twelve seconds for every block
/// in between.
pub open spec fn estimate(stamps: Seq<u64>, height: int) -> int {
    if height <= head_of(stamps) {
        stamps[height] as int
    } else {
        stamps[head_of(stamps)] + AVERAGE_BLOCK_SECONDS * (height - head_of(stamps))
    }
}

/// What a truthful node answers: the head, or the timestamp of a block
/// that exists; nothing for a block past the head or on an empty chain.
pub open spec fn served(stamps: Seq<u64>, request: Request) -> Option<u64> {
    match request {
        Request::Head => if stamps.len() >= 1 {
            Some(head_of(stamps) as u64)
        } else {
            None
        },
        Request::Timestamp(height) => if height < stamps.len() {
            Some(stamps[height as int])
        } else {
            None
        },
    }
}

/// Whether a number is a truthful answer of a node whose chain began with
/// these blocks and may have grown since: a head at or above theirs, or
/// the timestamp of one of them.
pub open spec fn answers(stamps: Seq<u64>, request: Request, value: u64) -> bool {
    match request {
        Request::Head => value >= head_of(stamps),
        Request::Timestamp(height) => height < stamps.len() && value == stamps[height as int],
    }
}

/// On a chain whose timestamps never decrease, no block is estimated
/// earlier than a block below it, whether the two exist or are predicted.
pub proof fn lemma_estimate_monotone(stamps: Seq<u64>, low: int, high: int)
    requires
        stamps.len() >= 1,
        monotone(stamps),
        0 <= low <= high,
    ensures
        estimate(stamps, low) <= estimate(stamps, high),
{
}

/// Past the head, the estimate is the head's own plus exactly twelve
/// seconds for each block.
pub proof fn lemma_estimate_future(stamps: Seq<u64>, height: int)
    requires
        stamps.len() >= 1,
        height > head_of(stamps),
    ensures
        estimate(stamps, height) == estimate(stamps, head_of(stamps)) + 12 * (height - head_of(
            stamps,
        )),
{
}

/// The timestamps of the blocks of a chain, from block 0 to the head, held
/// in memory. There is at least block 0, and no more blocks than heights.
#[derive(Debug)]
pub struct RecordedChain {
    stamps: Vec<u64>,
}

impl RecordedChain {
    /// The timestamps by height.
    pub closed spec fn view(&self) -> Seq<u64> {
        self.stamps@
    }

    /// What holds of every recorded chain.
    #[verifier::type_invariant]
    pub open spec fn wf(self) -> bool {
        1 <= self@.len() <= u64::MAX
    }

    /// Takes the timestamps of a chain; a list without a block is none.
    pub fn new(stamps: Vec<u64>) -> (chain: Option<RecordedChain>)
        ensures
            chain is Some <==> 1 <= stamps@.len() <= u64::MAX,
            chain is Some ==> chain->0@ == stamps@,
    {
        if stamps.len() >= 1 && stamps.len() as u128 <= u64::MAX as u128 {
            Some(RecordedChain { stamps })
        } else {
            None
        }
    }

    /// The height of the head.
    pub fn head(&self) -> (head: u64)
        ensures
            head == head_of(self@),
    {
        proof {
            use_type_invariant(self);
        }
        (self.stamps.len() - 1) as u64
    }

    /// Answers a request as a node with exactly these blocks would: with
    /// the number asked for, or with a failure for a block past the head.
    pub fn answer(&self, request: Request) -> (reply: Result<u64, String>)
        ensures
            match reply {
                Ok(value) => served(self@, request) == Some(value),
                Err(cause) => served(self@, request) is None && cause@ == "block not found"@,
            },
    {
        proof {
            use_type_invariant(self);
        }
        match request {
            Request::Head => Ok(self.head()),
            Request::Timestamp(height) => {
                if (height as u128) < self.stamps.len() as u128 {
                    Ok(self.stamps[height as usize])
                } else {
                    Err("block not found".to_owned())
                }
            },
        }
    }
}

} // verus!
