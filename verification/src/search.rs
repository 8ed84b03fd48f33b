//! The block search: the first block at or after an instant.
//!
//! The search asks for the head, has the oracle estimate the head's time,
//! and refuses an instant after it. Then it halves the interval of heights
//! from block 0 to the head until a block has exactly the instant asked
//! for or the interval is empty. Every probe is an estimate of the oracle,
//! which asks for the head anew each time.

use vstd::prelude::*;
use crate::chain::{answers, estimate, head_of, monotone, served, RecordedChain, Request};
use crate::error::Error;
use crate::oracle::{in_range, OracleState, OracleStep};

verus! {

/// A search under way.
#[derive(Debug, Clone, Copy, PartialEq, Eq, Structural)]
pub enum SearchState {
    /// The head has been asked for.
    Locating { target: u64 },
    /// The head is known, and the oracle estimates its time.
    Checking { target: u64, head: u64, oracle: OracleState },
    /// The answer lies at `lower`, at `upper + 1` or in between, and the
    /// oracle estimates the time of the block in the middle.
    Probing { target: u64, lower: u64, upper: u64, oracle: OracleState },
}

/// What the search does next.
#[derive(Debug, PartialEq, Eq)]
pub enum SearchStep {
    /// Put the state's pending request to the node and come back with the
    /// answer.
    Ask(SearchState),
    /// The block found, or the failure that ended the search.
    Done(Result<u64, Error>),
}

/// The height in the middle of an interval, the lower one of two.
pub open spec fn midpoint(lower: int, upper: int) -> int {
    lower + (upper - lower) / 2
}

/// The state that probes the middle of an interval.
pub open spec fn probing(target: u64, lower: u64, upper: u64) -> SearchState {
    SearchState::Probing {
        target,
        lower,
        upper,
        oracle: OracleState::AwaitingHead { height: midpoint(lower as int, upper as int) as u64 },
    }
}

/// A height as the search returns it. A height past the last one that 64
/// bits can hold stands for no block: the instant is in the future.
pub open spec fn found(height: int) -> Result<u64, Error> {
    if height <= u64::MAX {
        Ok(height as u64)
    } else {
        Err(Error::TimeInFuture)
    }
}

impl SearchState {
    /// The request whose answer the state waits for.
    pub open spec fn pending(self) -> Request {
        match self {
            SearchState::Locating { .. } => Request::Head,
            SearchState::Checking { oracle, .. } => oracle.pending(),
            SearchState::Probing { oracle, .. } => oracle.pending(),
        }
    }

    /// Whether the state is one that a search passes through: the oracle
    /// estimates the head while the head is checked, and the middle of a
    /// non-empty interval while the search probes.
    pub open spec fn wf(self) -> bool {
        match self {
            SearchState::Locating { .. } => true,
            SearchState::Checking { head, oracle, .. } => oracle.height() == head,
            SearchState::Probing { lower, upper, oracle, .. } => {
                &&& lower <= upper
                &&& oracle.height() == midpoint(lower as int, upper as int)
            },
        }
    }

    /// A bound on the number of answers that the search still needs. It
    /// falls with every step of a well-formed search.
    pub open spec fn remaining(self) -> nat {
        match self {
            SearchState::Locating { .. } => (2 * u64::MAX + 6) as nat,
            SearchState::Checking { oracle, .. } => (2 * u64::MAX + 3) as nat + oracle.remaining(),
            SearchState::Probing { lower, upper, oracle, .. } => if lower <= upper {
                (2 * (upper - lower)) as nat + oracle.remaining()
            } else {
                0
            },
        }
    }

    /// Whether the state can have come about in a search that found these
    /// blocks when it asked for the head, on a chain that may have grown
    /// since.
    pub open spec fn fits(self, stamps: Seq<u64>) -> bool {
        &&& 1 <= stamps.len() <= u64::MAX
        &&& self.wf()
        &&& match self {
            SearchState::Locating { .. } => true,
            SearchState::Checking { head, oracle, .. } => head == head_of(stamps)
                && oracle.within(stamps),
            SearchState::Probing { upper, oracle, .. } => upper <= head_of(stamps)
                && oracle.within(stamps),
        }
    }

    /// What a search in this state ends with where every answer is
    /// truthful.
    pub open spec fn outcome_on(self, stamps: Seq<u64>) -> Result<u64, Error> {
        match self {
            SearchState::Locating { target } => find_block(stamps, target),
            SearchState::Checking { target, .. } => find_block(stamps, target),
            SearchState::Probing { target, lower, upper, .. } => found(
                probe(stamps, target, lower as int, upper as int),
            ),
        }
    }

    /// The request to put to the node.
    pub fn request(&self) -> (request: Request)
        ensures
            request == self.pending(),
    {
        match self {
            SearchState::Locating { .. } => Request::Head,
            SearchState::Checking { oracle, .. } => oracle.request(),
            SearchState::Probing { oracle, .. } => oracle.request(),
        }
    }
}

/// The height at which halving the interval from `lower` to `upper` ends:
/// the block in the middle where it has exactly the instant asked for,
/// else what the upper half gives where the middle is earlier, the lower
/// half where it is later, and `lower` once the interval is empty.
pub open spec fn probe(stamps: Seq<u64>, target: u64, lower: int, upper: int) -> int
    decreases upper - lower + 1,
{
    if lower > upper {
        lower
    } else {
        let mid = midpoint(lower, upper);
        if estimate(stamps, mid) == target {
            mid
        } else if estimate(stamps, mid) < target {
            probe(stamps, target, mid + 1, upper)
        } else {
            probe(stamps, target, lower, mid - 1)
        }
    }
}

/// The block that the search finds on a chain: none for an instant after
/// the head's time (`TimeInFuture`), else where halving the interval from
/// block 0 to the head ends.
pub open spec fn find_block(stamps: Seq<u64>, target: u64) -> Result<u64, Error> {
    if target > estimate(stamps, head_of(stamps)) {
        Err(Error::TimeInFuture)
    } else {
        Ok(probe(stamps, target, 0, head_of(stamps)) as u64)
    }
}

/// The step that follows a probe in the middle of the interval, given the
/// time `at` of the block `mid`.
pub open spec fn narrowed(target: u64, lower: u64, upper: u64, mid: u64, at: u64) -> SearchStep {
    if at == target {
        SearchStep::Done(Ok(mid))
    } else if at < target {
        if mid >= upper {
            SearchStep::Done(found(mid + 1))
        } else {
            SearchStep::Ask(probing(target, (mid + 1) as u64, upper))
        }
    } else {
        if mid <= lower {
            SearchStep::Done(Ok(lower))
        } else {
            SearchStep::Ask(probing(target, lower, (mid - 1) as u64))
        }
    }
}

/// The step that follows a state and the answer to its request.
pub open spec fn advanced(state: SearchState, reply: Result<u64, String>) -> SearchStep {
    match state {
        SearchState::Locating { target } => match reply {
            Err(cause) => SearchStep::Done(Err(Error::Rpc(cause))),
            Ok(head) => SearchStep::Ask(
                SearchState::Checking {
                    target,
                    head,
                    oracle: OracleState::AwaitingHead { height: head },
                },
            ),
        },
        SearchState::Checking { target, head, oracle } => match crate::oracle::advanced(
            oracle,
            reply,
        ) {
            OracleStep::Ask(next) => SearchStep::Ask(
                SearchState::Checking { target, head, oracle: next },
            ),
            OracleStep::Done(Err(e)) => SearchStep::Done(Err(e)),
            OracleStep::Done(Ok(at)) => if target > at {
                SearchStep::Done(Err(Error::TimeInFuture))
            } else {
                SearchStep::Ask(probing(target, 0, head))
            },
        },
        SearchState::Probing { target, lower, upper, oracle } => match crate::oracle::advanced(
            oracle,
            reply,
        ) {
            OracleStep::Ask(next) => SearchStep::Ask(
                SearchState::Probing { target, lower, upper, oracle: next },
            ),
            OracleStep::Done(Err(e)) => SearchStep::Done(Err(e)),
            OracleStep::Done(Ok(at)) => narrowed(target, lower, upper, oracle.height(), at),
        },
    }
}

/// Begins the search for the first block at or after an instant: the head
/// is asked for first.
pub fn start(target: u64) -> (state: SearchState)
    ensures
        state == (SearchState::Locating { target }),
        state.wf(),
{
    SearchState::Locating { target }
}

/// The state that probes the middle of a non-empty interval.
fn probe_middle(target: u64, lower: u64, upper: u64) -> (state: SearchState)
    requires
        lower <= upper,
    ensures
        state == probing(target, lower, upper),
        state.wf(),
{
    let mid: u64 = lower + (upper - lower) / 2;
    SearchState::Probing { target, lower, upper, oracle: crate::oracle::start(mid) }
}

/// Compares the time of the block in the middle with the instant asked
/// for, and ends the search or halves the interval.
pub fn narrow(target: u64, lower: u64, upper: u64, mid: u64, at: u64) -> (step: SearchStep)
    ensures
        step == narrowed(target, lower, upper, mid, at),
        step matches SearchStep::Ask(next) ==> next.wf(),
{
    if at == target {
        SearchStep::Done(Ok(mid))
    } else if at < target {
        if mid >= upper {
            if mid == u64::MAX {
                SearchStep::Done(Err(Error::TimeInFuture))
            } else {
                SearchStep::Done(Ok(mid + 1))
            }
        } else {
            SearchStep::Ask(probe_middle(target, mid + 1, upper))
        }
    } else {
        if mid <= lower {
            SearchStep::Done(Ok(lower))
        } else {
            SearchStep::Ask(probe_middle(target, lower, mid - 1))
        }
    }
}

/// Takes the answer to the state's request and says what comes next.
///
/// A failure of the node or of the oracle ends the search with that
/// failure. An instant after the head's time ends it with `TimeInFuture`.
/// A block with exactly the instant asked for ends it with that block; an
/// interval that has become empty ends it with its lower bound.
pub fn advance(state: SearchState, reply: Result<u64, String>) -> (step: SearchStep)
    ensures
        step == advanced(state, reply),
        state.wf() ==> (step matches SearchStep::Ask(next) ==> next.wf()),
{
    match state {
        SearchState::Locating { target } => match reply {
            Err(cause) => SearchStep::Done(Err(Error::Rpc(cause))),
            Ok(head) => SearchStep::Ask(
                SearchState::Checking { target, head, oracle: crate::oracle::start(head) },
            ),
        },
        SearchState::Checking { target, head, oracle } => match crate::oracle::advance(
            oracle,
            reply,
        ) {
            OracleStep::Ask(next) => SearchStep::Ask(
                SearchState::Checking { target, head, oracle: next },
            ),
            OracleStep::Done(Err(e)) => SearchStep::Done(Err(e)),
            OracleStep::Done(Ok(at)) => if target > at {
                SearchStep::Done(Err(Error::TimeInFuture))
            } else {
                SearchStep::Ask(probe_middle(target, 0, head))
            },
        },
        SearchState::Probing { target, lower, upper, oracle } => match crate::oracle::advance(
            oracle,
            reply,
        ) {
            OracleStep::Ask(next) => SearchStep::Ask(
                SearchState::Probing { target, lower, upper, oracle: next },
            ),
            OracleStep::Done(Err(e)) => SearchStep::Done(Err(e)),
            OracleStep::Done(Ok(at)) => narrow(target, lower, upper, oracle.block(), at),
        },
    }
}

/// Halving ends inside the interval or just above it, and just above it
/// only where the block at the upper end is earlier than the instant.
pub proof fn lemma_probe_bounds(stamps: Seq<u64>, target: u64, lower: int, upper: int)
    requires
        lower <= upper + 1,
    ensures
        lower <= probe(stamps, target, lower, upper) <= upper + 1,
        lower <= upper && probe(stamps, target, lower, upper) == upper + 1 ==> estimate(
            stamps,
            upper,
        ) < target,
    decreases upper - lower + 1,
{
    if lower <= upper {
        let mid = midpoint(lower, upper);
        if estimate(stamps, mid) == target {
        } else if estimate(stamps, mid) < target {
            lemma_probe_bounds(stamps, target, mid + 1, upper);
        } else {
            lemma_probe_bounds(stamps, target, lower, mid - 1);
        }
    }
}

/// Each truthful answer takes the search one step nearer to its end
/// without changing what it will end with, and the step that ends it gives
/// exactly that. The chain may grow while the search runs: the search asks
/// for the head before every probe, and what it finds depends only on the
/// blocks up to the head that it found first. So a caller that puts each
/// request to a truthful node gets `find_block` of those blocks.
pub proof fn lemma_advance_on_chain(stamps: Seq<u64>, state: SearchState, value: u64)
    requires
        state.fits(stamps),
        state is Locating ==> value == head_of(stamps),
        answers(stamps, state.pending(), value),
    ensures
        match advanced(state, Ok(value)) {
            SearchStep::Ask(next) => {
                &&& next.fits(stamps)
                &&& next.outcome_on(stamps) == state.outcome_on(stamps)
                &&& next.remaining() < state.remaining()
            },
            SearchStep::Done(end) => end == state.outcome_on(stamps),
        },
{
    match state {
        SearchState::Locating { .. } => {},
        SearchState::Checking { target, head, oracle } => {
            crate::oracle::lemma_advance_on_grown_chain(stamps, oracle, value);
            lemma_probe_bounds(stamps, target, 0, head as int);
        },
        SearchState::Probing { target, lower, upper, oracle } => {
            crate::oracle::lemma_advance_on_grown_chain(stamps, oracle, value);
            reveal_with_fuel(probe, 3);
            let mid = midpoint(lower as int, upper as int);
            if mid + 1 <= upper {
                lemma_probe_bounds(stamps, target, mid + 1, upper as int);
            }
            if lower <= mid - 1 {
                lemma_probe_bounds(stamps, target, lower as int, mid - 1);
            }
        },
    }
}

/// The request of a state can be answered by every chain that the state
/// fits: the search never asks for a block past the head.
pub proof fn lemma_request_served(stamps: Seq<u64>, state: SearchState)
    requires
        state.fits(stamps),
    ensures
        served(stamps, state.pending()) is Some,
{
}

/// The first block of a recorded chain at or after an instant, found by
/// the search as it would run against a node with exactly these blocks.
/// It fails with `TimeInFuture` for an instant after the head's time, and
/// in no other case.
pub fn block_search(chain: &RecordedChain, unix_time: u64) -> (block: Result<u64, Error>)
    ensures
        block == find_block(chain@, unix_time),
{
    proof {
        use_type_invariant(chain);
    }
    let mut state: SearchState = start(unix_time);
    loop
        invariant
            state.fits(chain@),
            state.outcome_on(chain@) == find_block(chain@, unix_time),
        decreases state.remaining(),
    {
        let reply: Result<u64, String> = chain.answer(state.request());
        proof {
            lemma_request_served(chain@, state);
            lemma_advance_on_chain(chain@, state, reply->Ok_0);
        }
        match advance(state, reply) {
            SearchStep::Ask(next) => {
                state = next;
            },
            SearchStep::Done(end) => {
                return end;
            },
        }
    }
}

/// On a chain whose timestamps never decrease: where every block below
/// the interval is earlier than the instant and every block above it is
/// later, halving ends at a block with exactly the instant, or at the
/// height that parts the earlier blocks from the later ones.
pub proof fn lemma_probe_brackets(stamps: Seq<u64>, target: u64, lower: int, upper: int)
    requires
        monotone(stamps),
        0 <= lower <= upper + 1 <= stamps.len(),
        forall|j: int| 0 <= j < lower ==> stamps[j] < target,
        forall|j: int| upper < j < stamps.len() ==> stamps[j] > target,
    ensures
        ({
            let at = probe(stamps, target, lower, upper);
            ||| 0 <= at < stamps.len() && stamps[at] == target
            ||| {
                &&& 0 <= at <= stamps.len()
                &&& forall|j: int| 0 <= j < at ==> stamps[j] < target
                &&& forall|j: int| at <= j < stamps.len() ==> stamps[j] > target
            }
        }),
    decreases upper - lower + 1,
{
    if lower <= upper {
        let mid = midpoint(lower, upper);
        if estimate(stamps, mid) == target {
        } else if estimate(stamps, mid) < target {
            assert forall|j: int| 0 <= j < mid + 1 implies stamps[j] < target by {
                assert(stamps[j] <= stamps[mid]);
            }
            lemma_probe_brackets(stamps, target, mid + 1, upper);
        } else {
            assert forall|j: int| mid - 1 < j < stamps.len() implies stamps[j] > target by {
                assert(stamps[mid] <= stamps[j]);
            }
            lemma_probe_brackets(stamps, target, lower, mid - 1);
        }
    }
}

/// An instant after the head's time is refused with `TimeInFuture`; any
/// other instant gets a block.
pub proof fn lemma_future_refused(stamps: Seq<u64>, target: u64)
    requires
        stamps.len() >= 1,
    ensures
        target > estimate(stamps, head_of(stamps)) <==> find_block(stamps, target) == Err::<
            u64,
            Error,
        >(Error::TimeInFuture),
        target <= estimate(stamps, head_of(stamps)) <==> find_block(stamps, target) is Ok,
{
}

/// On a chain whose timestamps never decrease, the block found for an
/// instant up to the head's time exists and is at or after the instant;
/// no block below it is after the instant; and unless the block found has
/// exactly the instant, every block below it is before the instant, so
/// that it is the first at or after.
pub proof fn lemma_search_finds(stamps: Seq<u64>, target: u64)
    requires
        1 <= stamps.len() <= u64::MAX,
        monotone(stamps),
        target <= estimate(stamps, head_of(stamps)),
    ensures
        find_block(stamps, target) is Ok,
        ({
            let block = find_block(stamps, target)->Ok_0 as int;
            &&& 0 <= block <= head_of(stamps)
            &&& estimate(stamps, block) >= target
            &&& forall|j: int| 0 <= j < block ==> estimate(stamps, j) <= target
            &&& estimate(stamps, block) != target ==> forall|j: int|
                0 <= j < block ==> estimate(stamps, j) < target
        }),
{
    let head = head_of(stamps);
    lemma_probe_brackets(stamps, target, 0, head);
    lemma_probe_bounds(stamps, target, 0, head);
    let at = probe(stamps, target, 0, head);
    if at < stamps.len() && stamps[at] == target {
        assert forall|j: int| 0 <= j < at implies estimate(stamps, j) <= target by {
            assert(stamps[j] <= stamps[at]);
        }
    } else {
        if at == stamps.len() {
            assert(stamps[head] < target);
        }
    }
}

/// Searching for the time of a block that exists, on a chain whose
/// timestamps never decrease: the block found is at or after that time,
/// and the block below it, if there is one, is not after that time. Where
/// no other block has the same timestamp, the block found is the block
/// itself, and the block below it is strictly earlier.
pub proof fn lemma_first_at_or_after(stamps: Seq<u64>, height: int)
    requires
        1 <= stamps.len() <= u64::MAX,
        monotone(stamps),
        0 <= height <= head_of(stamps),
    ensures
        find_block(stamps, stamps[height]) is Ok,
        ({
            let block = find_block(stamps, stamps[height])->Ok_0 as int;
            &&& 0 <= block <= head_of(stamps)
            &&& estimate(stamps, block) >= estimate(stamps, height)
            &&& block > 0 ==> estimate(stamps, block - 1) <= estimate(stamps, height)
            &&& (forall|j: int| 0 <= j < stamps.len() && j != height ==> stamps[j] != stamps[height])
                ==> block == height && (block > 0 ==> estimate(stamps, block - 1) < estimate(
                stamps,
                height,
            ))
        }),
{
    let target = stamps[height];
    assert(stamps[height] <= stamps[head_of(stamps)]);
    lemma_search_finds(stamps, target);
    lemma_round_trip(stamps, height);
    let block = find_block(stamps, target)->Ok_0 as int;
    if forall|j: int| 0 <= j < stamps.len() && j != height ==> stamps[j] != stamps[height] {
        assert(block == height);
        if block > 0 {
            assert(stamps[block - 1] <= stamps[block]);
        }
    }
}

/// Searching for the time of a block that exists, on a chain whose
/// timestamps never decrease, finds a block of exactly that time: the
/// time of the block found is the time searched for.
pub proof fn lemma_round_trip(stamps: Seq<u64>, height: int)
    requires
        1 <= stamps.len() <= u64::MAX,
        monotone(stamps),
        0 <= height <= head_of(stamps),
    ensures
        find_block(stamps, stamps[height]) is Ok,
        estimate(stamps, find_block(stamps, stamps[height])->Ok_0 as int) == estimate(
            stamps,
            height,
        ),
{
    let target = stamps[height];
    assert(stamps[height] <= stamps[head_of(stamps)]);
    lemma_search_finds(stamps, target);
    let block = find_block(stamps, target)->Ok_0 as int;
    if estimate(stamps, block) != target {
        if height < block {
            assert(estimate(stamps, height) < target);
        } else {
            assert(stamps[block] <= stamps[height]);
        }
    }
}

} // verus!
