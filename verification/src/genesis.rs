//! The genesis block: the one instant that every query is measured from.

use vstd::prelude::*;
use crate::calendar::WallClock;

verus! {

/// The unix time of block 0: 2015-07-30 15:26:13 UTC.
pub const GENESIS_UNIX: u64 = 1438269973;

/// The seconds that one block is taken to last when a timestamp is
/// predicted.
pub const AVERAGE_BLOCK_SECONDS: u64 = 12;

/// The wall-clock fields of the genesis instant in UTC.
pub open spec fn genesis_utc() -> WallClock {
    WallClock { year: 2015, month: 7, day: 30, hour: 15, minute: 26, second: 13 }
}

/// The wall-clock fields of the genesis instant in UTC.
pub fn genesis_clock() -> (clock: WallClock)
    ensures
        clock == genesis_utc(),
        clock.valid(),
{
    WallClock { year: 2015, month: 7, day: 30, hour: 15, minute: 26, second: 13 }
}

/// The genesis fields as a time string writes them, each padded with
/// zeros to its width.
pub open spec fn genesis_texts() -> Seq<Seq<char>> {
    seq!["2015"@, "07"@, "30"@, "15"@, "26"@, "13"@]
}

/// The text of one genesis field, counted from the year.
pub fn genesis_text(index: usize) -> (text: &'static str)
    requires
        index < 6,
    ensures
        text@ == genesis_texts()[index as int],
{
    if index == 0 {
        "2015"
    } else if index == 1 {
        "07"
    } else if index == 2 {
        "30"
    } else if index == 3 {
        "15"
    } else if index == 4 {
        "26"
    } else {
        "13"
    }
}

} // verus!
