//! Partial time strings: `YYYY[-MM[-DD[ hh[:mm[:ss]]]]]`.
//!
//! A time string gives one to six numbers, from the year down to the
//! second, and may stop after any of them. This module reads the numbers,
//! holds them to the calendar, fills in what is missing, and tells whether
//! what was given agrees with a reference time as far as it goes.

use vstd::prelude::*;
use crate::calendar::{days_in_month, month_length, WallClock, MAX_YEAR};
use crate::error::Error;
use crate::genesis::{genesis_text, genesis_texts, genesis_utc};
use crate::text::{
    all_digits, digit_below, numeral, numeral_value, read_numeral, split_components, split_time,
    text_eq, texts,
};

verus! {

/// Whether a list of numbers is a date and time cut off on the right: at
/// least a year, at most six fields, each in the range that the calendar
/// gives it.
pub open spec fn valid_partial(f: Seq<u32>) -> bool {
    &&& 1 <= f.len() <= 6
    &&& f[0] <= MAX_YEAR
    &&& f.len() > 1 ==> 1 <= f[1] <= 12
    &&& f.len() > 2 ==> 1 <= f[2] <= days_in_month(f[0] as int, f[1] as int)
    &&& f.len() > 3 ==> f[3] <= 23
    &&& f.len() > 4 ==> f[4] <= 59
    &&& f.len() > 5 ==> f[5] <= 59
}

/// Whether every component is a decimal numeral that fits 32 bits.
pub open spec fn all_numerals(parts: Seq<Seq<char>>) -> bool {
    forall|i: int| 0 <= i < parts.len() ==> numeral(#[trigger] parts[i], 10, u32::MAX as nat) is Some
}

/// The numbers that a list of components denotes.
pub open spec fn values_of(parts: Seq<Seq<char>>) -> Seq<u32> {
    Seq::new(parts.len(), |i: int| numeral(parts[i], 10, u32::MAX as nat).unwrap_or(0) as u32)
}

/// The fields that a time string gives, or `None` where the string is
/// malformed: a component that is no numeral, more than six components, or
/// a field out of its range.
pub open spec fn partial_of(time: Seq<char>) -> Option<Seq<u32>> {
    let parts = split_components(time);
    if all_numerals(parts) && valid_partial(values_of(parts)) {
        Some(values_of(parts))
    } else {
        None
    }
}

/// The fields with those that are missing set to their least value: the
/// first of the month, the first day, midnight.
pub open spec fn complete(f: Seq<u32>) -> WallClock {
    WallClock {
        year: f[0] as i32,
        month: if f.len() > 1 {
            f[1]
        } else {
            1
        },
        day: if f.len() > 2 {
            f[2]
        } else {
            1
        },
        hour: if f.len() > 3 {
            f[3]
        } else {
            0
        },
        minute: if f.len() > 4 {
            f[4]
        } else {
            0
        },
        second: if f.len() > 5 {
            f[5]
        } else {
            0
        },
    }
}

/// Whether the fields given agree with a reference, field by field, as far
/// as they go.
pub open spec fn is_start_of(partial: Seq<u32>, reference: Seq<int>) -> bool {
    &&& partial.len() <= reference.len()
    &&& forall|i: int| 0 <= i < partial.len() ==> partial[i] as int == reference[i]
}

/// The fields of a time string, known to be a valid partial time.
#[derive(Debug)]
pub struct PartialTime {
    fields: Vec<u32>,
}

impl PartialTime {
    #[verifier::type_invariant]
    spec fn wf(self) -> bool {
        valid_partial(self.fields@)
    }

    /// The fields that were given, from the year on.
    pub closed spec fn view(&self) -> Seq<u32> {
        self.fields@
    }

    /// Takes a list of fields if it is a valid partial time.
    pub fn from_fields(fields: Vec<u32>) -> (partial: Option<PartialTime>)
        ensures
            partial is Some <==> valid_partial(fields@),
            partial is Some ==> partial->0@ == fields@,
    {
        if is_valid_partial(&fields) {
            Some(PartialTime { fields })
        } else {
            None
        }
    }

    /// The fields that were given, from the year on.
    pub fn fields(&self) -> (fields: &Vec<u32>)
        ensures
            fields@ == self@,
            valid_partial(self@),
    {
        proof {
            use_type_invariant(self);
        }
        &self.fields
    }

    /// The full wall-clock time, with the least value for each missing
    /// field.
    pub fn completed(&self) -> (clock: WallClock)
        ensures
            clock == complete(self@),
            clock.valid(),
    {
        proof {
            use_type_invariant(self);
        }
        let n: usize = self.fields.len();
        WallClock {
            year: self.fields[0] as i32,
            month: if n > 1 {
                self.fields[1]
            } else {
                1
            },
            day: if n > 2 {
                self.fields[2]
            } else {
                1
            },
            hour: if n > 3 {
                self.fields[3]
            } else {
                0
            },
            minute: if n > 4 {
                self.fields[4]
            } else {
                0
            },
            second: if n > 5 {
                self.fields[5]
            } else {
                0
            },
        }
    }

    /// Whether the fields given agree with the reference as far as they
    /// go.
    pub fn starts(&self, reference: &WallClock) -> (agrees: bool)
        ensures
            agrees == is_start_of(self@, reference.fields()),
    {
        proof {
            use_type_invariant(self);
        }
        let n: usize = self.fields.len();
        let mut i: usize = 0;
        while i < n
            invariant
                n == self.fields@.len(),
                n <= 6,
                i <= n,
                forall|k: int| 0 <= k < i ==> self.fields@[k] as int == reference.fields()[k],
            decreases n - i,
        {
            if self.fields[i] as i64 != reference.field(i) {
                return false;
            }
            i = i + 1;
        }
        true
    }
}

/// Whether a list of numbers is a valid partial time.
pub fn is_valid_partial(fields: &Vec<u32>) -> (valid: bool)
    ensures
        valid == valid_partial(fields@),
{
    let n: usize = fields.len();
    if n < 1 || n > 6 {
        return false;
    }
    if fields[0] > MAX_YEAR {
        return false;
    }
    if n > 1 && (fields[1] < 1 || fields[1] > 12) {
        return false;
    }
    if n > 2 && (fields[2] < 1 || fields[2] > month_length(fields[0], fields[1])) {
        return false;
    }
    if n > 3 && fields[3] > 23 {
        return false;
    }
    if n > 4 && fields[4] > 59 {
        return false;
    }
    if n > 5 && fields[5] > 59 {
        return false;
    }
    true
}

/// Reads a time string. It fails with `MalformedTimeString` on every
/// string that does not give one to six numbers in range, and on no other.
pub fn parse_partial(time: &str) -> (partial: Result<PartialTime, Error>)
    ensures
        match partial {
            Ok(p) => partial_of(time@) == Some(p@),
            Err(e) => partial_of(time@) is None && e == Error::MalformedTimeString,
        },
{
    let parts: Vec<&str> = split_time(time);
    let ghost split = split_components(time@);
    let n: usize = parts.len();
    let mut fields: Vec<u32> = Vec::new();
    let mut i: usize = 0;
    while i < n
        invariant
            n == parts@.len(),
            split == split_components(time@),
            texts(parts@) == split,
            i <= n,
            fields@.len() == i,
            forall|k: int| 0 <= k < i ==> numeral(#[trigger] split[k], 10, u32::MAX as nat) is Some,
            forall|k: int| 0 <= k < i ==> fields@[k] == values_of(split)[k],
        decreases n - i,
    {
        let part: &str = parts[i];
        assert(split[i as int] == part@);
        assert(part@.subrange(0, part@.len() as int) =~= part@);
        match read_numeral(part, 0, 10, 0xffff_ffff) {
            Some(value) => {
                fields.push(value as u32);
            },
            None => {
                assert(numeral(split[i as int], 10, u32::MAX as nat) is None);
                return Err(Error::MalformedTimeString);
            },
        }
        i = i + 1;
    }
    assert(fields@ =~= values_of(split));
    match PartialTime::from_fields(fields) {
        Some(partial) => Ok(partial),
        None => Err(Error::MalformedTimeString),
    }
}

/// Whether a list of components is the genesis time in UTC cut off on the
/// right: one to six components, each the text of its genesis field.
pub open spec fn is_genesis_start(parts: Seq<Seq<char>>) -> bool {
    &&& 1 <= parts.len() <= 6
    &&& forall|i: int| 0 <= i < parts.len() ==> parts[i] == genesis_texts()[i]
}

/// Whether the components given can be the beginning of the genesis time
/// as UTC writes it: `2015`, `07`, `30`, `15`, `26`, `13`.
pub fn can_be_genesis(datetime: &Vec<&str>) -> (can: bool)
    ensures
        can == is_genesis_start(texts(datetime@)),
{
    let n: usize = datetime.len();
    if n < 1 || n > 6 {
        return false;
    }
    let mut i: usize = 0;
    while i < n
        invariant
            n == datetime@.len(),
            1 <= n <= 6,
            i <= n,
            forall|k: int| 0 <= k < i ==> texts(datetime@)[k] == genesis_texts()[k],
        decreases n - i,
    {
        if !text_eq(datetime[i], genesis_text(i)) {
            assert(texts(datetime@)[i as int] == datetime@[i as int]@);
            return false;
        }
        i = i + 1;
    }
    true
}

/// A text of two digits denotes ten times the first plus the second.
proof fn lemma_two_digits(s: Seq<char>, tens: nat, ones: nat)
    requires
        s.len() == 2,
        '0' <= s[0] <= '9',
        '0' <= s[1] <= '9',
        tens == s[0] as nat - '0' as nat,
        ones == s[1] as nat - '0' as nat,
    ensures
        numeral(s, 10, u32::MAX as nat) == Some(10 * tens + ones),
{
    reveal_with_fuel(numeral_value, 3);
    assert(s.drop_last().len() == 1);
    assert(s.drop_last().last() == s[0]);
    assert(s.drop_last().drop_last().len() == 0);
    assert(numeral_value(s, 10) == 10 * tens + ones);
    assert(digit_below(s[0], 10));
    assert(digit_below(s[1], 10));
    assert(all_digits(s, 10));
}

/// Each of the six genesis texts is the numeral of its genesis field.
pub proof fn lemma_genesis_texts_read(index: int)
    requires
        0 <= index < 6,
    ensures
        numeral(genesis_texts()[index], 10, u32::MAX as nat) == Some(
            genesis_utc().fields()[index] as nat,
        ),
{
    reveal_strlit("2015");
    reveal_strlit("07");
    reveal_strlit("30");
    reveal_strlit("15");
    reveal_strlit("26");
    reveal_strlit("13");
    if index == 0 {
        let s = "2015"@;
        reveal_with_fuel(numeral_value, 5);
        assert(s.drop_last().len() == 3);
        assert(s.drop_last().last() == '1');
        assert(s.drop_last().drop_last().len() == 2);
        assert(s.drop_last().drop_last().last() == '0');
        assert(s.drop_last().drop_last().drop_last().len() == 1);
        assert(s.drop_last().drop_last().drop_last().last() == '2');
        assert(s.drop_last().drop_last().drop_last().drop_last().len() == 0);
        assert(numeral_value(s, 10) == 2015);
        assert(digit_below(s[0], 10));
        assert(digit_below(s[1], 10));
        assert(digit_below(s[2], 10));
        assert(digit_below(s[3], 10));
        assert(all_digits(s, 10));
    } else if index == 1 {
        lemma_two_digits("07"@, 0, 7);
    } else if index == 2 {
        lemma_two_digits("30"@, 3, 0);
    } else if index == 3 {
        lemma_two_digits("15"@, 1, 5);
    } else if index == 4 {
        lemma_two_digits("26"@, 2, 6);
    } else {
        lemma_two_digits("13"@, 1, 3);
    }
}

/// What `can_be_genesis` accepts is a time string's worth of fields that
/// agree with the genesis instant in UTC as far as they go: the texts it
/// compares with and the fields of the genesis instant say the same.
pub proof fn lemma_genesis_start_reads_as_genesis(parts: Seq<Seq<char>>)
    requires
        is_genesis_start(parts),
    ensures
        all_numerals(parts),
        valid_partial(values_of(parts)),
        is_start_of(values_of(parts), genesis_utc().fields()),
{
    assert forall|i: int| 0 <= i < parts.len() implies numeral(
        #[trigger] parts[i],
        10,
        u32::MAX as nat,
    ) == Some(genesis_utc().fields()[i] as nat) by {
        lemma_genesis_texts_read(i);
    }
    let values = values_of(parts);
    assert forall|i: int| 0 <= i < values.len() implies values[i] as int
        == genesis_utc().fields()[i] by {
        assert(numeral(parts[i], 10, u32::MAX as nat) == Some(genesis_utc().fields()[i] as nat));
    }
    assert(values[0] == 2015);
    if values.len() > 1 {
        assert(values[1] == 7);
    }
    if values.len() > 2 {
        assert(values[2] == 30);
    }
    if values.len() > 3 {
        assert(values[3] == 15);
    }
    if values.len() > 4 {
        assert(values[4] == 26);
    }
    if values.len() > 5 {
        assert(values[5] == 13);
    }
}

} // verus!
