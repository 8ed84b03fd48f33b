//! Plain text: splitting a time string into components, reading numerals,
//! comparing two texts.

use vstd::prelude::*;
use vstd::string::StrSliceExecFns;

verus! {

/// The characters that part the components of a time string.
pub open spec fn is_separator(c: char) -> bool {
    c == '-' || c == ' ' || c == ':'
}

/// The components of a text, read from left to right: a separator closes
/// the current component and opens an empty one, any other character is
/// added to the current one. A text with `k` separators has `k + 1`
/// components, some of which may be empty.
pub open spec fn split_components(s: Seq<char>) -> Seq<Seq<char>>
    decreases s.len(),
{
    if s.len() == 0 {
        seq![Seq::<char>::empty()]
    } else if is_separator(s.last()) {
        split_components(s.drop_last()).push(Seq::<char>::empty())
    } else {
        let before = split_components(s.drop_last());
        before.update(before.len() - 1, before.last().push(s.last()))
    }
}

/// The texts that a list of string slices holds.
pub open spec fn texts(parts: Seq<&str>) -> Seq<Seq<char>> {
    parts.map_values(|part: &str| part@)
}

/// Whether a character is one of the three separators.
pub fn separates(c: char) -> (yes: bool)
    ensures
        yes == is_separator(c),
{
    c == '-' || c == ' ' || c == ':'
}

/// The number of separators in a text.
pub open spec fn count_separators(s: Seq<char>) -> nat
    decreases s.len(),
{
    if s.len() == 0 {
        0
    } else if is_separator(s.last()) {
        count_separators(s.drop_last()) + 1
    } else {
        count_separators(s.drop_last())
    }
}

/// A text has one component more than it has separators, and no
/// component holds a separator.
pub proof fn lemma_split_shape(s: Seq<char>)
    ensures
        split_components(s).len() == count_separators(s) + 1,
        forall|i: int, j: int|
            0 <= i < split_components(s).len() && 0 <= j < split_components(s)[i].len()
                ==> !is_separator(#[trigger] split_components(s)[i][j]),
    decreases s.len(),
{
    if s.len() > 0 {
        lemma_split_shape(s.drop_last());
        let before = split_components(s.drop_last());
        let parts = split_components(s);
        assert forall|i: int, j: int| 0 <= i < parts.len() && 0 <= j < parts[i].len() implies {
            !is_separator(#[trigger] parts[i][j])
        } by {
            if is_separator(s.last()) {
                assert(parts[i] == before[i]);
            } else if i < before.len() - 1 {
                assert(parts[i] == before[i]);
            } else if j < before.last().len() {
                assert(parts[i][j] == before[i][j]);
            }
        }
    }
}

/// Splits a time string at every `-`, space and `:`.
pub fn split_time(time: &str) -> (parts: Vec<&str>)
    ensures
        texts(parts@) == split_components(time@),
{
    let n: usize = time.unicode_len();
    let mut parts: Vec<&str> = Vec::new();
    let mut start: usize = 0;
    let mut i: usize = 0;
    assert(time@.subrange(0, 0) =~= Seq::<char>::empty());
    while i < n
        invariant
            n == time@.len(),
            start <= i <= n,
            split_components(time@.subrange(0, i as int)).len() == parts@.len() + 1,
            forall|k: int|
                0 <= k < parts@.len() ==> (#[trigger] parts@[k])@ == split_components(
                    time@.subrange(0, i as int),
                )[k],
            split_components(time@.subrange(0, i as int)).last() == time@.subrange(
                start as int,
                i as int,
            ),
        decreases n - i,
    {
        let c: char = time.get_char(i);
        let ghost before = time@.subrange(0, i as int);
        let ghost upto = time@.subrange(0, i as int + 1);
        assert(upto.drop_last() =~= before);
        assert(upto.last() == c);
        if separates(c) {
            let piece: &str = time.substring_char(start, i);
            parts.push(piece);
            start = i + 1;
            assert(time@.subrange(start as int, start as int) =~= Seq::<char>::empty());
        } else {
            assert(time@.subrange(start as int, i as int + 1) =~= time@.subrange(
                start as int,
                i as int,
            ).push(c));
        }
        i = i + 1;
    }
    assert(time@.subrange(0, n as int) =~= time@);
    let piece: &str = time.substring_char(start, n);
    parts.push(piece);
    assert(texts(parts@) =~= split_components(time@));
    parts
}

/// Whether two texts hold the same characters.
pub fn text_eq(a: &str, b: &str) -> (same: bool)
    ensures
        same == (a@ == b@),
{
    let n: usize = a.unicode_len();
    if b.unicode_len() != n {
        return false;
    }
    let mut i: usize = 0;
    while i < n
        invariant
            n == a@.len(),
            n == b@.len(),
            i <= n,
            forall|k: int| 0 <= k < i ==> a@[k] == b@[k],
        decreases n - i,
    {
        if a.get_char(i) != b.get_char(i) {
            return false;
        }
        i = i + 1;
    }
    assert(a@ =~= b@);
    true
}

/// The value of a character as a digit: `0` to `9`, then the letters of
/// either case from ten on. Other characters are no digits.
pub open spec fn digit_of(c: char) -> Option<nat> {
    if '0' <= c <= '9' {
        Some((c as nat - '0' as nat) as nat)
    } else if 'a' <= c <= 'z' {
        Some((c as nat - 'a' as nat + 10) as nat)
    } else if 'A' <= c <= 'Z' {
        Some((c as nat - 'A' as nat + 10) as nat)
    } else {
        None
    }
}

/// Whether every character is a digit below the radix.
pub open spec fn all_digits(s: Seq<char>, radix: nat) -> bool {
    forall|i: int| 0 <= i < s.len() ==> digit_below(#[trigger] s[i], radix)
}

/// Whether a character is a digit below the radix.
pub open spec fn digit_below(c: char, radix: nat) -> bool {
    digit_of(c) is Some && digit_of(c)->0 < radix
}

/// The number that a text of digits denotes in a radix, most significant
/// digit first.
pub open spec fn numeral_value(s: Seq<char>, radix: nat) -> nat
    decreases s.len(),
{
    if s.len() == 0 {
        0
    } else {
        numeral_value(s.drop_last(), radix) * radix + digit_of(s.last()).unwrap_or(0)
    }
}

/// What a text reads as: a number, if the text is one or more digits of
/// the radix and the number is at most the limit. A sign, a blank or an
/// empty text is no numeral.
pub open spec fn numeral(s: Seq<char>, radix: nat, limit: nat) -> Option<nat> {
    if s.len() > 0 && all_digits(s, radix) && numeral_value(s, radix) <= limit {
        Some(numeral_value(s, radix))
    } else {
        None
    }
}

/// A longer text of digits denotes no less than its beginning.
pub proof fn lemma_numeral_grows(s: Seq<char>, radix: nat, i: int)
    requires
        0 <= i <= s.len(),
        radix >= 1,
    ensures
        numeral_value(s.subrange(0, i), radix) <= numeral_value(s, radix),
    decreases s.len(),
{
    if i == s.len() {
        assert(s.subrange(0, i) =~= s);
    } else {
        lemma_numeral_grows(s.drop_last(), radix, i);
        assert(s.drop_last().subrange(0, i) =~= s.subrange(0, i));
        let v = numeral_value(s.drop_last(), radix);
        assert(v * radix >= v) by (nonlinear_arith)
            requires
                radix >= 1,
                v >= 0,
        ;
    }
}

/// The digit that a character stands for, if any.
pub fn digit(c: char) -> (d: Option<u64>)
    ensures
        d is Some <==> digit_of(c) is Some,
        d is Some ==> d->0 == digit_of(c)->0,
        d is Some ==> d->0 < 36,
{
    let code: u32 = c as u32;
    if 48 <= code && code <= 57 {
        Some((code - 48) as u64)
    } else if 97 <= code && code <= 122 {
        Some((code - 97 + 10) as u64)
    } else if 65 <= code && code <= 90 {
        Some((code - 65 + 10) as u64)
    } else {
        None
    }
}

/// What a text reads as from a position on: the numeral that its
/// characters from there to the end are, if the position is in the text
/// and they are one.
pub open spec fn numeral_from(s: Seq<char>, from: int, radix: nat, limit: nat) -> Option<nat> {
    if 0 <= from <= s.len() {
        numeral(s.subrange(from, s.len() as int), radix, limit)
    } else {
        None
    }
}

/// Reads the characters of `text` from `from` on as a numeral in `radix`,
/// of a value up to `limit`.
pub fn read_numeral(text: &str, from: usize, radix: u64, limit: u64) -> (value: Option<u64>)
    requires
        2 <= radix <= 36,
    ensures
        value is Some <==> numeral_from(text@, from as int, radix as nat, limit as nat) is Some,
        value is Some ==> value->0 == numeral_from(
            text@,
            from as int,
            radix as nat,
            limit as nat,
        )->0,
{
    let n: usize = text.unicode_len();
    if from >= n {
        return None;
    }
    let ghost s = text@.subrange(from as int, n as int);
    let mut acc: u64 = 0;
    let mut i: usize = from;
    assert(s.subrange(0, 0) =~= Seq::<char>::empty());
    while i < n
        invariant
            n == text@.len(),
            from <= i <= n,
            s == text@.subrange(from as int, n as int),
            2 <= radix <= 36,
            acc <= limit,
            acc == numeral_value(s.subrange(0, i - from), radix as nat),
            all_digits(s.subrange(0, i - from), radix as nat),
        decreases n - i,
    {
        let c: char = text.get_char(i);
        let ghost before = s.subrange(0, i - from);
        let ghost upto = s.subrange(0, i - from + 1);
        assert(upto.drop_last() =~= before);
        assert(upto.last() == c);
        assert(s[i - from] == c);
        let d: Option<u64> = digit(c);
        match d {
            Some(d) => {
                if d >= radix {
                    assert(!digit_below(s[i - from], radix as nat));
                    return None;
                }
                assert(acc * radix <= u64::MAX * 36) by (nonlinear_arith)
                    requires
                        acc <= u64::MAX,
                        radix <= 36,
                ;
                let next: u128 = (acc as u128) * (radix as u128) + (d as u128);
                assert(next == numeral_value(upto, radix as nat));
                if next > limit as u128 {
                    proof {
                        lemma_numeral_grows(s, radix as nat, i - from + 1);
                    }
                    return None;
                }
                acc = next as u64;
                assert forall|k: int| 0 <= k < upto.len() implies digit_below(
                    #[trigger] upto[k],
                    radix as nat,
                ) by {
                    if k < before.len() {
                        assert(upto[k] == before[k]);
                    }
                }
            },
            None => {
                assert(!digit_below(s[i - from], radix as nat));
                return None;
            },
        }
        i = i + 1;
    }
    assert(s.subrange(0, n - from) =~= s);
    Some(acc)
}

} // verus!
