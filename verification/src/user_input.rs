//! Validation of the configuration values the user types in: interval
//! count, interval lengths and the activity label. The prompt loop itself
//! reads lines outside the library and hands each trimmed line here; an
//! invalid line makes the prompt ask again.

use vstd::prelude::*;
use vstd::string::StrSliceExecFns;

verus! {

/// Whether `c` is a decimal digit.
pub open spec fn is_ascii_digit(c: char) -> bool {
    48 <= c as int <= 57
}

/// The numeric value of a digit character.
pub open spec fn digit_value(c: char) -> nat
    recommends
        is_ascii_digit(c),
{
    (c as int - 48) as nat
}

/// The number the digit string `s` denotes, read left to right.
pub open spec fn digits_value(s: Seq<char>) -> nat
    decreases s.len(),
{
    if s.len() == 0 {
        0
    } else {
        digits_value(s.drop_last()) * 10 + digit_value(s.last())
    }
}

pub open spec fn all_digits(s: Seq<char>) -> bool {
    forall|i: int| 0 <= i < s.len() ==> is_ascii_digit(#[trigger] s[i])
}

/// The digits of a number literal: everything after an optional leading
/// plus sign.
pub open spec fn spec_digit_part(line: Seq<char>) -> Seq<char> {
    if line.len() > 0 && line[0] == '+' {
        line.skip(1)
    } else {
        line
    }
}

/// A line denotes a count when, after the optional plus sign, it is one or
/// more digits and nothing else.
pub open spec fn spec_is_valid_count(line: Seq<char>) -> bool {
    spec_digit_part(line).len() > 0 && all_digits(spec_digit_part(line))
}

/// What parsing a trimmed line as a count yields: the denoted number when
/// the line is a valid count that fits the machine, nothing otherwise.
pub open spec fn spec_parse_count(line: Seq<char>) -> Option<usize> {
    if spec_is_valid_count(line) && digits_value(spec_digit_part(line)) <= usize::MAX {
        Some(digits_value(spec_digit_part(line)) as usize)
    } else {
        None
    }
}

/// The number a digit string denotes only grows as digits are appended, so
/// the value of any prefix is a lower bound for the value of the whole.
proof fn lemma_digits_value_prefix_le(s: Seq<char>, k: int)
    requires
        0 <= k <= s.len(),
    ensures
        digits_value(s.subrange(0, k)) <= digits_value(s),
    decreases s.len() - k,
{
    if k < s.len() {
        assert(s.subrange(0, k + 1).drop_last() =~= s.subrange(0, k));
        assert(digits_value(s.subrange(0, k + 1)) == digits_value(s.subrange(0, k)) * 10
            + digit_value(s.subrange(0, k + 1).last()));
        lemma_digits_value_prefix_le(s, k + 1);
    } else {
        assert(s.subrange(0, k) =~= s);
    }
}

/// Parses a trimmed input line as a non-negative count: an optional leading
/// plus sign followed by one or more decimal digits, whose value must fit
/// in `usize`. Anything else — an empty line, other characters, a value too
/// large — yields `None`.
pub fn parse_count(line: &str) -> (r: Option<usize>)
    ensures
        r == spec_parse_count(line@),
{
    let len = line.unicode_len();
    let mut start: usize = 0;
    if len > 0 && line.get_char(0) == '+' {
        start = 1;
    }
    if start == len {
        return None;
    }
    let ghost digits = spec_digit_part(line@);
    proof {
        assert(digits =~= line@.skip(start as int));
    }
    let mut acc: usize = 0;
    let mut i: usize = start;
    while i < len
        invariant
            start <= i <= len,
            len == line@.len(),
            start < len,
            digits == spec_digit_part(line@),
            digits =~= line@.skip(start as int),
            all_digits(digits.subrange(0, i - start)),
            acc == digits_value(digits.subrange(0, i - start)),
        decreases len - i,
    {
        let c = line.get_char(i);
        let code = c as u32;
        let ghost prefix = digits.subrange(0, i - start);
        let ghost extended = digits.subrange(0, i + 1 - start);
        proof {
            assert(digits[i - start] == line@[i as int]);
            assert(extended.drop_last() =~= prefix);
        }
        if code < 48 || code > 57 {
            proof {
                assert(!is_ascii_digit(digits[i - start]));
            }
            return None;
        }
        let digit = (code - 48) as usize;
        proof {
            assert(digits_value(extended) == digits_value(prefix) * 10 + digit_value(c));
        }
        let widened = match acc.checked_mul(10) {
            Some(v) => v,
            None => {
                proof {
                    lemma_digits_value_prefix_le(digits, i + 1 - start);
                }
                return None;
            },
        };
        let next = match widened.checked_add(digit) {
            Some(v) => v,
            None => {
                proof {
                    lemma_digits_value_prefix_le(digits, i + 1 - start);
                }
                return None;
            },
        };
        acc = next;
        i = i + 1;
    }
    proof {
        assert(digits.subrange(0, i - start) =~= digits);
    }
    Some(acc)
}

/// The number of work intervals the session should run, read from the
/// trimmed line the prompt collected.
pub fn get_num_intervals(line: &str) -> (r: Option<usize>)
    ensures
        r == spec_parse_count(line@),
{
    parse_count(line)
}

/// The length of each work interval in seconds, read from the trimmed line
/// the prompt collected.
pub fn get_work_interval_len(line: &str) -> (r: Option<u64>)
    ensures
        r == match spec_parse_count(line@) {
            Some(n) => Some(n as u64),
            None => None::<u64>,
        },
{
    match parse_count(line) {
        Some(n) => Some(n as u64),
        None => None,
    }
}

/// The length of each break interval in seconds, read from the trimmed line
/// the prompt collected; zero means no breaks.
pub fn get_break_interval_len(line: &str) -> (r: Option<u64>)
    ensures
        r == match spec_parse_count(line@) {
            Some(n) => Some(n as u64),
            None => None::<u64>,
        },
{
    match parse_count(line) {
        Some(n) => Some(n as u64),
        None => None,
    }
}

/// The activity the user plans to work on: any non-empty trimmed line is
/// accepted as it stands, an empty one is rejected so the prompt asks again.
pub fn get_planned_action(line: &str) -> (r: Option<String>)
    ensures
        line@.len() > 0 ==> (r matches Some(s) && s@ == line@),
        line@.len() == 0 ==> r is None,
{
    if line.unicode_len() == 0 {
        None
    } else {
        Some(line.to_owned())
    }
}

} // verus!
