//! Helpers on text: comparing, trimming and searching it, and reading and
//! writing decimal numbers.

use vstd::prelude::*;
use vstd::string::StrSliceExecFns;
use vstd::utf8::{encode_utf8, encode_utf8_decode_utf8};

verus! {

/// Whether two texts hold the same characters.
pub fn same_text(a: &str, b: &str) -> (same: bool)
    ensures
        same == (a@ == b@),
{
    let left = a.as_bytes();
    let right = b.as_bytes();
    proof {
        encode_utf8_decode_utf8(a@);
        encode_utf8_decode_utf8(b@);
    }
    if left.len() != right.len() {
        return false;
    }
    let mut i: usize = 0;
    while i < left.len()
        invariant
            i <= left.len(),
            left.len() == right.len(),
            left@ == encode_utf8(a@),
            right@ == encode_utf8(b@),
            forall|j: int| 0 <= j < i ==> left@[j] == right@[j],
        decreases left.len() - i,
    {
        if left[i] != right[i] {
            return false;
        }
        i += 1;
    }
    assert(left@ =~= right@);
    true
}

/// The characters of a text, one by one.
pub fn chars_of(text: &str) -> (chars: Vec<char>)
    ensures
        chars@ == text@,
{
    let mut chars: Vec<char> = Vec::new();
    for c in it: text.chars()
        invariant
            chars@ == it.seq().take(it.index()),
            it.seq() == text@,
    {
        chars.push(c);
        assert(it.seq().take(it.index() + 1) =~= it.seq().take(it.index()).push(c));
    }
    assert(chars@ =~= text@);
    chars
}

/// Whether a character is white space, as `char::is_whitespace` tells:
/// whether it has Unicode's `White_Space` property.
pub uninterp spec fn is_white_space(c: char) -> bool;

/// `char::is_whitespace`. The result depends on the character alone.
#[verifier::external_body]
fn is_whitespace(c: char) -> (white: bool)
    ensures
        white == is_white_space(c),
{
    c.is_whitespace()
}

/// A text without the white space it begins with.
pub open spec fn trim_start(text: Seq<char>) -> Seq<char>
    decreases text.len(),
{
    if text.len() > 0 && is_white_space(text.first()) {
        trim_start(text.drop_first())
    } else {
        text
    }
}

/// A text without the white space it ends with.
pub open spec fn trim_end(text: Seq<char>) -> Seq<char>
    decreases text.len(),
{
    if text.len() > 0 && is_white_space(text.last()) {
        trim_end(text.drop_last())
    } else {
        text
    }
}

/// A text without the white space around it.
pub open spec fn trimmed(text: Seq<char>) -> Seq<char> {
    trim_end(trim_start(text))
}

/// The part of a text between the white space it begins with and the white
/// space it ends with.
pub fn trim(text: &str) -> (inner: &str)
    ensures
        inner@ == trimmed(text@),
{
    let chars = chars_of(text);
    let mut start: usize = 0;
    assert(text@.skip(0) =~= text@);
    while start < chars.len() && is_whitespace(chars[start])
        invariant
            start <= chars.len(),
            chars@ == text@,
            trim_start(text@) == trim_start(text@.skip(start as int)),
        decreases chars.len() - start,
    {
        assert(text@.skip(start as int).drop_first() =~= text@.skip(start + 1));
        start += 1;
    }
    let ghost begun = text@.skip(start as int);
    assert(trim_start(text@) == begun);
    let mut end: usize = chars.len();
    assert(text@.subrange(start as int, end as int) =~= begun);
    while end > start && is_whitespace(chars[end - 1])
        invariant
            start <= end <= chars.len(),
            chars@ == text@,
            trim_end(begun) == trim_end(text@.subrange(start as int, end as int)),
        decreases end,
    {
        assert(text@.subrange(start as int, end as int).drop_last() =~= text@.subrange(
            start as int,
            end - 1,
        ));
        end -= 1;
    }
    text.substring_char(start, end)
}

/// The character of a decimal digit.
pub open spec fn digit_char(digit: nat) -> char {
    (0x30 + digit) as u8 as char
}

/// A number written in decimal digits, without leading zeros.
pub open spec fn decimal(number: nat) -> Seq<char>
    decreases number,
{
    if number < 10 {
        seq![digit_char(number)]
    } else {
        decimal(number / 10).push(digit_char(number % 10))
    }
}

/// Writes a number in decimal digits.
pub fn decimal_digits(number: usize) -> (digits: Vec<char>)
    ensures
        digits@ == decimal(number as nat),
{
    let mut digits: Vec<char> = Vec::new();
    let mut rest = number;
    while rest >= 10
        invariant
            decimal(number as nat) == decimal(rest as nat) + digits@,
        decreases rest,
    {
        let low = (rest % 10) as u8;
        let ghost lower = digits@;
        digits.insert(0, (0x30 + low) as char);
        assert(decimal(rest as nat) + lower =~= decimal((rest / 10) as nat) + digits@) by {
            assert(digits@ =~= seq![digit_char((rest % 10) as nat)] + lower);
        }
        rest = rest / 10;
    }
    let low = rest as u8;
    let ghost lower = digits@;
    digits.insert(0, (0x30 + low) as char);
    assert(digits@ =~= decimal(rest as nat) + lower);
    digits
}

/// Whether `needle` stands in `haystack` at position `at`.
pub open spec fn occurs_at(needle: Seq<char>, haystack: Seq<char>, at: int) -> bool {
    &&& 0 <= at
    &&& at + needle.len() <= haystack.len()
    &&& haystack.subrange(at, at + needle.len()) == needle
}

/// Whether `needle` stands somewhere in `haystack` as one run of
/// characters. The empty text stands in every text.
pub open spec fn occurs_in(needle: Seq<char>, haystack: Seq<char>) -> bool {
    exists|at: int| occurs_at(needle, haystack, at)
}

/// Whether `needle` stands somewhere in `haystack` as one run of
/// characters.
pub fn contains_run(haystack: &Vec<char>, needle: &Vec<char>) -> (found: bool)
    ensures
        found == occurs_in(needle@, haystack@),
{
    if needle.len() > haystack.len() {
        assert(forall|at: int| !occurs_at(needle@, haystack@, at));
        return false;
    }
    let last = haystack.len() - needle.len();
    let mut at: usize = 0;
    while at <= last
        invariant
            at <= last + 1,
            last == haystack.len() - needle.len(),
            needle.len() <= haystack.len(),
            forall|earlier: int| 0 <= earlier < at ==> !occurs_at(needle@, haystack@, earlier),
        decreases last + 1 - at,
    {
        let mut matched: usize = 0;
        while matched < needle.len() && haystack[at + matched] == needle[matched]
            invariant
                at <= last,
                last == haystack.len() - needle.len(),
                needle.len() <= haystack.len(),
                matched <= needle.len(),
                forall|k: int| 0 <= k < matched ==> haystack@[at + k] == needle@[k],
            decreases needle.len() - matched,
        {
            matched += 1;
        }
        if matched == needle.len() {
            assert(haystack@.subrange(at as int, at + needle.len()) =~= needle@);
            assert(occurs_at(needle@, haystack@, at as int));
            return true;
        }
        assert(!occurs_at(needle@, haystack@, at as int)) by {
            if occurs_at(needle@, haystack@, at as int) {
                assert(haystack@.subrange(at as int, at + needle.len())[matched as int]
                    == needle@[matched as int]);
            }
        }
        at += 1;
    }
    assert(forall|other: int| !occurs_at(needle@, haystack@, other));
    false
}

/// Whether a text stands somewhere in the decimal digits of a number.
pub fn number_contains(number: usize, text: &str) -> (found: bool)
    ensures
        found == occurs_in(text@, decimal(number as nat)),
{
    let digits = decimal_digits(number);
    let needle = chars_of(text);
    contains_run(&digits, &needle)
}

/// Whether a character is one of the decimal digits `0` to `9`.
pub open spec fn is_digit(c: char) -> bool {
    '0' <= c <= '9'
}

/// The number that a decimal digit stands for.
pub open spec fn digit_value(c: char) -> nat {
    (c as u32 - 0x30) as nat
}

/// Whether a text holds decimal digits only.
pub open spec fn all_digits(digits: Seq<char>) -> bool {
    forall|i: int| 0 <= i < digits.len() ==> is_digit(#[trigger] digits[i])
}

/// The number that a run of decimal digits stands for; zero for the empty
/// run.
pub open spec fn digits_value(digits: Seq<char>) -> nat
    decreases digits.len(),
{
    if digits.len() == 0 {
        0
    } else {
        10 * digits_value(digits.drop_last()) + digit_value(digits.last())
    }
}

/// A text without the plus sign it may begin with.
pub open spec fn unsigned_part(text: Seq<char>) -> Seq<char> {
    if text.len() > 0 && text.first() == '+' {
        text.drop_first()
    } else {
        text
    }
}

/// The number that a text stands for: one or more decimal digits, with or
/// without a plus sign before them. Any other text stands for no number.
pub open spec fn parsed_number(text: Seq<char>) -> Option<nat> {
    let digits = unsigned_part(text);
    if digits.len() > 0 && all_digits(digits) {
        Some(digits_value(digits))
    } else {
        None
    }
}

/// A run of digits stands for at least as much as any run it begins with.
pub proof fn lemma_digits_value_grows(digits: Seq<char>, shorter: int)
    requires
        0 <= shorter <= digits.len(),
    ensures
        digits_value(digits.take(shorter)) <= digits_value(digits),
    decreases digits.len(),
{
    if shorter == digits.len() {
        assert(digits.take(shorter) =~= digits);
    } else {
        lemma_digits_value_grows(digits.drop_last(), shorter);
        assert(digits.drop_last().take(shorter) =~= digits.take(shorter));
    }
}

/// Reads a position from a text as `str::parse::<usize>` reads it: decimal
/// digits, with or without a plus sign before them. There is no position
/// in any other text, nor in digits that stand for more than `usize::MAX`.
pub fn parse_index(text: &str) -> (index: Option<usize>)
    ensures
        match index {
            Some(position) => parsed_number(text@) == Some(position as nat),
            None => match parsed_number(text@) {
                Some(number) => number > usize::MAX,
                None => true,
            },
        },
{
    let chars = chars_of(text);
    let first: usize = if chars.len() > 0 && chars[0] == '+' {
        1
    } else {
        0
    };
    let ghost digits = unsigned_part(text@);
    assert(digits =~= text@.skip(first as int));
    if first == chars.len() {
        return None;
    }
    let mut value: usize = 0;
    let mut i: usize = first;
    assert(digits.take(0) =~= Seq::empty());
    while i < chars.len()
        invariant
            first <= i <= chars.len(),
            chars@ == text@,
            digits == text@.skip(first as int),
            digits == unsigned_part(text@),
            all_digits(digits.take(i - first)),
            value == digits_value(digits.take(i - first)),
        decreases chars.len() - i,
    {
        let c = chars[i];
        let ghost seen = digits.take(i - first);
        let ghost next = digits.take(i - first + 1);
        assert(next.drop_last() =~= seen);
        assert(next.last() == c);
        if !('0' <= c && c <= '9') {
            assert(!is_digit(digits[i - first]));
            return None;
        }
        let digit = (c as u32 - 0x30) as usize;
        let grown = match value.checked_mul(10) {
            Some(tenfold) => tenfold.checked_add(digit),
            None => None,
        };
        match grown {
            Some(sum) => {
                value = sum;
            },
            None => {
                proof {
                    assert(digits_value(next) > usize::MAX);
                    lemma_digits_value_grows(digits, i - first + 1);
                }
                return None;
            },
        }
        assert(all_digits(next)) by {
            assert forall|k: int| 0 <= k < next.len() implies is_digit(#[trigger] next[k]) by {
                if k < seen.len() {
                    assert(next[k] == seen[k]);
                }
            }
        }
        i += 1;
    }
    assert(digits.take(chars.len() - first) =~= digits);
    Some(value)
}

/// A number written in decimal digits reads back as that number.
pub proof fn law_decimal_reads_back(number: nat)
    ensures
        decimal(number).len() > 0,
        all_digits(decimal(number)),
        digits_value(decimal(number)) == number,
        parsed_number(decimal(number)) == Some(number),
    decreases number,
{
    let written = decimal(number);
    if number < 10 {
        assert(written =~= seq![digit_char(number)]);
        assert(written.drop_last() =~= Seq::empty());
        assert(digits_value(written.drop_last()) == 0);
    } else {
        law_decimal_reads_back(number / 10);
        let higher = decimal(number / 10);
        assert(written.drop_last() =~= higher);
        assert(written.last() == digit_char(number % 10));
        assert forall|i: int| 0 <= i < written.len() implies is_digit(#[trigger] written[i]) by {
            if i < higher.len() {
                assert(written[i] == higher[i]);
            }
        }
    }
    assert(is_digit(written.first()));
}

} // verus!
