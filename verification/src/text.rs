//! Text as sequences of characters: the searches and conversions that the
//! rest of the library builds on.

use vstd::prelude::*;
use vstd::std_specs::iter::IteratorSpec;

verus! {

/// The characters of `text`, in order.
pub fn chars_of(text: &str) -> (chars: Vec<char>)
    ensures
        chars@ == text@,
{
    broadcast use vstd::string::next_postcondition;
    broadcast use vstd::string::axiom_spec_iter;

    let mut it = text.chars();
    let mut chars: Vec<char> = Vec::new();
    loop
        invariant
            it.obeys_prophetic_iter_laws(),
            it.decrease() is Some,
            chars@ + it.remaining() == text@,
        ensures
            chars@ == text@,
        decreases it.decrease()->0,
    {
        let ghost before = it.remaining();
        match it.next() {
            Some(c) => {
                chars.push(c);
                assert(chars@ + it.remaining() =~= text@) by {
                    assert(before =~= seq![c] + before.drop_first());
                }
            },
            None => {
                assert(chars@ + it.remaining() =~= chars@);
                break ;
            },
        }
    }
    chars
}

/// The position of the first `mark` in `text`; the length of `text` where it
/// holds none.
pub open spec fn first_pos(text: Seq<char>, mark: char) -> int
    decreases text.len(),
{
    if text.len() == 0 {
        0
    } else if text[0] == mark {
        0
    } else {
        1 + first_pos(text.drop_first(), mark)
    }
}

/// The position of the last `mark` in `text`; -1 where it holds none.
pub open spec fn last_pos(text: Seq<char>, mark: char) -> int
    decreases text.len(),
{
    if text.len() == 0 {
        -1
    } else if text.last() == mark {
        text.len() - 1
    } else {
        last_pos(text.drop_last(), mark)
    }
}

/// `first_pos` lies within the text, nothing before it is the mark, and the
/// mark stands at it unless the text holds none.
pub proof fn lemma_first_pos(text: Seq<char>, mark: char)
    ensures
        0 <= first_pos(text, mark) <= text.len(),
        first_pos(text, mark) < text.len() ==> text[first_pos(text, mark)] == mark,
        forall|j: int| 0 <= j < first_pos(text, mark) ==> text[j] != mark,
    decreases text.len(),
{
    if text.len() != 0 && text[0] != mark {
        let rest = text.drop_first();
        lemma_first_pos(rest, mark);
        assert forall|j: int| 0 <= j < first_pos(text, mark) implies text[j] != mark by {
            if j > 0 {
                assert(text[j] == rest[j - 1]);
            }
        }
    }
}

/// A position with no mark before it, and with the mark at it or the text's
/// end, is `first_pos`.
pub proof fn lemma_first_pos_unique(text: Seq<char>, mark: char, pos: int)
    requires
        0 <= pos <= text.len(),
        pos < text.len() ==> text[pos] == mark,
        forall|j: int| 0 <= j < pos ==> text[j] != mark,
    ensures
        first_pos(text, mark) == pos,
{
    lemma_first_pos(text, mark);
    let found = first_pos(text, mark);
    if found < pos {
        assert(text[found] != mark);
    }
}

/// `last_pos` lies within the text or is -1, nothing after it is the mark,
/// and the mark stands at it unless the text holds none.
pub proof fn lemma_last_pos(text: Seq<char>, mark: char)
    ensures
        -1 <= last_pos(text, mark) < text.len(),
        0 <= last_pos(text, mark) ==> text[last_pos(text, mark)] == mark,
        forall|j: int| last_pos(text, mark) < j < text.len() ==> text[j] != mark,
    decreases text.len(),
{
    if text.len() != 0 && text.last() != mark {
        let rest = text.drop_last();
        lemma_last_pos(rest, mark);
        assert forall|j: int| last_pos(text, mark) < j < text.len() implies text[j] != mark by {
            if j < text.len() - 1 {
                assert(text[j] == rest[j]);
            }
        }
    }
}

/// A position with no mark after it, and with the mark at it or before the
/// text's start, is `last_pos`.
pub proof fn lemma_last_pos_unique(text: Seq<char>, mark: char, pos: int)
    requires
        -1 <= pos < text.len(),
        0 <= pos ==> text[pos] == mark,
        forall|j: int| pos < j < text.len() ==> text[j] != mark,
    ensures
        last_pos(text, mark) == pos,
{
    lemma_last_pos(text, mark);
    let found = last_pos(text, mark);
    if found > pos {
        assert(text[found] != mark);
    }
}

/// Finds the first `mark` among `chars`.
pub fn find_first(chars: &Vec<char>, mark: char) -> (pos: usize)
    ensures
        pos == first_pos(chars@, mark),
{
    let mut pos: usize = 0;
    while pos < chars.len() && chars[pos] != mark
        invariant
            pos <= chars.len(),
            forall|j: int| 0 <= j < pos ==> chars@[j] != mark,
        decreases chars.len() - pos,
    {
        pos += 1;
    }
    proof {
        lemma_first_pos_unique(chars@, mark, pos as int);
    }
    pos
}

/// Finds the last `mark` among `chars`: `None` where there is none.
pub fn find_last(chars: &Vec<char>, mark: char) -> (found: Option<usize>)
    ensures
        match found {
            Some(pos) => pos == last_pos(chars@, mark),
            None => last_pos(chars@, mark) == -1,
        },
{
    let mut end: usize = chars.len();
    while end > 0 && chars[end - 1] != mark
        invariant
            end <= chars.len(),
            forall|j: int| end <= j < chars.len() ==> chars@[j] != mark,
        decreases end,
    {
        end -= 1;
    }
    proof {
        lemma_last_pos_unique(chars@, mark, end as int - 1);
    }
    if end == 0 {
        None
    } else {
        Some(end - 1)
    }
}

/// Whether `chars` holds `pattern` from position `at` on.
pub open spec fn occurs_at(pattern: Seq<char>, chars: Seq<char>, at: int) -> bool {
    &&& 0 <= at
    &&& at + pattern.len() <= chars.len()
    &&& chars.subrange(at, at + pattern.len()) == pattern
}

/// Whether `pattern` occurs somewhere in `chars`.
pub open spec fn occurs_in(pattern: Seq<char>, chars: Seq<char>) -> bool {
    exists|at: int| occurs_at(pattern, chars, at)
}

fn matches_at(pattern: &Vec<char>, chars: &Vec<char>, at: usize) -> (hit: bool)
    requires
        at + pattern.len() <= chars.len(),
    ensures
        hit == occurs_at(pattern@, chars@, at as int),
{
    let mut k: usize = 0;
    while k < pattern.len()
        invariant
            k <= pattern.len(),
            at + pattern.len() <= chars.len(),
            forall|j: int| 0 <= j < k ==> chars@[at + j] == pattern@[j],
        decreases pattern.len() - k,
    {
        if chars[at + k] != pattern[k] {
            proof {
                let window = chars@.subrange(at as int, at + pattern.len());
                assert(window[k as int] == chars@[at + k]);
            }
            return false;
        }
        k += 1;
    }
    assert(chars@.subrange(at as int, at + pattern.len()) =~= pattern@);
    true
}

/// Whether two texts hold the same characters.
pub fn equal(left: &str, right: &str) -> (same: bool)
    ensures
        same == (left@ == right@),
{
    let chars = chars_of(left);
    let other = chars_of(right);
    if chars.len() != other.len() {
        return false;
    }
    let same = matches_at(&other, &chars, 0);
    assert(chars@.subrange(0, chars@.len() as int) =~= chars@);
    same
}

/// Whether `text` ends with `suffix`.
pub fn ends_with(text: &str, suffix: &str) -> (hit: bool)
    ensures
        hit == suffix@.is_suffix_of(text@),
{
    let chars = chars_of(text);
    let pattern = chars_of(suffix);
    if pattern.len() > chars.len() {
        return false;
    }
    matches_at(&pattern, &chars, chars.len() - pattern.len())
}

/// Whether `text` starts with `prefix`.
pub fn starts_with(text: &str, prefix: &str) -> (hit: bool)
    ensures
        hit == prefix@.is_prefix_of(text@),
{
    let chars = chars_of(text);
    let pattern = chars_of(prefix);
    if pattern.len() > chars.len() {
        return false;
    }
    matches_at(&pattern, &chars, 0)
}

/// Whether `pattern` occurs somewhere in `text`.
pub fn contains(text: &str, pattern: &str) -> (hit: bool)
    ensures
        hit == occurs_in(pattern@, text@),
{
    let chars = chars_of(text);
    let wanted = chars_of(pattern);
    if wanted.len() > chars.len() {
        return false;
    }
    let last: usize = chars.len() - wanted.len();
    let mut at: usize = 0;
    loop
        invariant
            at <= last,
            last + wanted.len() == chars.len(),
            chars@ == text@,
            wanted@ == pattern@,
            forall|j: int| 0 <= j < at ==> !occurs_at(wanted@, chars@, j),
        decreases last - at,
    {
        if matches_at(&wanted, &chars, at) {
            return true;
        }
        if at == last {
            return false;
        }
        at += 1;
    }
}

/// The character that writes the digit `d`.
pub open spec fn digit_char(d: nat) -> char {
    if d == 0 {
        '0'
    } else if d == 1 {
        '1'
    } else if d == 2 {
        '2'
    } else if d == 3 {
        '3'
    } else if d == 4 {
        '4'
    } else if d == 5 {
        '5'
    } else if d == 6 {
        '6'
    } else if d == 7 {
        '7'
    } else if d == 8 {
        '8'
    } else {
        '9'
    }
}

/// `n` written in decimal, without leading zeros.
pub open spec fn decimal_spec(n: nat) -> Seq<char>
    decreases n,
{
    if n < 10 {
        seq![digit_char(n)]
    } else {
        decimal_spec(n / 10).push(digit_char(n % 10))
    }
}

/// Writes `n` in decimal.
pub fn decimal(n: u64) -> (text: String)
    ensures
        text@ == decimal_spec(n as nat),
    decreases n,
{
    let digits = "0123456789";
    let d: usize = (n % 10) as usize;
    proof {
        reveal_strlit("0123456789");
    }
    let unit = digits.substring_char(d, d + 1);
    assert(unit@ =~= seq![digit_char(d as nat)]);
    if n < 10 {
        String::from_str(unit)
    } else {
        let mut text = decimal(n / 10);
        text.append(unit);
        assert(text@ =~= decimal_spec(n as nat / 10).push(digit_char(n as nat % 10)));
        text
    }
}

/// Whether `c` is one of the ten decimal digits.
pub open spec fn is_digit(c: char) -> bool {
    '0' <= c <= '9'
}

/// The number that the digit `c` writes.
pub open spec fn digit_value(c: char) -> nat {
    (c as u32 - '0' as u32) as nat
}

/// The number that a run of decimal digits writes.
pub open spec fn digits_value(digits: Seq<char>) -> nat
    decreases digits.len(),
{
    if digits.len() == 0 {
        0
    } else {
        digits_value(digits.drop_last()) * 10 + digit_value(digits.last())
    }
}

/// The digits of a decimal numeral: the text itself, less one leading `+`.
pub open spec fn numeral_digits(text: Seq<char>) -> Seq<char> {
    if text.len() > 0 && text[0] == '+' {
        text.drop_first()
    } else {
        text
    }
}

/// The 64-bit number that `text` writes in decimal: one or more digits, after
/// at most one `+`, whose value fits.
pub open spec fn parse_decimal_spec(text: Seq<char>) -> Option<u64> {
    let digits = numeral_digits(text);
    if digits.len() > 0 && (forall|i: int| 0 <= i < digits.len() ==> is_digit(#[trigger] digits[i]))
        && digits_value(digits) <= u64::MAX {
        Some(digits_value(digits) as u64)
    } else {
        None
    }
}

proof fn lemma_digits_value_grows(digits: Seq<char>, k: int)
    requires
        0 <= k <= digits.len(),
    ensures
        digits_value(digits.subrange(0, k)) <= digits_value(digits),
    decreases digits.len(),
{
    if k == digits.len() {
        assert(digits.subrange(0, k) =~= digits);
    } else {
        let shorter = digits.drop_last();
        lemma_digits_value_grows(shorter, k);
        assert(shorter.subrange(0, k) =~= digits.subrange(0, k));
    }
}

/// Reads a decimal numeral.
pub fn parse_decimal(text: &str) -> (number: Option<u64>)
    ensures
        number == parse_decimal_spec(text@),
{
    let chars = chars_of(text);
    let start: usize = if chars.len() > 0 && chars[0] == '+' {
        1
    } else {
        0
    };
    let ghost digits = numeral_digits(chars@);
    assert(digits =~= chars@.subrange(start as int, chars.len() as int));
    if start == chars.len() {
        return None;
    }
    let mut value: u64 = 0;
    let mut i: usize = start;
    while i < chars.len()
        invariant
            start <= i <= chars.len(),
            chars@ == text@,
            digits == numeral_digits(chars@),
            digits == chars@.subrange(start as int, chars.len() as int),
            forall|j: int| 0 <= j < i - start ==> is_digit(#[trigger] digits[j]),
            value == digits_value(digits.subrange(0, i - start)),
        decreases chars.len() - i,
    {
        let c = chars[i];
        assert(c == digits[i - start]);
        if c < '0' || c > '9' {
            return None;
        }
        let d: u64 = (c as u32 - '0' as u32) as u64;
        proof {
            let upto = digits.subrange(0, i - start + 1);
            assert(upto.drop_last() =~= digits.subrange(0, i - start));
            assert(upto.last() == c);
            assert(digits_value(upto) == value * 10 + d);
            lemma_digits_value_grows(digits, i - start + 1);
        }
        if value > (u64::MAX - d) / 10 {
            return None;
        }
        value = value * 10 + d;
        i += 1;
    }
    assert(digits.subrange(0, i - start) =~= digits);
    Some(value)
}

} // verus!
