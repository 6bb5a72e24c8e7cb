//! Text: its characters, finding and replacing a part of it, and numbers
//! written and read in decimal.

use vstd::prelude::*;
use vstd::string::StringExecFns;
use crate::recognition::numbers::{all_digits, digits_value, is_digit};

verus! {

/// The characters of a text.
pub fn chars_of(text: &str) -> (r: Vec<char>)
    ensures
        r@ == text@,
{
    let mut out: Vec<char> = Vec::new();
    for c in it: text.chars()
        invariant
            it.seq() == text@,
            out@ == it.seq().take(it.index() as int),
    {
        out.push(c);
    }
    out
}

/// Whether a text begins with another.
pub open spec fn begins_with(text: Seq<char>, start: Seq<char>) -> bool {
    start.len() <= text.len() && text.subrange(0, start.len() as int) == start
}

/// A text with every occurrence of `from` replaced by `to`, the occurrences
/// taken from left to right without overlap. A text to look for that is
/// empty leaves the text as it is.
pub open spec fn replaced(text: Seq<char>, from: Seq<char>, to: Seq<char>) -> Seq<char>
    decreases text.len(),
{
    if from.len() == 0 || text.len() < from.len() {
        text
    } else if begins_with(text, from) {
        to + replaced(text.skip(from.len() as int), from, to)
    } else {
        seq![text[0]] + replaced(text.skip(1), from, to)
    }
}

/// `String::from_iter` over characters: the text that the characters spell.
#[verifier::external_body]
pub(crate) fn string_of(chars: &Vec<char>) -> (r: String)
    ensures
        r@ == chars@,
{
    String::from_iter(chars.iter())
}

/// Whether `part` stands in `text` at the index `i`.
pub open spec fn occurs_at(part: Seq<char>, text: Seq<char>, i: int) -> bool {
    0 <= i && i + part.len() <= text.len() && text.subrange(i, i + part.len()) == part
}

/// Whether `part` stands somewhere in `text`.
pub open spec fn occurs_in(part: Seq<char>, text: Seq<char>) -> bool {
    exists|i: int| occurs_at(part, text, i)
}

/// Whether `part` stands in `text` at the index `i`.
pub fn stands_at(part: &Vec<char>, text: &Vec<char>, i: usize) -> (r: bool)
    ensures
        r == occurs_at(part@, text@, i as int),
{
    if i > text.len() || part.len() > text.len() - i {
        return false;
    }
    let mut k: usize = 0;
    while k < part.len()
        invariant
            k <= part@.len(),
            i + part@.len() <= text@.len(),
            text@.len() == text.len(),
            forall|j: int| 0 <= j < k ==> text@[i + j] == part@[j],
        decreases part.len() - k,
    {
        if text[i + k] != part[k] {
            return false;
        }
        k += 1;
    }
    assert(text@.subrange(i as int, i + part@.len()) =~= part@);
    true
}

/// Whether `part` stands somewhere in `text`.
pub fn occurs(part: &Vec<char>, text: &Vec<char>) -> (r: bool)
    ensures
        r == occurs_in(part@, text@),
{
    if part.len() > text.len() {
        return false;
    }
    let last = text.len() - part.len();
    let mut i: usize = 0;
    while i < last
        invariant
            i <= last,
            last + part@.len() == text@.len(),
            forall|j: int| 0 <= j < i ==> !occurs_at(part@, text@, j),
        decreases last - i,
    {
        if stands_at(part, text, i) {
            return true;
        }
        i += 1;
    }
    stands_at(part, text, last)
}

/// A text with every occurrence of `from` replaced by `to`, the occurrences
/// taken from left to right without overlap. A text to look for that is
/// empty leaves the text as it is.
pub fn replace(text: &str, from: &str, to: &str) -> (r: String)
    ensures
        r@ == replaced(text@, from@, to@),
{
    let source = chars_of(text);
    let wanted = chars_of(from);
    let put = chars_of(to);
    let ghost whole = replaced(source@, wanted@, put@);
    let mut out: Vec<char> = Vec::new();
    let mut i: usize = 0;
    assert(source@.skip(0) =~= source@);
    while i < source.len()
        invariant
            i <= source.len(),
            whole == replaced(source@, wanted@, put@),
            out@ + replaced(source@.skip(i as int), wanted@, put@) == whole,
        decreases source.len() - i,
    {
        let ghost rest = source@.skip(i as int);
        let ghost before = out@;
        if wanted.len() > 0 && stands_at(&wanted, &source, i) {
            assert(rest.subrange(0, wanted@.len() as int) =~= source@.subrange(i as int, i + wanted@.len()));
            let mut k: usize = 0;
            while k < put.len()
                invariant
                    k <= put.len(),
                    out@ == before + put@.subrange(0, k as int),
                decreases put.len() - k,
            {
                out.push(put[k]);
                k += 1;
            }
            assert(rest.skip(wanted@.len() as int) =~= source@.skip(i + wanted@.len()));
            i += wanted.len();
        } else {
            proof {
                if wanted@.len() > 0 && rest.len() >= wanted@.len() {
                    assert(rest.subrange(0, wanted@.len() as int) =~= source@.subrange(
                        i as int,
                        i + wanted@.len(),
                    ));
                }
                assert(rest.skip(1) =~= source@.skip(i + 1));
            }
            out.push(source[i]);
            i += 1;
        }
    }
    string_of(&out)
}

/// The character of a decimal digit.
pub open spec fn digit_char(d: int) -> char {
    if d == 0 {
        '0'
    } else if d == 1 {
        '1'
    } else if d == 2 {
        '2'
    } else if d == 3 {
        '3'
    } else if d == 4 {
        '4'
    } else if d == 5 {
        '5'
    } else if d == 6 {
        '6'
    } else if d == 7 {
        '7'
    } else if d == 8 {
        '8'
    } else {
        '9'
    }
}

/// The decimal digits of a number that is not negative, without leading zeros.
pub open spec fn digits_of(n: nat) -> Seq<char>
    decreases n,
{
    if n < 10 {
        seq![digit_char(n as int)]
    } else {
        digits_of(n / 10).push(digit_char((n % 10) as int))
    }
}

/// A number in decimal, with a minus sign before a negative one.
pub open spec fn decimal(n: int) -> Seq<char> {
    if n < 0 {
        seq!['-'] + digits_of((-n) as nat)
    } else {
        digits_of(n as nat)
    }
}

/// The text of a decimal digit.
fn digit_text(d: u64) -> (r: &'static str)
    requires
        d < 10,
    ensures
        r@ == seq![digit_char(d as int)],
{
    proof {
        reveal_strlit("0");
        reveal_strlit("1");
        reveal_strlit("2");
        reveal_strlit("3");
        reveal_strlit("4");
        reveal_strlit("5");
        reveal_strlit("6");
        reveal_strlit("7");
        reveal_strlit("8");
        reveal_strlit("9");
    }
    let r = if d == 0 {
        "0"
    } else if d == 1 {
        "1"
    } else if d == 2 {
        "2"
    } else if d == 3 {
        "3"
    } else if d == 4 {
        "4"
    } else if d == 5 {
        "5"
    } else if d == 6 {
        "6"
    } else if d == 7 {
        "7"
    } else if d == 8 {
        "8"
    } else {
        "9"
    };
    r
}

/// Writes the decimal digits of a number at the end of a text.
pub fn push_digits(text: &mut String, n: u64)
    ensures
        final(text)@ == old(text)@ + digits_of(n as nat),
    decreases n,
{
    if n >= 10 {
        push_digits(text, n / 10);
    }
    text.append(digit_text(n % 10));
}

/// Writes a number in decimal at the end of a text.
pub fn push_decimal(text: &mut String, n: i64)
    ensures
        final(text)@ == old(text)@ + decimal(n as int),
{
    if n < 0 {
        proof {
            reveal_strlit("-");
        }
        text.append("-");
        let magnitude: u64 = if n == i64::MIN {
            9223372036854775808u64
        } else {
            (-n) as u64
        };
        push_digits(text, magnitude);
    } else {
        push_digits(text, n as u64);
    }
}

/// The digits of a number of seconds as it is typed: the text without a
/// leading plus sign.
pub open spec fn typed_digits(s: Seq<char>) -> Seq<char> {
    if s.len() > 0 && s[0] == '+' {
        s.drop_first()
    } else {
        s
    }
}

/// The number of seconds that a text writes: decimal digits, with or
/// without a plus sign before them, that write a number in the range of
/// `u64`. Anything else writes none.
pub open spec fn seconds_in(s: Seq<char>) -> Option<u64> {
    let digits = typed_digits(s);
    if digits.len() > 0 && all_digits(digits) && digits_value(digits) <= u64::MAX {
        Some(digits_value(digits) as u64)
    } else {
        None
    }
}

/// A run of digits writes a number that is no less than the number that any
/// of its beginnings writes.
pub proof fn lemma_digits_grow(s: Seq<char>, n: int)
    requires
        all_digits(s),
        0 <= n <= s.len(),
    ensures
        digits_value(s.subrange(0, n)) <= digits_value(s),
    decreases s.len() - n,
{
    if n == s.len() {
        assert(s.subrange(0, n) =~= s);
    } else {
        lemma_digits_grow(s, n + 1);
        let longer = s.subrange(0, n + 1);
        assert(longer.drop_last() =~= s.subrange(0, n));
    }
}

/// Reads the number of seconds that a text writes, if it writes one.
pub fn parse_seconds(text: &str) -> (r: Option<u64>)
    ensures
        r == seconds_in(text@),
{
    let chars = chars_of(text);
    let n = chars.len();
    let ghost s = text@;
    let start: usize = if n > 0 && chars[0] == '+' {
        1
    } else {
        0
    };
    let ghost digits = typed_digits(s);
    if start == n {
        return None;
    }
    let mut value: u64 = 0;
    let mut i: usize = start;
    while i < n
        invariant
            start <= i <= n,
            n == s.len(),
            s == text@,
            s == chars@,
            digits == s.subrange(start as int, n as int),
            digits == typed_digits(s),
            all_digits(digits.subrange(0, i - start)),
            value == digits_value(digits.subrange(0, i - start)),
        decreases n - i,
    {
        let c = chars[i];
        let ghost seen = digits.subrange(0, i - start);
        let ghost more = digits.subrange(0, i + 1 - start);
        assert(more.drop_last() =~= seen);
        if '0' <= c && c <= '9' {
            let d = (c as u32 - '0' as u32) as u64;
            if value > (u64::MAX - d) / 10 {
                proof {
                    if all_digits(digits) {
                        lemma_digits_grow(digits, i + 1 - start);
                    }
                }
                return None;
            }
            value = value * 10 + d;
        } else {
            return None;
        }
        i += 1;
    }
    assert(digits.subrange(0, n - start) =~= digits);
    Some(value)
}

} // verus!
