//! Progress numbers as they stand in a window title.
//!
//! A number is a run of decimal digits with at most one point in it, such as
//! `12`, `39.1`, `7.` or `.5`. Chapters may be numbered in fractions, so the
//! digits behind the point are kept, to three places. A whole part beyond the
//! range of `i32` is held at the largest `i32`.
//!
//! Nothing else is a number here. A general reader of decimal fractions would
//! also take a sign (`+3`, `-1`), an exponent (`1e2`) and the words for
//! infinity and for what is no number. A progress number counts the episodes
//! or chapters seen, from zero up, so a figure with a sign or a scale is no
//! such count, and the two words stand for no count at all: a capture that
//! holds one of these gives no number, and the title is recognised without
//! that progress.

use vstd::prelude::*;
use vstd::string::StringExecFns;
use crate::text::{chars_of, decimal, digit_char, digits_of, push_decimal, push_digits};

verus! {

/// A progress number: its whole part, and its first three decimal places as
/// a number of thousandths.
#[derive(Debug, Clone, Copy, PartialEq, Eq, Structural)]
pub struct Number {
    pub whole: i32,
    pub thousandths: u16,
}

/// The decimal places that a number of thousandths writes, behind a point:
/// nothing for zero, and no zeros at the end.
pub open spec fn places_of(thousandths: u16) -> Seq<char> {
    let first = digit_char(((thousandths / 100) % 10) as int);
    let second = digit_char(((thousandths / 10) % 10) as int);
    let third = digit_char((thousandths % 10) as int);
    if thousandths % 1000 == 0 {
        Seq::empty()
    } else if thousandths % 100 == 0 {
        seq!['.', first]
    } else if thousandths % 10 == 0 {
        seq!['.', first, second]
    } else {
        seq!['.', first, second, third]
    }
}

impl Number {
    /// The number in decimal, such as `12` or `39.1`.
    pub open spec fn text(self) -> Seq<char> {
        decimal(self.whole as int) + places_of(self.thousandths)
    }

    /// Writes the number in decimal at the end of a text.
    pub fn push_to(&self, text: &mut String)
        ensures
            final(text)@ == old(text)@ + self.text(),
    {
        push_decimal(text, self.whole as i64);
        push_places(text, self.thousandths);
    }
}

/// Writes one decimal digit at the end of a text.
fn push_digit(text: &mut String, d: u16)
    requires
        d < 10,
    ensures
        final(text)@ == old(text)@.push(digit_char(d as int)),
{
    push_digits(text, d as u64);
}

/// Writes the decimal places of a number of thousandths at the end of a text.
fn push_places(text: &mut String, thousandths: u16)
    ensures
        final(text)@ == old(text)@ + places_of(thousandths),
{
    let first = (thousandths / 100) % 10;
    let second = (thousandths / 10) % 10;
    let third = thousandths % 10;
    if thousandths % 1000 == 0 {
        return ;
    }
    proof {
        reveal_strlit(".");
    }
    text.append(".");
    push_digit(text, first);
    if thousandths % 100 == 0 {
        return ;
    }
    push_digit(text, second);
    if thousandths % 10 == 0 {
        return ;
    }
    push_digit(text, third);
}

/// Whether a character is a decimal digit.
pub open spec fn is_digit(c: char) -> bool {
    '0' <= c <= '9'
}

/// The value of a decimal digit.
pub open spec fn digit_value(c: char) -> int {
    c as int - '0' as int
}

/// Whether every character of a text is a decimal digit.
pub open spec fn all_digits(s: Seq<char>) -> bool {
    forall|i: int| 0 <= i < s.len() ==> is_digit(#[trigger] s[i])
}

/// The number that a run of decimal digits writes.
pub open spec fn digits_value(s: Seq<char>) -> nat
    decreases s.len(),
{
    if s.len() == 0 {
        0
    } else {
        (digits_value(s.drop_last()) * 10 + digit_value(s.last())) as nat
    }
}

/// The index of the first point in a text; the length of the text where it has none.
pub open spec fn point_index(s: Seq<char>) -> int
    decreases s.len(),
{
    if s.len() == 0 || s[0] == '.' {
        0
    } else {
        1 + point_index(s.drop_first())
    }
}

/// The digit at place `i` of a run of digits, and zero behind its end.
pub open spec fn place(s: Seq<char>, i: int) -> int {
    if 0 <= i < s.len() {
        digit_value(s[i])
    } else {
        0
    }
}

/// The first three decimal places that a run of digits behind the point writes, in thousandths.
pub open spec fn thousandths_of(s: Seq<char>) -> int {
    place(s, 0) * 100 + place(s, 1) * 10 + place(s, 2)
}

/// The digits before the first point of a text.
pub open spec fn whole_part(s: Seq<char>) -> Seq<char> {
    s.subrange(0, point_index(s))
}

/// The characters behind the first point of a text; none where it has no point.
pub open spec fn fraction_part(s: Seq<char>) -> Seq<char> {
    if point_index(s) < s.len() {
        s.subrange(point_index(s) + 1, s.len() as int)
    } else {
        Seq::empty()
    }
}

/// Whether a text writes a number: digits with at most one point among
/// them, and at least one digit. A sign, an exponent, a blank or any other
/// character makes the text no number.
pub open spec fn is_number(s: Seq<char>) -> bool {
    &&& all_digits(whole_part(s))
    &&& all_digits(fraction_part(s))
    &&& whole_part(s).len() + fraction_part(s).len() > 0
}

/// The number that a text writes, if it writes one.
pub open spec fn number_in(s: Seq<char>) -> Option<Number> {
    if is_number(s) {
        Some(
            Number {
                whole: (if digits_value(whole_part(s)) <= i32::MAX {
                    digits_value(whole_part(s)) as int
                } else {
                    i32::MAX as int
                }) as i32,
                thousandths: thousandths_of(fraction_part(s)) as u16,
            },
        )
    } else {
        None
    }
}

/// The first point of a text lies within it or at its end, no point stands
/// before it, and a point stands at it unless it is the end.
pub proof fn lemma_point_index(s: Seq<char>)
    ensures
        0 <= point_index(s) <= s.len(),
        forall|i: int| 0 <= i < point_index(s) ==> #[trigger] s[i] != '.',
        point_index(s) < s.len() ==> s[point_index(s)] == '.',
    decreases s.len(),
{
    if s.len() > 0 && s[0] != '.' {
        let rest = s.drop_first();
        lemma_point_index(rest);
        assert forall|i: int| 0 <= i < point_index(s) implies #[trigger] s[i] != '.' by {
            if i > 0 {
                assert(rest[i - 1] == s[i]);
            }
        }
    }
}

/// An index at which a point stands, with none before it, is the first point.
pub proof fn lemma_point_found(s: Seq<char>, p: int)
    requires
        0 <= p <= s.len(),
        forall|i: int| 0 <= i < p ==> #[trigger] s[i] != '.',
        p < s.len() ==> s[p] == '.',
    ensures
        point_index(s) == p,
{
    lemma_point_index(s);
}

/// The value of a decimal digit.
fn value_of(c: char) -> (r: Option<u8>)
    ensures
        r is Some == is_digit(c),
        r matches Some(d) ==> d == digit_value(c) && d <= 9,
{
    if '0' <= c && c <= '9' {
        Some((c as u32 - '0' as u32) as u8)
    } else {
        None
    }
}

/// Reads the number that a text writes, if it writes one. A text with a
/// sign or an exponent in it writes none: a progress number is a plain count.
pub fn parse_number(text: &str) -> (r: Option<Number>)
    ensures
        r == number_in(text@),
{
    let chars = chars_of(text);
    let n = chars.len();
    let ghost s = text@;
    let mut whole: i32 = 0;
    let mut i: usize = 0;
    let mut at_point = false;
    while i < n && !at_point
        invariant
            i <= n,
            n == s.len(),
            s == text@,
            s == chars@,
            forall|j: int| 0 <= j < i ==> #[trigger] s[j] != '.',
            at_point ==> i < n && s[i as int] == '.',
            all_digits(s.subrange(0, i as int)),
            whole >= 0,
            whole == (if digits_value(s.subrange(0, i as int)) <= i32::MAX {
                digits_value(s.subrange(0, i as int)) as int
            } else {
                i32::MAX as int
            }),
        decreases n - i + (if at_point { 0int } else { 1int }),
    {
        let c = chars[i];
        if c == '.' {
            at_point = true;
        } else {
            match value_of(c) {
                Some(d) => {
                    let next = (whole as i64) * 10 + (d as i64);
                    proof {
                        let run = s.subrange(0, i + 1);
                        assert(run.drop_last() =~= s.subrange(0, i as int));
                    }
                    whole = if next > i32::MAX as i64 {
                        i32::MAX
                    } else {
                        next as i32
                    };
                    i += 1;
                },
                None => {
                    proof {
                        lemma_point_index(s);
                        if point_index(s) > i {
                            assert(whole_part(s)[i as int] == c);
                        }
                    }
                    return None;
                },
            }
        }
    }
    proof {
        lemma_point_found(s, i as int);
    }
    let digits_before = i;
    if !at_point {
        return if digits_before > 0 {
            Some(Number { whole, thousandths: 0 })
        } else {
            None
        };
    }
    let start = i + 1;
    let ghost fraction = fraction_part(s);
    let mut thousandths: u16 = 0;
    let mut k: usize = start;
    while k < n
        invariant
            start <= k <= n,
            n == s.len(),
            s == text@,
            s == chars@,
            fraction == s.subrange(start as int, n as int),
            fraction == fraction_part(s),
            all_digits(fraction.subrange(0, k - start)),
            thousandths <= 999,
            thousandths == place(fraction.subrange(0, k - start), 0) * 100 + place(
                fraction.subrange(0, k - start),
                1,
            ) * 10 + place(fraction.subrange(0, k - start), 2),
        decreases n - k,
    {
        let c = chars[k];
        proof {
            assert(fraction[k - start] == c);
        }
        match value_of(c) {
            Some(d) => {
                let at = k - start;
                if at == 0 {
                    thousandths = (d as u16) * 100;
                } else if at == 1 {
                    thousandths = thousandths + (d as u16) * 10;
                } else if at == 2 {
                    thousandths = thousandths + (d as u16);
                }
                k += 1;
            },
            None => {
                return None;
            },
        }
    }
    assert(fraction.subrange(0, n - start) =~= fraction);
    if digits_before == 0 && start == n {
        None
    } else {
        Some(Number { whole, thousandths })
    }
}

} // verus!
