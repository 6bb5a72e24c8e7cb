//! Regular expressions, as the `regex` crate compiles and runs them.
//!
//! Nothing in this file is proved. Each function states what the crate's
//! documentation says of the function that it calls, over names for what a
//! pattern does: whether it compiles, and what it captures in a text.
//!
//! The crate can also compile a pattern with options (to ignore case, to let
//! a dot match a line break, and so on), and a value made so matches
//! otherwise than its pattern alone says. What is stated here of matching is
//! stated of the values that `Regex::new` and `RegexSet::new` make, which are
//! marked as plain.

use regex::Regex;
use regex::RegexSet;
use vstd::prelude::*;

verus! {

#[verifier::external_type_specification]
#[verifier::external_body]
pub struct ExRegex(Regex);

#[verifier::external_type_specification]
#[verifier::external_body]
pub struct ExRegexSet(RegexSet);

#[verifier::external_type_specification]
#[verifier::external_body]
pub struct ExRegexError(regex::Error);

/// The pattern that a compiled regular expression was made from.
pub uninterp spec fn regex_pattern(regex: Regex) -> Seq<char>;

/// The patterns that a set of regular expressions was made from, in order.
pub uninterp spec fn set_patterns(set: RegexSet) -> Seq<Seq<char>>;

/// Whether a regular expression was compiled without options, as
/// `Regex::new` compiles it: what it matches is told by its pattern alone.
pub uninterp spec fn regex_is_plain(regex: Regex) -> bool;

/// Whether a set was compiled without options, as `RegexSet::new` compiles it.
pub uninterp spec fn set_is_plain(set: RegexSet) -> bool;

/// Whether a pattern compiles: it is a valid regular expression within the
/// default size limit.
pub uninterp spec fn pattern_compiles(pattern: Seq<char>) -> bool;

/// Whether a list of patterns compiles into one set.
pub uninterp spec fn pattern_set_compiles(patterns: Seq<Seq<char>>) -> bool;

/// What a pattern captures at its first match in a text: nothing where it
/// does not match, else one entry for each capture group in the order of
/// their opening brackets, the whole match first. An entry holds the group's
/// name, if it has one, and the text that the group matched, if it took part
/// in the match.
pub uninterp spec fn pattern_captures(pattern: Seq<char>, text: Seq<char>) -> Option<
    Seq<(Option<Seq<char>>, Option<Seq<char>>)>,
>;

/// A text with every match of a pattern replaced, the matches taken from
/// left to right without overlap. In the replacement, `$` followed by a
/// group's name or number stands for what that group matched.
pub uninterp spec fn pattern_replaced(pattern: Seq<char>, text: Seq<char>, replacement: Seq<char>) -> Seq<
    char,
>;

/// Whether a pattern matches somewhere in a text.
pub open spec fn pattern_matches(pattern: Seq<char>, text: Seq<char>) -> bool {
    pattern_captures(pattern, text) is Some
}

/// Whether pattern `i` is the first of `patterns` that matches in the text.
pub open spec fn is_first_match(patterns: Seq<Seq<char>>, text: Seq<char>, i: int) -> bool {
    &&& 0 <= i < patterns.len()
    &&& pattern_matches(patterns[i], text)
    &&& forall|j: int| 0 <= j < i ==> !pattern_matches(#[trigger] patterns[j], text)
}

/// `Regex::new`: compiles a pattern without options, or says why it cannot.
#[verifier::external_body]
pub(crate) fn compile(pattern: &str) -> (r: Result<Regex, regex::Error>)
    ensures
        r is Ok == pattern_compiles(pattern@),
        r matches Ok(regex) ==> regex_pattern(regex) == pattern@ && regex_is_plain(regex),
{
    Regex::new(pattern)
}

/// `RegexSet::new`: compiles a list of patterns without options into one
/// set, which keeps the patterns in the order given.
#[verifier::external_body]
pub(crate) fn compile_set(patterns: &Vec<String>) -> (r: Result<RegexSet, regex::Error>)
    ensures
        r is Ok == pattern_set_compiles(patterns.deep_view()),
        r matches Ok(set) ==> set_patterns(set) == patterns.deep_view() && set_is_plain(set),
{
    RegexSet::new(patterns)
}

/// `RegexSet::patterns`: the patterns that the set was made from, in order.
#[verifier::external_body]
pub(crate) fn patterns_of(set: &RegexSet) -> (r: &[String])
    ensures
        r.deep_view() == set_patterns(*set),
{
    set.patterns()
}

/// `RegexSet::matches`, and the first index that iterating over its result
/// gives. The result holds the index of each pattern of the set that matches
/// in the text, and the iteration goes up through the indices: so this is
/// the index of the first pattern that matches. Stated of a plain set.
#[verifier::external_body]
pub(crate) fn first_match(set: &RegexSet, text: &str) -> (r: Option<usize>)
    requires
        set_is_plain(*set),
    ensures
        match r {
            Some(i) => is_first_match(set_patterns(*set), text@, i as int),
            None => forall|j: int|
                0 <= j < set_patterns(*set).len() ==> !pattern_matches(
                    #[trigger] set_patterns(*set)[j],
                    text@,
                ),
        },
{
    set.matches(text).into_iter().next()
}

/// `Regex::captures`, with each group of the result written out: its name as
/// `Regex::capture_names` gives it, and the text that it matched as
/// `Captures::iter` gives it. Stated of a plain regular expression.
#[verifier::external_body]
pub(crate) fn captures(regex: &Regex, text: &str) -> (r: Option<Vec<(Option<String>, Option<String>)>>)
    requires
        regex_is_plain(*regex),
    ensures
        r.deep_view() == pattern_captures(regex_pattern(*regex), text@),
{
    regex.captures(text).map(
        |found|
            regex.capture_names().zip(found.iter()).map(
                |(name, part)| (name.map(String::from), part.map(|m| String::from(m.as_str()))),
            ).collect(),
    )
}

/// `Regex::replace_all` with a replacement text: the text with every match
/// replaced. Stated of a plain regular expression.
#[verifier::external_body]
pub(crate) fn replace_all(regex: &Regex, text: &str, replacement: &str) -> (r: String)
    requires
        regex_is_plain(*regex),
    ensures
        r@ == pattern_replaced(regex_pattern(*regex), text@, replacement@),
{
    regex.replace_all(text, replacement).into_owned()
}

} // verus!
