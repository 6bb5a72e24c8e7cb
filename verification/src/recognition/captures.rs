//! What a pattern captured in a window title.

use vstd::prelude::*;
use vstd::string::StringExecFns;

verus! {

/// The capture groups of one match, in the order of their opening brackets,
/// the whole match first. Each holds the group's name, if it has one, and
/// the text that it matched, if it took part in the match.
#[derive(Debug, Clone)]
pub struct Captures {
    pub groups: Vec<(Option<String>, Option<String>)>,
}

impl View for Captures {
    type V = Seq<(Option<Seq<char>>, Option<Seq<char>>)>;

    open spec fn view(&self) -> Self::V {
        self.groups.deep_view()
    }
}

/// Whether group `i` is the first of the name `name`.
pub open spec fn is_group_named(
    groups: Seq<(Option<Seq<char>>, Option<Seq<char>>)>,
    name: Seq<char>,
    i: int,
) -> bool {
    &&& 0 <= i < groups.len()
    &&& groups[i].0 == Some(name)
    &&& forall|j: int| 0 <= j < i ==> (#[trigger] groups[j]).0 != Some(name)
}

/// The text that the group of the name `name` matched: none where there is
/// no such group, and where it took no part in the match.
pub open spec fn named_group(groups: Seq<(Option<Seq<char>>, Option<Seq<char>>)>, name: Seq<char>) -> Option<
    Seq<char>,
> {
    if exists|i: int| is_group_named(groups, name, i) {
        groups[choose|i: int| is_group_named(groups, name, i)].1
    } else {
        None
    }
}

/// The characters of a string that may be absent.
pub open spec fn text_of(s: Option<&String>) -> Option<Seq<char>> {
    match s {
        Some(s) => Some(s@),
        None => None,
    }
}

impl Captures {
    /// The text that the group of the name `name` matched.
    pub fn name(&self, name: &str) -> (r: Option<&String>)
        ensures
            text_of(r) == named_group(self@, name@),
    {
        let wanted = String::from_str(name);
        let ghost groups = self@;
        let mut i: usize = 0;
        while i < self.groups.len()
            invariant
                i <= self.groups.len(),
                groups == self@,
                groups.len() == self.groups@.len(),
                wanted@ == name@,
                forall|j: int| 0 <= j < i ==> (#[trigger] groups[j]).0 != Some(name@),
            decreases self.groups.len() - i,
        {
            let group = &self.groups[i];
            let found = match &group.0 {
                Some(given) => *given == wanted,
                None => false,
            };
            if found {
                assert(is_group_named(groups, name@, i as int));
                return group.1.as_ref();
            }
            i += 1;
        }
        None
    }
}

} // verus!
