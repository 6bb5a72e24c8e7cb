//! Filtering the entries of a list by a text.
//!
//! An entry passes a filter where one of the names of its media holds the
//! filter's text, both taken in lower case. Every entry passes an empty
//! filter.

use vstd::prelude::*;
use super::models::{Media, MediaList};
use super::titles::characters;
use super::views::{MediaListView, MediaView};
use crate::text::{chars_of, occurs, occurs_in};

verus! {

/// A text in lower case: what `str::to_lowercase` makes of it.
pub uninterp spec fn lowercase(text: Seq<char>) -> Seq<char>;

/// `str::to_lowercase`: the text with each character replaced by its lower
/// case, as Unicode defines it.
#[verifier::external_body]
fn to_lowercase(text: &str) -> (r: String)
    ensures
        r@ == lowercase(text@),
{
    text.to_lowercase()
}

impl MediaView {
    /// Whether one of the names of the title holds the filter's text, in lower case.
    pub open spec fn titles_contain(self, filter: Seq<char>) -> bool {
        exists|k: int|
            0 <= k < self.all_titles().len() && occurs_in(lowercase(filter), lowercase(#[trigger] self.all_titles()[k]))
    }
}

impl MediaListView {
    /// Whether the entry passes the filter: the filter is empty, or one of
    /// the names of the entry's media holds its text.
    pub open spec fn titles_contain(self, filter: Seq<char>) -> bool {
        filter.len() == 0 || (self.media matches Some(media) && media.titles_contain(filter))
    }
}

impl Media {
    /// Whether one of the names of the title holds the filter's text, in lower case.
    pub fn titles_contain(&self, filter: &str) -> (r: bool)
        ensures
            r == self@.titles_contain(filter@),
    {
        let wanted = chars_of(to_lowercase(filter).as_str());
        let names = self.all_titles();
        let ghost titles = self@.all_titles();
        let mut k: usize = 0;
        while k < names.len()
            invariant
                k <= names.len(),
                titles == self@.all_titles(),
                characters(names@) == titles,
                wanted@ == lowercase(filter@),
                forall|j: int| 0 <= j < k ==> !occurs_in(lowercase(filter@), lowercase(#[trigger] titles[j])),
            decreases names.len() - k,
        {
            assert(characters(names@)[k as int] == names@[k as int]@);
            let name = chars_of(to_lowercase(names[k].as_str()).as_str());
            if occurs(&wanted, &name) {
                return true;
            }
            k += 1;
        }
        false
    }
}

impl MediaList {
    /// Whether the entry passes the filter: the filter is empty, or one of
    /// the names of the entry's media holds its text, in lower case.
    pub fn titles_contain(&self, filter: &str) -> (r: bool)
        ensures
            r == self@.titles_contain(filter@),
    {
        if filter.is_empty() {
            return true;
        }
        match &self.media {
            Some(media) => media.titles_contain(filter),
            None => false,
        }
    }
}

} // verus!
