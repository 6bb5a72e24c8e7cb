//! The names that a title goes by.

use vstd::prelude::*;
use super::copies::clone_text;
use super::models::Media;
use super::views::{text, MediaTitleView, MediaView};

verus! {

/// The values in the first `n` slots of a list, in order.
pub open spec fn present<T>(slots: Seq<Option<T>>, n: nat) -> Seq<T>
    decreases n,
{
    if n == 0 || n > slots.len() {
        Seq::empty()
    } else {
        match slots[n - 1] {
            Some(x) => present(slots, (n - 1) as nat).push(x),
            None => present(slots, (n - 1) as nat),
        }
    }
}

/// The values of a list in which the list and any slot may be absent.
pub open spec fn listed<T>(list: Option<Seq<Option<T>>>) -> Seq<T> {
    match list {
        Some(slots) => present(slots, slots.len()),
        None => Seq::empty(),
    }
}

/// A value that may be absent, as a list of at most one.
pub open spec fn known<T>(o: Option<T>) -> Seq<T> {
    match o {
        Some(x) => seq![x],
        None => Seq::empty(),
    }
}

impl MediaTitleView {
    /// The variants of the title that are known: romaji, the user's preferred
    /// one, native and English, in this order.
    pub open spec fn variants(self) -> Seq<Seq<char>> {
        known(self.romaji) + known(self.user_preferred) + known(self.native) + known(self.english)
    }
}

impl MediaView {
    /// Every name of the title: the known variants, then the known synonyms.
    pub open spec fn all_titles(self) -> Seq<Seq<char>> {
        (match self.title {
            Some(title) => title.variants(),
            None => Seq::empty(),
        }) + listed(self.synonyms)
    }

    /// The variant of the title that the user prefers.
    pub open spec fn preferred_title(self) -> Option<Seq<char>> {
        match self.title {
            Some(title) => title.user_preferred,
            None => None,
        }
    }

    /// The title to show: the variant that the user prefers, else the romaji one.
    pub open spec fn display_title(self) -> Option<Seq<char>> {
        match self.title {
            Some(title) => match title.user_preferred {
                Some(preferred) => Some(preferred),
                None => title.romaji,
            },
            None => None,
        }
    }

    /// The address of the large cover image.
    pub open spec fn cover_image_url(self) -> Option<Seq<char>> {
        match self.cover_image {
            Some(cover) => cover.large,
            None => None,
        }
    }
}

/// The characters of each of a list of strings.
pub open spec fn characters(names: Seq<&String>) -> Seq<Seq<char>> {
    Seq::new(names.len(), |i: int| names[i]@)
}

/// Adds a name to a list, where it is known.
fn push_known<'a>(names: &mut Vec<&'a String>, name: &'a Option<String>)
    ensures
        characters(final(names)@) == characters(old(names)@) + known(text(*name)),
{
    match name {
        Some(name) => {
            names.push(name);
        },
        None => {},
    }
}

impl Media {
    /// Every name of the title: the known variants (romaji, the user's
    /// preferred one, native, English), then the known synonyms.
    pub fn all_titles(&self) -> (names: Vec<&String>)
        ensures
            characters(names@) == self@.all_titles(),
    {
        let mut names: Vec<&String> = Vec::new();
        match &self.title {
            Some(title) => {
                push_known(&mut names, &title.romaji);
                push_known(&mut names, &title.user_preferred);
                push_known(&mut names, &title.native);
                push_known(&mut names, &title.english);
            },
            None => {},
        }
        match &self.synonyms {
            Some(synonyms) => {
                let ghost variants = characters(names@);
                let ghost slots = self@.synonyms->0;
                let mut i: usize = 0;
                while i < synonyms.len()
                    invariant
                        i <= synonyms.len(),
                        slots.len() == synonyms@.len(),
                        forall|j: int| 0 <= j < slots.len() ==> slots[j] == text(synonyms@[j]),
                        characters(names@) == variants + present(slots, i as nat),
                    decreases synonyms.len() - i,
                {
                    push_known(&mut names, &synonyms[i]);
                    i += 1;
                }
            },
            None => {},
        }
        names
    }

    /// The variant of the title that the user prefers.
    pub fn preferred_title(&self) -> (r: Option<String>)
        ensures
            text(r) == self@.preferred_title(),
    {
        match &self.title {
            Some(title) => clone_text(&title.user_preferred),
            None => None,
        }
    }

    /// The title to show: the variant that the user prefers, else the romaji one.
    pub fn display_title(&self) -> (r: Option<String>)
        ensures
            text(r) == self@.display_title(),
    {
        match &self.title {
            Some(title) => match &title.user_preferred {
                Some(preferred) => Some(preferred.clone()),
                None => clone_text(&title.romaji),
            },
            None => None,
        }
    }

    /// The address of the large cover image.
    pub fn cover_image_url(&self) -> (r: Option<String>)
        ensures
            text(r) == self@.cover_image_url(),
    {
        match &self.cover_image {
            Some(cover) => clone_text(&cover.large),
            None => None,
        }
    }
}

} // verus!
