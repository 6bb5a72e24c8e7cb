//! Deep copies of the catalog types. Each copy has the view of the value that it was made from.

use vstd::prelude::*;
use super::models::{
    Media, MediaConnection, MediaCoverImage, MediaEdge, MediaList, MediaListCollection,
    MediaListGroup, MediaTitle,
};
use super::views::{lemma_connection_view, text, texts, view_opt, view_slots};

verus! {

/// Copies a string that may be absent.
pub fn clone_text(s: &Option<String>) -> (r: Option<String>)
    ensures
        r == *s,
        text(r) == text(*s),
{
    match s {
        Some(s) => Some(s.clone()),
        None => None,
    }
}

/// Whether two texts that may be absent are the same.
pub fn same_text(a: &Option<String>, b: &Option<String>) -> (r: bool)
    ensures
        r == (text(*a) == text(*b)),
{
    match (a, b) {
        (Some(a), Some(b)) => *a == *b,
        (None, None) => true,
        _ => false,
    }
}

/// Copies a list of strings in which the list and any slot may be absent.
pub fn clone_texts(list: &Option<Vec<Option<String>>>) -> (r: Option<Vec<Option<String>>>)
    ensures
        texts(r) == texts(*list),
{
    match list {
        Some(v) => {
            let mut out: Vec<Option<String>> = Vec::new();
            let mut i: usize = 0;
            while i < v.len()
                invariant
                    i <= v.len(),
                    out.len() == i,
                    forall|j: int| 0 <= j < i ==> text(out@[j]) == text(v@[j]),
                decreases v.len() - i,
            {
                out.push(clone_text(&v[i]));
                i += 1;
            }
            let r = Some(out);
            r
        },
        None => None,
    }
}

/// Copies a list in which the list and any slot may be absent, slot by slot.
pub(crate) fn clone_slots<T: View + Clone>(list: &Option<Vec<Option<T>>>) -> (r: Option<Vec<Option<T>>>)
    requires
        forall|a: T, b: T| cloned::<T>(a, b) ==> a@ == b@,
    ensures
        view_slots(r) == view_slots(*list),
{
    match list {
        Some(v) => {
            let mut out: Vec<Option<T>> = Vec::new();
            let mut i: usize = 0;
            while i < v.len()
                invariant
                    i <= v.len(),
                    out.len() == i,
                    forall|a: T, b: T| cloned::<T>(a, b) ==> a@ == b@,
                    forall|j: int| 0 <= j < i ==> view_opt(out@[j]) == view_opt(v@[j]),
                decreases v.len() - i,
            {
                let slot = match &v[i] {
                    Some(x) => {
                        let y = x.clone();
                        assert(cloned::<T>(*x, y));
                        Some(y)
                    },
                    None => None,
                };
                out.push(slot);
                i += 1;
            }
            let r = Some(out);
            r
        },
        None => None,
    }
}

impl Clone for MediaTitle {
    fn clone(&self) -> (r: Self)
        ensures
            r@ == self@,
    {
        MediaTitle {
            romaji: clone_text(&self.romaji),
            english: clone_text(&self.english),
            native: clone_text(&self.native),
            user_preferred: clone_text(&self.user_preferred),
        }
    }
}

impl Clone for MediaCoverImage {
    fn clone(&self) -> (r: Self)
        ensures
            r@ == self@,
    {
        MediaCoverImage { large: clone_text(&self.large) }
    }
}

impl Clone for Media {
    fn clone(&self) -> (r: Self)
        ensures
            r@ == self@,
        decreases self,
    {
        Media {
            id: self.id,
            title: match &self.title {
                Some(t) => Some(t.clone()),
                None => None,
            },
            media_type: self.media_type,
            synonyms: clone_texts(&self.synonyms),
            cover_image: match &self.cover_image {
                Some(c) => Some(c.clone()),
                None => None,
            },
            description: clone_text(&self.description),
            format: self.format,
            is_licensed: self.is_licensed,
            relations: match &self.relations {
                Some(c) => Some(c.clone()),
                None => None,
            },
            episodes: self.episodes,
            chapters: self.chapters,
            volumes: self.volumes,
            media_list_entry: match &self.media_list_entry {
                Some(e) => Some(Box::new((&**e).clone())),
                None => None,
            },
        }
    }
}

impl Clone for MediaConnection {
    fn clone(&self) -> (r: Self)
        ensures
            r@ == self@,
        decreases self,
    {
        match &self.edges {
            Some(v) => {
                let mut out: Vec<Option<MediaEdge>> = Vec::new();
                let mut i: usize = 0;
                while i < v.len()
                    invariant
                        i <= v.len(),
                        out.len() == i,
                        self.edges == Some(*v),
                        forall|j: int| 0 <= j < i ==> view_opt(out@[j]) == view_opt(v@[j]),
                    decreases v.len() - i,
                {
                    proof {
                        assert(decreases_to!(self.edges => self.edges->0));
                    }
                    let slot = match &v[i] {
                        Some(e) => Some(e.clone()),
                        None => None,
                    };
                    out.push(slot);
                    i += 1;
                }
                let r = MediaConnection { edges: Some(out) };
                proof {
                    lemma_connection_view(r);
                    lemma_connection_view(*self);
                    assert(view_slots(r.edges)->0 =~= view_slots(self.edges)->0);
                }
                r
            },
            None => MediaConnection { edges: None },
        }
    }
}

impl Clone for MediaEdge {
    fn clone(&self) -> (r: Self)
        ensures
            r@ == self@,
        decreases self,
    {
        MediaEdge {
            node: match &self.node {
                Some(m) => Some(m.clone()),
                None => None,
            },
            relation_type: self.relation_type,
        }
    }
}

impl Clone for MediaList {
    fn clone(&self) -> (r: Self)
        ensures
            r@ == self@,
        decreases self,
    {
        MediaList {
            id: self.id,
            media_id: self.media_id,
            status: self.status,
            progress: self.progress,
            progress_volumes: self.progress_volumes,
            score_bits: self.score_bits,
            started_at: self.started_at,
            completed_at: self.completed_at,
            media: match &self.media {
                Some(m) => Some(m.clone()),
                None => None,
            },
        }
    }
}

impl Clone for MediaListGroup {
    fn clone(&self) -> (r: Self)
        ensures
            r@ == self@,
    {
        MediaListGroup {
            entries: clone_slots(&self.entries),
            name: clone_text(&self.name),
            is_custom_list: self.is_custom_list,
            is_split_completed_list: self.is_split_completed_list,
            status: self.status,
        }
    }
}

impl Clone for MediaListCollection {
    fn clone(&self) -> (r: Self)
        ensures
            r@ == self@,
    {
        MediaListCollection { lists: clone_slots(&self.lists) }
    }
}

} // verus!
