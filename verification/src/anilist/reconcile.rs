//! Reconciling a recognised title with the user's lists.
//!
//! The search results of the list service name the catalog entry that a
//! recognised title stands for. Where the recognised episode number runs
//! across seasons, it is brought down to a number within the season, or the
//! entry of the next season takes the place of the one first matched. The
//! entry is then copied, and the copy takes the progress.

use vstd::prelude::*;
use super::models::{FuzzyDate, Media, MediaList, MediaListCollection, MediaType};
use super::search::{best_id, result_views};
use super::views::{view_opt, MediaListCollectionView, MediaListView, MediaView};
use crate::recognition::numbers::Number;
use crate::recognition::parse;
use crate::recognition::parse::RecognizedMedia;

verus! {

/// How a recognised title stands to the user's lists.
#[derive(Debug, Clone)]
pub enum Reconciled {
    /// The title names no search result, or there are no lists to look in.
    Nothing,
    /// The title names a search result that is in none of the lists.
    NotFound,
    /// The title names an entry: a copy of it with the progress applied,
    /// what was recognised with its number brought down to the season, and
    /// whether the progress moved the entry forward.
    Found { entry: MediaList, recognized: parse::Media, needs_update: bool },
}

/// The view of a reconciliation.
pub ghost enum Reconciliation {
    Nothing,
    NotFound,
    Found { entry: MediaListView, recognized: RecognizedMedia, needs_update: bool },
}

impl View for Reconciled {
    type V = Reconciliation;

    open spec fn view(&self) -> Reconciliation {
        match self {
            Reconciled::Nothing => Reconciliation::Nothing,
            Reconciled::NotFound => Reconciliation::NotFound,
            Reconciled::Found { entry, recognized, needs_update } => Reconciliation::Found {
                entry: entry@,
                recognized: recognized@,
                needs_update: *needs_update,
            },
        }
    }
}

/// The whole part of a number that may be absent.
pub open spec fn whole_of(number: Option<Number>) -> Option<i32> {
    match number {
        Some(number) => Some(number.whole),
        None => None,
    }
}

/// The views of a list of search results.
pub open spec fn media_views(results: Seq<Option<Media>>) -> Seq<Option<MediaView>> {
    Seq::new(results.len(), |i: int| view_opt(results[i]))
}

/// The recognised number after the offset of its season was found: the
/// offset where it is positive and below the number, nothing where it is
/// not, and the number as it was where no offset was found.
pub open spec fn corrected(progress: Option<Number>, offset: Option<i32>) -> Option<Number> {
    match (offset, progress) {
        (Some(offset), Some(seen)) => if 0 < offset < seen.whole {
            Some(Number { whole: offset, thousandths: 0 })
        } else {
            None
        },
        _ => progress,
    }
}

impl MediaListCollectionView {
    /// The season that the absolute episode number `new_progress` falls in,
    /// and the number within it: the media `id` with its offset, or, where
    /// that offset is negative and the next season is known, the next season
    /// with the offset in it.
    pub open spec fn season_of(self, id: i32, new_progress: i32) -> (i32, Option<i32>) {
        match self.progress_offset_by_id(id, new_progress) {
            Some(offset) => if offset < 0 {
                match self.progress_offset_for_sequel(id, new_progress) {
                    Some((sequel_offset, sequel_id)) => (sequel_id, Some(sequel_offset)),
                    None => (id, Some(offset)),
                }
            } else {
                (id, Some(offset))
            },
            None => (id, None),
        }
    }
}

/// The media that a recognised title names, and the offset of its number:
/// the search result `id`, or for anime with a number and lists to look in,
/// the season that the number falls in.
pub open spec fn target_of(
    list: Option<MediaListCollectionView>,
    recognized: RecognizedMedia,
    id: i32,
) -> (i32, Option<i32>) {
    match (recognized.media_type, list, recognized.progress) {
        (MediaType::Anime, Some(list), Some(seen)) => list.season_of(id, seen.whole),
        _ => (id, None),
    }
}

/// How a recognised title stands to the lists of its category, given the
/// search results for it and today's date.
pub open spec fn reconciled(
    list: Option<MediaListCollectionView>,
    results: Seq<Option<MediaView>>,
    recognized: RecognizedMedia,
    oneshot: bool,
    today: FuzzyDate,
) -> Reconciliation {
    match (best_id(results, recognized.title, oneshot), list) {
        (Some(id), Some(lists)) => {
            let (target, offset) = target_of(list, recognized, id);
            match lists.find(target) {
                Some(entry) => {
                    let progress = corrected(recognized.progress, offset);
                    let volume = whole_of(recognized.progress_volumes);
                    Reconciliation::Found {
                        entry: entry.with_progress(whole_of(progress), volume, today),
                        recognized: RecognizedMedia { progress, ..recognized },
                        needs_update: entry.is_advanced_by(whole_of(progress), volume),
                    }
                },
                None => Reconciliation::NotFound,
            }
        },
        _ => Reconciliation::Nothing,
    }
}

/// The whole part of a number that may be absent.
fn whole(number: Option<Number>) -> (r: Option<i32>)
    ensures
        r == whole_of(number),
{
    match number {
        Some(number) => Some(number.whole),
        None => None,
    }
}

/// References to the search results, slot by slot.
fn as_refs(results: &Vec<Option<Media>>) -> (r: Vec<Option<&Media>>)
    ensures
        result_views(r@) == media_views(results@),
{
    let mut out: Vec<Option<&Media>> = Vec::new();
    let mut i: usize = 0;
    while i < results.len()
        invariant
            i <= results.len(),
            out@.len() == i,
            forall|j: int| 0 <= j < i ==> view_opt(out@[j]) == view_opt(results@[j]),
        decreases results.len() - i,
    {
        out.push(results[i].as_ref());
        i += 1;
    }
    out
}

impl MediaListCollection {
    /// The season that the absolute episode number `new_progress` falls in,
    /// and the number within it.
    pub fn season_of(&self, id: i32, new_progress: i32) -> (r: (i32, Option<i32>))
        ensures
            r == self@.season_of(id, new_progress),
    {
        match self.compute_progress_offset_by_id(id, new_progress) {
            Some(offset) => {
                if offset < 0 {
                    match self.compute_progress_offset_for_sequel(id, new_progress) {
                        Some((sequel_offset, sequel_id)) => (sequel_id, Some(sequel_offset)),
                        None => (id, Some(offset)),
                    }
                } else {
                    (id, Some(offset))
                }
            },
            None => (id, None),
        }
    }
}

/// Reconciles a recognised title with the lists of its category, given the
/// search results for it and today's date.
pub fn reconcile(
    list: Option<&MediaListCollection>,
    results: &Vec<Option<Media>>,
    recognized: &parse::Media,
    oneshot: bool,
    today: FuzzyDate,
) -> (r: Reconciled)
    ensures
        r@ == reconciled(view_opt(list), media_views(results@), recognized@, oneshot, today),
{
    let candidates = as_refs(results);
    let id = match MediaListCollection::best_id_for_search(
        candidates.as_slice(),
        recognized.title.as_str(),
        oneshot,
    ) {
        Some(id) => id,
        None => {
            return Reconciled::Nothing;
        },
    };
    let lists = match list {
        Some(lists) => lists,
        None => {
            return Reconciled::Nothing;
        },
    };
    let (target, offset) = match recognized.media_type {
        MediaType::Anime => match recognized.progress {
            Some(seen) => lists.season_of(id, seen.whole),
            None => (id, None),
        },
        MediaType::Manga => (id, None),
    };
    let entry = match lists.find_entry_by_id(target) {
        Some(entry) => entry,
        None => {
            return Reconciled::NotFound;
        },
    };
    let progress = match offset {
        Some(offset) => match recognized.progress {
            Some(seen) => if 0 < offset && offset < seen.whole {
                Some(Number { whole: offset, thousandths: 0 })
            } else {
                None
            },
            None => None,
        },
        None => recognized.progress,
    };
    let mut copy = entry.clone();
    let needs_update = copy.update_progress_on(whole(progress), whole(recognized.progress_volumes), today);
    Reconciled::Found {
        entry: copy,
        recognized: parse::Media {
            title: recognized.title.clone(),
            media_type: recognized.media_type,
            progress,
            progress_volumes: recognized.progress_volumes,
        },
        needs_update,
    }
}

} // verus!
