//! Turning an absolute episode number into one within a season.
//!
//! Some sources count episodes across all seasons of a franchise, while the
//! catalog counts them per season. Where a recognised number is beyond the
//! length of the matched season, the seasons before it are walked back along
//! the prequel chain and their episodes taken off.

use vstd::prelude::*;
use super::models::{Media, MediaList, MediaListCollection};
use super::views::{view_opt, MediaListCollectionView, MediaListView, MediaView};

verus! {

/// A number as an `i32`, where it is in the range of one.
pub open spec fn in_range(x: int) -> Option<i32> {
    if i32::MIN <= x <= i32::MAX {
        Some(x as i32)
    } else {
        None
    }
}

impl MediaListCollectionView {
    /// The episodes of the season `media` together with those of the earlier
    /// seasons that the episode number `new_progress` reaches back over, as
    /// far as the walk can tell within `budget` steps along the prequel chain.
    ///
    /// - Unknown where the season's length is unknown.
    /// - The season's length where the number fits in it, and where the
    ///   season has no prequel or more than one.
    /// - Unknown where the prequel is not among the entries, or where the
    ///   entry holds no media or no length.
    /// - Both lengths together where the number fits in the two seasons.
    /// - Else the season's length and the total of the prequel, or the
    ///   season's length alone where that total is unknown or the budget is
    ///   used up.
    /// - Unknown where a sum leaves the range of `i32`.
    pub open spec fn total_episodes(self, media: MediaView, new_progress: i32, budget: nat) -> Option<i32>
        decreases budget,
    {
        match media.episodes {
            None => None,
            Some(length) => if new_progress <= length {
                Some(length)
            } else {
                match media.prequel() {
                    None => Some(length),
                    Some(node) => match self.tracked_media(node.id) {
                        None => None,
                        Some(prequel) => match prequel.episodes {
                            None => None,
                            Some(episodes) => if episodes + length < new_progress {
                                if budget == 0 {
                                    Some(length)
                                } else {
                                    match self.total_episodes(prequel, new_progress, (budget - 1) as nat) {
                                        Some(earlier) => in_range(length + earlier),
                                        None => Some(length),
                                    }
                                }
                            } else {
                                in_range(episodes + length)
                            },
                        },
                    },
                }
            },
        }
    }

    /// The media of the first entry for the media `id`.
    pub open spec fn tracked_media(self, id: i32) -> Option<MediaView> {
        match self.find(id) {
            Some(entry) => entry.media,
            None => None,
        }
    }

    /// The episode number within the season of `entry` that the absolute
    /// number `new_progress` stands for: the number less the episodes of the
    /// earlier seasons. None where the number is within the season's length,
    /// and where the total is unknown. A season of unknown length counts as
    /// empty. A negative offset means that the number lies beyond this season.
    pub open spec fn progress_offset(self, entry: MediaListView, new_progress: i32) -> Option<i32> {
        match entry.media {
            None => None,
            Some(media) => {
                let length = match media.episodes {
                    Some(length) => length,
                    None => 0i32,
                };
                if new_progress > length {
                    match self.total_episodes(media, new_progress, self.entries().len()) {
                        Some(total) => in_range(new_progress - total + length),
                        None => None,
                    }
                } else {
                    None
                }
            },
        }
    }

    /// The offset of `new_progress` in the season of the first entry for the media `id`.
    pub open spec fn progress_offset_by_id(self, id: i32, new_progress: i32) -> Option<i32> {
        match self.find(id) {
            Some(entry) => self.progress_offset(entry, new_progress),
            None => None,
        }
    }

    /// The offset of `new_progress` in the season that continues the media
    /// `id`, together with that season's media id.
    pub open spec fn progress_offset_for_sequel(self, id: i32, new_progress: i32) -> Option<(i32, i32)> {
        match self.tracked_media(id) {
            Some(media) => match media.sequel() {
                Some(sequel) => match self.progress_offset_by_id(sequel.id, new_progress) {
                    Some(offset) => Some((offset, sequel.id)),
                    None => None,
                },
                None => None,
            },
            None => None,
        }
    }
}

/// A sum of two numbers as an `i32`, where it is in the range of one.
fn checked_sum(a: i32, b: i32) -> (r: Option<i32>)
    ensures
        r == in_range(a + b),
{
    a.checked_add(b)
}

impl MediaListCollection {
    /// The media of the first entry for the media `id`.
    pub fn find_media_by_id(&self, id: i32) -> (r: Option<&Media>)
        ensures
            view_opt(r) == self@.tracked_media(id),
    {
        match self.find_entry_by_id(id) {
            Some(entry) => entry.media.as_ref(),
            None => None,
        }
    }

    /// The walk of `compute_total_episodes`, with the steps that it may still take.
    fn total_episodes_within(&self, media: &Media, new_progress: i32, budget: usize) -> (r: Option<i32>)
        ensures
            r == self@.total_episodes(media@, new_progress, budget as nat),
        decreases budget,
    {
        let length = match media.episodes {
            Some(length) => length,
            None => {
                return None;
            },
        };
        if new_progress <= length {
            return Some(length);
        }
        let node = match media.find_anime_prequel() {
            Some(node) => node,
            None => {
                return Some(length);
            },
        };
        let prequel = match self.find_media_by_id(node.id) {
            Some(prequel) => prequel,
            None => {
                return None;
            },
        };
        let episodes = match prequel.episodes {
            Some(episodes) => episodes,
            None => {
                return None;
            },
        };
        if (episodes as i64) + (length as i64) < new_progress as i64 {
            if budget == 0 {
                Some(length)
            } else {
                match self.total_episodes_within(prequel, new_progress, budget - 1) {
                    Some(earlier) => checked_sum(length, earlier),
                    None => Some(length),
                }
            }
        } else {
            checked_sum(episodes, length)
        }
    }

    /// The episodes of the season `media` together with those of the earlier
    /// seasons that the episode number `new_progress` reaches back over.
    ///
    /// The walk along the prequel chain takes no more steps than there are
    /// entries, so it ends on every relation graph, also on one with a cycle.
    pub fn compute_total_episodes(&self, media: &Media, new_progress: i32) -> (r: Option<i32>)
        ensures
            r == self@.total_episodes(media@, new_progress, self@.entries().len()),
    {
        let budget = self.count_entries();
        self.total_episodes_within(media, new_progress, budget)
    }

    /// The episode number within the season of `entry` that the absolute
    /// number `new_progress` stands for.
    pub fn compute_progress_offset(&self, entry: &MediaList, new_progress: i32) -> (r: Option<i32>)
        ensures
            r == self@.progress_offset(entry@, new_progress),
    {
        let media = match &entry.media {
            Some(media) => media,
            None => {
                return None;
            },
        };
        let length = match media.episodes {
            Some(length) => length,
            None => 0,
        };
        if new_progress > length {
            match self.compute_total_episodes(media, new_progress) {
                Some(total) => {
                    let offset = (new_progress as i64) - (total as i64) + (length as i64);
                    if offset < i32::MIN as i64 || offset > i32::MAX as i64 {
                        None
                    } else {
                        Some(offset as i32)
                    }
                },
                None => None,
            }
        } else {
            None
        }
    }

    /// The offset of `new_progress` in the season of the first entry for the media `id`.
    pub fn compute_progress_offset_by_id(&self, id: i32, new_progress: i32) -> (r: Option<i32>)
        ensures
            r == self@.progress_offset_by_id(id, new_progress),
    {
        match self.find_entry_by_id(id) {
            Some(entry) => self.compute_progress_offset(entry, new_progress),
            None => None,
        }
    }

    /// The offset of `new_progress` in the season that continues the media
    /// `id`, together with that season's media id. None where the media is not
    /// tracked, where it has no sequel or more than one, and where the
    /// sequel's offset is unknown.
    pub fn compute_progress_offset_for_sequel(&self, id: i32, new_progress: i32) -> (r: Option<(i32, i32)>)
        ensures
            r == self@.progress_offset_for_sequel(id, new_progress),
    {
        let media = match self.find_media_by_id(id) {
            Some(media) => media,
            None => {
                return None;
            },
        };
        let sequel = match media.find_anime_sequel() {
            Some(sequel) => sequel,
            None => {
                return None;
            },
        };
        match self.compute_progress_offset_by_id(sequel.id, new_progress) {
            Some(offset) => Some((offset, sequel.id)),
            None => None,
        }
    }
}

} // verus!
