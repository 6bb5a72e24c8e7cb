//! Applying newly observed progress to a tracking record.
//!
//! Progress only moves forward. A record with nothing stored stands at zero.
//! Volumes are stored as the number of volumes finished, while an observation
//! names the volume being read, counted from 1: reading volume `n` means that
//! `n - 1` volumes are finished.

use vstd::prelude::*;
use super::models::{FuzzyDate, MediaList, MediaListStatus, MediaType};
use super::views::MediaListView;

verus! {

/// The count that a record stands at: the stored one, and zero where
/// nothing is stored yet.
pub open spec fn standing(stored: Option<i32>) -> int {
    match stored {
        Some(count) => count as int,
        None => 0,
    }
}

/// Whether an observed count is strictly ahead of where the record stands.
/// A record with nothing stored stands at zero, so any count of at least 1
/// is ahead of it.
pub open spec fn is_ahead(stored: Option<i32>, seen: Option<int>) -> bool {
    seen matches Some(count) && count > standing(stored)
}

/// The count kept after `seen` was observed: the observed one where it is
/// ahead, else the one that the record stands at.
pub open spec fn advanced(stored: Option<i32>, seen: Option<int>) -> int {
    match seen {
        Some(count) => if count > standing(stored) {
            count
        } else {
            standing(stored)
        },
        None => standing(stored),
    }
}

/// An observed number as a count.
pub open spec fn counted(seen: Option<i32>) -> Option<int> {
    match seen {
        Some(count) => Some(count as int),
        None => None,
    }
}

/// The number of volumes finished when volume `seen` is being read: one
/// less than the volume's number, whatever the number is.
pub open spec fn finished_volumes(seen: Option<i32>) -> Option<int> {
    match seen {
        Some(volume) => Some(volume - 1),
        None => None,
    }
}

/// Whether a record in this status is put back to `Current` by its first unit of progress.
pub open spec fn restarts(status: Option<MediaListStatus>) -> bool {
    status matches Some(s) && (s == MediaListStatus::Current || s == MediaListStatus::Planning
        || s == MediaListStatus::Dropped || s == MediaListStatus::Paused)
}

impl MediaListView {
    /// The category of the record's media, where both are known.
    pub open spec fn category(self) -> Option<MediaType> {
        match self.media {
            Some(media) => media.media_type,
            None => None,
        }
    }

    /// Whether an observation of `progress` and of volume `volume` moves
    /// this record forward: the progress is ahead of the stored one, or, for
    /// manga, the volumes finished are ahead of the stored ones. Where
    /// nothing is stored, the record stands at zero.
    pub open spec fn is_advanced_by(self, progress: Option<i32>, volume: Option<i32>) -> bool {
        match self.category() {
            Some(MediaType::Anime) => is_ahead(self.progress, counted(progress)),
            Some(MediaType::Manga) => is_ahead(self.progress, counted(progress)) || is_ahead(
                self.progress_volumes,
                finished_volumes(volume),
            ),
            None => false,
        }
    }

    /// The record with the observed numbers stored, before any change of
    /// status: each count is the larger of the stored one and the observed
    /// one, and the volumes are `max(stored, volume - 1)`.
    pub open spec fn with_numbers(self, progress: Option<i32>, volume: Option<i32>) -> Self {
        match self.category() {
            Some(MediaType::Anime) => MediaListView {
                progress: Some(advanced(self.progress, counted(progress)) as i32),
                ..self
            },
            Some(MediaType::Manga) => MediaListView {
                progress: Some(advanced(self.progress, counted(progress)) as i32),
                progress_volumes: Some(advanced(self.progress_volumes, finished_volumes(volume)) as i32),
                ..self
            },
            None => self,
        }
    }

    /// Whether the stored progress has reached the end of the media.
    pub open spec fn is_finished(self) -> bool {
        match (self.media, self.progress) {
            (Some(media), Some(progress)) => match media.media_type {
                Some(MediaType::Anime) => media.episodes == Some(progress),
                Some(MediaType::Manga) => media.chapters == Some(progress) || media.volumes == Some(
                    progress,
                ),
                None => false,
            },
            _ => false,
        }
    }

    /// The record after its first unit of progress: started today, unless its
    /// status is one that progress does not touch.
    pub open spec fn started(self, today: FuzzyDate) -> Self {
        if self.progress == Some(1i32) && restarts(self.status) {
            MediaListView { status: Some(MediaListStatus::Current), started_at: Some(today), ..self }
        } else {
            self
        }
    }

    /// The record completed today, if its progress has reached the end of the media.
    pub open spec fn completed(self, today: FuzzyDate) -> Self {
        if self.is_finished() {
            MediaListView {
                status: Some(MediaListStatus::Completed),
                completed_at: Some(today),
                ..self
            }
        } else {
            self
        }
    }

    /// The record after an observation of `progress` and of volume `volume` on
    /// the day `today`. The status changes only where the observation moved
    /// the record forward.
    pub open spec fn with_progress(
        self,
        progress: Option<i32>,
        volume: Option<i32>,
        today: FuzzyDate,
    ) -> Self {
        let stored = self.with_numbers(progress, volume);
        if self.is_advanced_by(progress, volume) {
            stored.started(today).completed(today)
        } else {
            stored
        }
    }
}

/// Whether a second observation is no later than a first one: it has no
/// number, or the first one has a number that is no smaller.
pub open spec fn is_no_later(second: Option<i32>, first: Option<i32>) -> bool {
    match (second, first) {
        (Some(b), Some(a)) => b <= a,
        (Some(_), None) => false,
        (None, _) => true,
    }
}

/// Progress is monotonic: after an observation, a second one that is no
/// later in progress and in volume does not move the record forward and
/// leaves it as it is, whatever the days of the two observations.
pub proof fn lemma_progress_is_monotonic(
    entry: MediaListView,
    progress: Option<i32>,
    volume: Option<i32>,
    today: FuzzyDate,
    later_progress: Option<i32>,
    later_volume: Option<i32>,
    later_day: FuzzyDate,
)
    requires
        is_no_later(later_progress, progress),
        is_no_later(later_volume, volume),
    ensures
        !entry.with_progress(progress, volume, today).is_advanced_by(later_progress, later_volume),
        entry.with_progress(progress, volume, today).with_progress(later_progress, later_volume, later_day)
            == entry.with_progress(progress, volume, today),
{
}

/// An observation that does not move a record forward changes nothing of
/// it, where the record has its counts stored: no status changes, no date is
/// stamped, and the numbers stay, also at a progress of 1 and at the end of
/// the media.
pub proof fn lemma_no_increase_changes_nothing(
    entry: MediaListView,
    progress: Option<i32>,
    volume: Option<i32>,
    today: FuzzyDate,
)
    requires
        !entry.is_advanced_by(progress, volume),
        entry.progress is Some,
        entry.category() == Some(MediaType::Manga) ==> entry.progress_volumes is Some,
    ensures
        entry.with_progress(progress, volume, today) == entry,
{
}

/// The first observation of a record with nothing stored moves it forward
/// where it names a number of at least 1.
pub proof fn lemma_first_number_moves_forward(entry: MediaListView, progress: i32, volume: Option<i32>)
    requires
        entry.category() is Some,
        entry.progress is None,
        progress >= 1,
    ensures
        entry.is_advanced_by(Some(progress), volume),
        entry.with_numbers(Some(progress), volume).progress == Some(progress),
{
}

/// The count kept after `seen` was observed, and whether `seen` was ahead.
fn advance(stored: Option<i32>, seen: Option<i64>) -> (r: (i32, bool))
    requires
        seen matches Some(count) ==> count <= i32::MAX,
    ensures
        r.0 == advanced(stored, count_of(seen)),
        r.1 == is_ahead(stored, count_of(seen)),
{
    let standing: i32 = match stored {
        Some(count) => count,
        None => 0,
    };
    match seen {
        Some(count) => if count > standing as i64 {
            (count as i32, true)
        } else {
            (standing, false)
        },
        None => (standing, false),
    }
}

/// A count that may be absent, as a number without bounds.
pub open spec fn count_of(seen: Option<i64>) -> Option<int> {
    match seen {
        Some(count) => Some(count as int),
        None => None,
    }
}

/// An observed number as a count.
fn count(seen: Option<i32>) -> (r: Option<i64>)
    ensures
        count_of(r) == counted(seen),
        r matches Some(count) ==> count <= i32::MAX,
{
    match seen {
        Some(count) => Some(count as i64),
        None => None,
    }
}

/// The number of volumes finished when volume `seen` is being read.
fn finished(seen: Option<i32>) -> (r: Option<i64>)
    ensures
        count_of(r) == finished_volumes(seen),
        r matches Some(count) ==> count <= i32::MAX,
{
    match seen {
        Some(volume) => Some(volume as i64 - 1),
        None => None,
    }
}

impl MediaList {
    /// Stores an observation of `progress` and of the volume being read,
    /// stamping status changes with today's date. Returns whether the
    /// observation moved the record forward.
    pub fn update_progress(&mut self, progress: Option<i32>, progress_volumes: Option<i32>) -> (updated: bool)
        ensures
            updated == old(self)@.is_advanced_by(progress, progress_volumes),
            exists|today: FuzzyDate|
                today.is_calendar_day() && final(self)@ == #[trigger] old(self)@.with_progress(
                    progress,
                    progress_volumes,
                    today,
                ),
    {
        let today = FuzzyDate::today_local();
        self.update_progress_on(progress, progress_volumes, today)
    }

    /// Stores an observation of `progress` and of the volume being read, made
    /// on the day `today`. Returns whether the observation moved the record
    /// forward; only then can the status change.
    pub fn update_progress_on(
        &mut self,
        progress: Option<i32>,
        progress_volumes: Option<i32>,
        today: FuzzyDate,
    ) -> (updated: bool)
        ensures
            updated == old(self)@.is_advanced_by(progress, progress_volumes),
            final(self)@ == old(self)@.with_progress(progress, progress_volumes, today),
    {
        let (media_type, episodes, chapters, volumes) = match &self.media {
            Some(media) => match media.media_type {
                Some(media_type) => (media_type, media.episodes, media.chapters, media.volumes),
                None => {
                    return false;
                },
            },
            None => {
                return false;
            },
        };
        let (stored, mut updated) = advance(self.progress, count(progress));
        self.progress = Some(stored);
        match media_type {
            MediaType::Anime => {},
            MediaType::Manga => {
                let (stored_volumes, ahead) = advance(self.progress_volumes, finished(progress_volumes));
                self.progress_volumes = Some(stored_volumes);
                updated = updated || ahead;
            },
        }
        if updated {
            if stored == 1 {
                match self.status {
                    Some(MediaListStatus::Current)
                    | Some(MediaListStatus::Planning)
                    | Some(MediaListStatus::Dropped)
                    | Some(MediaListStatus::Paused) => {
                        self.status = Some(MediaListStatus::Current);
                        self.started_at = Some(today);
                    },
                    _ => {},
                }
            }
            let finished = match media_type {
                MediaType::Anime => is_count(episodes, stored),
                MediaType::Manga => is_count(chapters, stored) || is_count(volumes, stored),
            };
            if finished {
                self.status = Some(MediaListStatus::Completed);
                self.completed_at = Some(today);
            }
        }
        updated
    }
}

/// Whether a count is known and equal to `n`.
fn is_count(count: Option<i32>, n: i32) -> (r: bool)
    ensures
        r == (count == Some(n)),
{
    match count {
        Some(c) => c == n,
        None => false,
    }
}

} // verus!
