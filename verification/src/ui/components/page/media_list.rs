//! The page of one category's lists.

use vstd::prelude::*;
use crate::anilist::models::{MediaListCollection, MediaType};
use crate::anilist::views::{view_opt, MediaListCollectionView, MediaListView};
use crate::app::commands::none;
use crate::app::{views, App, AppView, Command, CommandView};

verus! {

/// A group of the lists was selected.
#[derive(Debug, Clone)]
pub struct ListGroupSelected {
    pub index: usize,
    pub media_type: MediaType,
}

/// The button that adds one to the progress of an entry was pressed.
#[derive(Debug, Clone)]
pub struct IncrementMediaProgress {
    pub media_id: i32,
    pub media_type: MediaType,
    pub is_volume_progress: bool,
}

/// The text that filters the entries was changed.
#[derive(Debug, Clone)]
pub struct ListFilterTextChange {
    pub value: String,
    pub media_type: MediaType,
}

/// What the page shows: the lists, which group of them is selected, and the
/// text that filters the entries.
#[derive(Debug, Clone)]
pub struct MediaListPage {
    pub list: Option<MediaListCollection>,
    pub media_type: MediaType,
    pub selected_index: usize,
    pub filter: String,
}

/// The view of the page.
pub ghost struct MediaListPageView {
    pub list: Option<MediaListCollectionView>,
    pub media_type: MediaType,
    pub selected_index: usize,
    pub filter: Seq<char>,
}

impl View for MediaListPage {
    type V = MediaListPageView;

    open spec fn view(&self) -> MediaListPageView {
        MediaListPageView {
            list: view_opt(self.list),
            media_type: self.media_type,
            selected_index: self.selected_index,
            filter: self.filter@,
        }
    }
}

impl MediaListPageView {
    /// The page of a category before any lists have arrived: no lists, the
    /// first group selected, and no filter.
    pub open spec fn empty(media_type: MediaType) -> Self {
        MediaListPageView { list: None, media_type, selected_index: 0, filter: Seq::empty() }
    }
}

impl MediaListPage {
    /// The page of a category, with no lists yet.
    pub fn new(media_type: MediaType) -> (r: Self)
        ensures
            r@ == MediaListPageView::empty(media_type),
    {
        MediaListPage { list: None, media_type, selected_index: 0, filter: String::new() }
    }

    /// Replaces the lists by those of a fresh fetch; none after a logout.
    pub fn set_list(&mut self, list: Option<MediaListCollection>)
        ensures
            final(self)@ == (MediaListPageView { list: view_opt(list), ..old(self)@ }),
    {
        self.list = list;
    }

    /// The lists, to be changed in place.
    pub fn get_list_mut(&mut self) -> (r: Option<&mut MediaListCollection>)
        ensures
            match r {
                Some(list) => old(self)@.list == Some(list@) && final(self)@ == (MediaListPageView {
                    list: Some(final(list)@),
                    ..old(self)@
                }),
                None => old(self)@.list is None && final(self)@ == old(self)@,
            },
    {
        self.list.as_mut()
    }

    /// The lists.
    pub fn get_list(&self) -> (r: Option<&MediaListCollection>)
        ensures
            view_opt(r) == self@.list,
    {
        self.list.as_ref()
    }

    /// Selects another group of the lists.
    pub fn change_list_group(&mut self, index: usize)
        ensures
            final(self)@ == (MediaListPageView { selected_index: index, ..old(self)@ }),
    {
        self.selected_index = index;
    }

    /// Filters the entries by another text.
    pub fn set_filter(&mut self, value: String)
        ensures
            final(self)@ == (MediaListPageView { filter: value@, ..old(self)@ }),
    {
        self.filter = value;
    }
}

impl ListGroupSelected {
    /// The page of the category selects the group.
    pub open spec fn handles(self, before: AppView, after: AppView, commands: Seq<CommandView>) -> bool {
        &&& after == (AppView {
            page: before.page.with_list_page(
                self.media_type,
                MediaListPageView { selected_index: self.index, ..before.page.list_page(self.media_type) },
            ),
            ..before
        })
        &&& commands == Seq::<CommandView>::empty()
    }

    /// Takes the step of a selected group.
    pub fn handle(self, app: &mut App) -> (r: Vec<Command>)
        ensures
            self.handles(old(app)@, final(app)@, views(r@)),
    {
        app.page.list_page_mut(self.media_type).change_list_group(self.index);
        none()
    }
}

impl ListFilterTextChange {
    /// The page of the category filters by the text.
    pub open spec fn handles(self, before: AppView, after: AppView, commands: Seq<CommandView>) -> bool {
        &&& after == (AppView {
            page: before.page.with_list_page(
                self.media_type,
                MediaListPageView { filter: self.value@, ..before.page.list_page(self.media_type) },
            ),
            ..before
        })
        &&& commands == Seq::<CommandView>::empty()
    }

    /// Takes the step of a changed filter.
    pub fn handle(self, app: &mut App) -> (r: Vec<Command>)
        ensures
            self.handles(old(app)@, final(app)@, views(r@)),
    {
        app.page.list_page_mut(self.media_type).set_filter(self.value);
        none()
    }
}

impl MediaListView {
    /// The count that a press of the button adds to: the volumes or the progress.
    pub open spec fn counted(self, volumes: bool) -> Option<i32> {
        if volumes {
            self.progress_volumes
        } else {
            self.progress
        }
    }

    /// The length that the count stops at, where it is known: the media's
    /// volumes, or its episodes or chapters by the category of the page.
    pub open spec fn cap(self, volumes: bool, category: MediaType) -> Option<i32> {
        match self.media {
            Some(media) => if volumes {
                media.volumes
            } else {
                match category {
                    MediaType::Anime => media.episodes,
                    MediaType::Manga => media.chapters,
                }
            },
            None => None,
        }
    }

    /// Whether a press of the button adds one to the count: the count is
    /// known, it is below the length where that is known, and it is not the
    /// largest number there is.
    pub open spec fn can_count_up(self, volumes: bool, category: MediaType) -> bool {
        &&& self.counted(volumes) matches Some(count)
        &&& count < i32::MAX
        &&& (self.cap(volumes, category) matches Some(cap) ==> count < cap)
    }

    /// The entry with one added to the count.
    pub open spec fn counted_up(self, volumes: bool) -> Self {
        if volumes {
            MediaListView { progress_volumes: Some((self.progress_volumes->0 + 1) as i32), ..self }
        } else {
            MediaListView { progress: Some((self.progress->0 + 1) as i32), ..self }
        }
    }
}

impl IncrementMediaProgress {
    /// The entry that the button belongs to: the first entry for the media
    /// in the lists of the category, with its index; none where there is no
    /// such entry, and where one cannot be added to its count.
    pub open spec fn target(self, before: AppView) -> Option<int> {
        match before.page.list_page(self.media_type).list {
            Some(list) => match list.index_of(self.media_id) {
                Some(k) => if list.entries()[k].can_count_up(self.is_volume_progress, self.media_type) {
                    Some(k)
                } else {
                    None
                },
                None => None,
            },
            None => None,
        }
    }

    /// Where one can be added to the count of the entry, the entry in the
    /// list takes the new count and is queued at the time `now`. Else
    /// nothing happens.
    pub open spec fn handles(
        self,
        before: AppView,
        after: AppView,
        commands: Seq<CommandView>,
        now: u64,
    ) -> bool {
        &&& commands == Seq::<CommandView>::empty()
        &&& match self.target(before) {
            Some(k) => {
                let page = before.page.list_page(self.media_type);
                let list = page.list->0;
                let entry = list.entries()[k].counted_up(self.is_volume_progress);
                after == (AppView {
                    page: before.page.with_list_page(
                        self.media_type,
                        MediaListPageView {
                            list: Some(list.with_slot(list.places()[k].0, list.places()[k].1, entry)),
                            ..page
                        },
                    ),
                    updates: before.updates.enqueued(entry, now),
                    ..before
                })
            },
            None => after == before,
        }
    }

    /// Takes the step of a press of the button at the time `now`.
    pub fn handle(self, app: &mut App, now: u64) -> (r: Vec<Command>)
        ensures
            self.handles(old(app)@, final(app)@, views(r@), now),
    {
        let can = match app.page.list_page(self.media_type).get_list() {
            Some(list) => match list.find_entry_by_id(self.media_id) {
                Some(entry) => can_count_up(entry, self.is_volume_progress, self.media_type),
                None => false,
            },
            None => false,
        };
        if !can {
            return none();
        }
        let list = match app.page.list_page_mut(self.media_type).get_list_mut() {
            Some(list) => list,
            None => unreached(),
        };
        let entry = match list.find_entry_by_id_mut(self.media_id) {
            Some(entry) => entry,
            None => unreached(),
        };
        if self.is_volume_progress {
            match entry.progress_volumes {
                Some(count) => {
                    entry.progress_volumes = Some(count + 1);
                },
                None => {},
            }
        } else {
            match entry.progress {
                Some(count) => {
                    entry.progress = Some(count + 1);
                },
                None => {},
            }
        }
        let queued = entry.clone();
        app.updates.enqueue(queued, now);
        none()
    }
}

/// Whether a press of the button adds one to the count of an entry.
fn can_count_up(entry: &crate::anilist::models::MediaList, volumes: bool, category: MediaType) -> (r: bool)
    ensures
        r == entry@.can_count_up(volumes, category),
{
    let cap = match &entry.media {
        Some(media) => if volumes {
            media.volumes
        } else {
            match category {
                MediaType::Anime => media.episodes,
                MediaType::Manga => media.chapters,
            }
        },
        None => None,
    };
    let count = if volumes {
        entry.progress_volumes
    } else {
        entry.progress
    };
    match count {
        Some(count) => {
            let below = match cap {
                Some(cap) => count < cap,
                None => true,
            };
            below && count < i32::MAX
        },
        None => false,
    }
}

} // verus!
