//! The page of the media that is playing.

use vstd::prelude::*;
use crate::anilist::models::MediaList;
use crate::anilist::views::{text, view_opt, MediaListView};
use crate::anilist::copies::same_text;
use crate::recognition::parse::{Media, RecognizedMedia};
use crate::app::commands::none;
use crate::app::{views, App, AppView, Command, CommandView};
use super::PageContainerView;

verus! {

/// Another cover is to be shown, or the default one.
#[derive(Debug, Clone)]
pub struct CoverChange(pub Option<Vec<u8>>);

/// Another entry is playing, or none: the entry, what was recognised of it,
/// and whether an update is pending for it.
#[derive(Debug, Clone)]
pub struct MediaChange(pub Option<MediaList>, pub Option<Media>, pub bool);

/// The pending update of a media is no longer to be cancelled: the user has
/// cancelled it, or it was sent already.
#[derive(Debug, Clone)]
pub struct CancelListUpdate(pub i32, pub bool);

/// What the page shows: the entry of the media that is playing, what was
/// recognised of it, its cover, and whether a pending update can be cancelled.
#[derive(Debug, Clone)]
pub struct CurrentMediaPage {
    pub show_cancel_update: bool,
    pub current: Option<MediaList>,
    pub recognized: Option<Media>,
    pub cover: Option<Vec<u8>>,
}

/// The view of the page.
pub ghost struct CurrentMediaPageView {
    pub show_cancel_update: bool,
    pub current: Option<MediaListView>,
    pub recognized: Option<RecognizedMedia>,
    pub cover: Option<Seq<u8>>,
}

/// The bytes of an image that may be absent.
pub open spec fn image(bytes: Option<Vec<u8>>) -> Option<Seq<u8>> {
    match bytes {
        Some(bytes) => Some(bytes@),
        None => None,
    }
}

impl View for CurrentMediaPage {
    type V = CurrentMediaPageView;

    open spec fn view(&self) -> CurrentMediaPageView {
        CurrentMediaPageView {
            show_cancel_update: self.show_cancel_update,
            current: view_opt(self.current),
            recognized: view_opt(self.recognized),
            cover: image(self.cover),
        }
    }
}

/// The title of an entry's media that the user prefers.
pub open spec fn preferred(entry: MediaListView) -> Option<Seq<char>> {
    match entry.media {
        Some(media) => media.preferred_title(),
        None => None,
    }
}

impl CurrentMediaPageView {
    /// The page after another entry was offered to it: the entry is shown
    /// where none was shown before, and where it goes by another preferred
    /// title than the one shown; no entry empties the page.
    pub open spec fn replaced_by(self, media_list: Option<MediaListView>) -> Self {
        match (media_list, self.current) {
            (None, _) => CurrentMediaPageView { current: None, ..self },
            (Some(offered), None) => CurrentMediaPageView { current: Some(offered), ..self },
            (Some(offered), Some(shown)) => if preferred(offered) is Some && preferred(shown) is Some
                && preferred(offered) != preferred(shown) {
                CurrentMediaPageView { current: Some(offered), ..self }
            } else {
                self
            },
        }
    }
}

/// The title of an entry's media that the user prefers.
fn preferred_title(entry: &MediaList) -> (r: Option<String>)
    ensures
        text(r) == preferred(entry@),
{
    match &entry.media {
        Some(media) => media.preferred_title(),
        None => None,
    }
}

impl CurrentMediaPage {
    /// Offers another entry to the page. The entry is shown where none was
    /// shown before, and where it goes by another preferred title than the
    /// one shown; no entry empties the page.
    pub fn replace_current_media(&mut self, media_list: Option<MediaList>)
        ensures
            final(self)@ == old(self)@.replaced_by(view_opt(media_list)),
    {
        let offered = match media_list {
            Some(offered) => offered,
            None => {
                self.current = None;
                return ;
            },
        };
        let replace = match &self.current {
            Some(shown) => {
                let title = preferred_title(&offered);
                let shown_title = preferred_title(shown);
                title.is_some() && shown_title.is_some() && !same_text(&title, &shown_title)
            },
            None => true,
        };
        if replace {
            self.current = Some(offered);
        }
    }

    /// Shows or hides the button that cancels the pending update.
    pub fn show_cancel_button(&mut self, show: bool)
        ensures
            final(self)@ == (CurrentMediaPageView { show_cancel_update: show, ..old(self)@ }),
    {
        self.show_cancel_update = show;
    }

    /// Shows another entry, with what was recognised of it.
    pub fn set_current_media(&mut self, media_list: Option<MediaList>, recognized: Option<Media>)
        ensures
            final(self)@ == (CurrentMediaPageView {
                current: view_opt(media_list),
                recognized: view_opt(recognized),
                ..old(self)@
            }),
    {
        self.current = media_list;
        self.recognized = recognized;
    }

    /// Shows another cover, or the default one.
    pub fn set_media_cover(&mut self, new_cover: Option<Vec<u8>>)
        ensures
            final(self)@ == (CurrentMediaPageView { cover: image(new_cover), ..old(self)@ }),
    {
        self.cover = new_cover;
    }
}

impl CoverChange {
    /// The page shows the cover.
    pub open spec fn handles(self, before: AppView, after: AppView, commands: Seq<CommandView>) -> bool {
        &&& after == (AppView {
            page: PageContainerView {
                current_media: CurrentMediaPageView { cover: image(self.0), ..before.page.current_media },
                ..before.page
            },
            ..before
        })
        &&& commands == Seq::<CommandView>::empty()
    }

    /// Takes the step of a change of cover.
    pub fn handle(self, app: &mut App) -> (r: Vec<Command>)
        ensures
            self.handles(old(app)@, final(app)@, views(r@)),
    {
        app.page.current_media.set_media_cover(self.0);
        none()
    }
}

impl MediaChange {
    /// The page shows the entry and what was recognised of it, and offers to
    /// cancel the update where one is pending. Without an entry it shows the
    /// default cover.
    pub open spec fn handles(self, before: AppView, after: AppView, commands: Seq<CommandView>) -> bool {
        &&& after == (AppView {
            page: PageContainerView {
                current_media: CurrentMediaPageView {
                    show_cancel_update: self.2,
                    current: view_opt(self.0),
                    recognized: view_opt(self.1),
                    cover: if self.0 is None {
                        None
                    } else {
                        before.page.current_media.cover
                    },
                },
                ..before.page
            },
            ..before
        })
        &&& commands == Seq::<CommandView>::empty()
    }

    /// Takes the step of a change of the media that is playing.
    pub fn handle(self, app: &mut App) -> (r: Vec<Command>)
        ensures
            self.handles(old(app)@, final(app)@, views(r@)),
    {
        let MediaChange(media_list, recognized, needs_update) = self;
        app.page.current_media.show_cancel_button(needs_update);
        if media_list.is_none() {
            app.page.current_media.set_media_cover(None);
        }
        app.page.current_media.set_current_media(media_list, recognized);
        none()
    }
}

impl CancelListUpdate {
    /// The page no longer offers to cancel the update, and the update is
    /// taken out of the queue unless it was sent already.
    pub open spec fn handles(self, before: AppView, after: AppView, commands: Seq<CommandView>) -> bool {
        &&& after == (AppView {
            page: PageContainerView {
                current_media: CurrentMediaPageView { show_cancel_update: false, ..before.page.current_media },
                ..before.page
            },
            updates: if self.1 {
                before.updates
            } else {
                before.updates.cancelled(self.0)
            },
            ..before
        })
        &&& commands == Seq::<CommandView>::empty()
    }

    /// Takes the step of a cancelled update.
    pub fn handle(self, app: &mut App) -> (r: Vec<Command>)
        ensures
            self.handles(old(app)@, final(app)@, views(r@)),
    {
        let CancelListUpdate(media_id, already_sent) = self;
        app.page.current_media.show_cancel_button(false);
        if !already_sent {
            app.updates.cancel(media_id);
        }
        none()
    }
}

impl Default for CurrentMediaPage {
    /// Nothing is playing.
    fn default() -> (r: Self)
        ensures
            r@ == (CurrentMediaPageView {
                show_cancel_update: false,
                current: None,
                recognized: None,
                cover: None,
            }),
    {
        CurrentMediaPage { show_cancel_update: false, current: None, recognized: None, cover: None }
    }
}

} // verus!
