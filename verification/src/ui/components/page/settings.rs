//! The settings page.

use vstd::prelude::*;
use super::media_list::MediaListPageView;
use super::PageContainerView;
use crate::app::commands::{none, one};
use crate::app::events::{lists_query, query_lists};
use crate::app::{views, App, AppView, Command, CommandView};
use crate::text::{parse_seconds, seconds_in};
use crate::settings::{AniListData, Settings};
use crate::ui::components::nav::NavView;

verus! {

/// The lists are to be fetched again.
#[derive(Debug, Clone)]
pub struct RefreshLists;

/// The user logs out.
#[derive(Debug, Clone)]
pub struct Logout;

/// The user wants to log in.
#[derive(Debug, Clone)]
pub struct Login;

/// A setting was changed.
#[derive(Debug, Clone)]
pub enum SettingChange {
    /// The text of the update delay, and whether the change is to be kept on disk.
    UpdateDelay(String, bool),
}

/// What the settings page shows: whether the user is logged in.
#[derive(Debug, Clone, Copy)]
pub struct SettingsPage {
    pub logged_in: bool,
}

impl Default for SettingsPage {
    /// Not logged in.
    fn default() -> (r: Self)
        ensures
            !r.logged_in,
    {
        SettingsPage { logged_in: false }
    }
}

impl RefreshLists {
    /// The state stays as it is, and the lists of the user are fetched.
    pub open spec fn handles(self, before: AppView, after: AppView, commands: Seq<CommandView>) -> bool {
        &&& after == before
        &&& commands == lists_query(before)
    }

    /// Takes the step of a refresh.
    pub fn handle(self, app: &mut App) -> (r: Vec<Command>)
        ensures
            self.handles(old(app)@, final(app)@, views(r@)),
    {
        query_lists(app)
    }
}

impl Logout {
    /// The token, the user, the lists and the avatar are forgotten, and the
    /// account's data is to be written to disk.
    pub open spec fn handles(self, before: AppView, after: AppView, commands: Seq<CommandView>) -> bool {
        &&& after == (AppView {
            settings: Settings { anilist: AniListData { token: None }, ..before.settings },
            user: None,
            nav: NavView { avatar: None, ..before.nav },
            page: PageContainerView {
                settings: SettingsPage { logged_in: false },
                anime: MediaListPageView { list: None, ..before.page.anime },
                manga: MediaListPageView { list: None, ..before.page.manga },
                ..before.page
            },
            ..before
        })
        &&& commands == seq![CommandView::Other(Command::SaveAccount)]
    }

    /// Takes the step of a logout.
    pub fn handle(self, app: &mut App) -> (r: Vec<Command>)
        ensures
            self.handles(old(app)@, final(app)@, views(r@)),
    {
        app.settings.anilist.forget_token();
        app.user = None;
        app.page.anime.set_list(None);
        app.page.manga.set_list(None);
        app.nav.set_avatar(None);
        app.page.settings.logged_in = false;
        one(Command::SaveAccount)
    }
}

impl Login {
    /// The user counts as logged in, and is let to log in unless a user is known.
    pub open spec fn handles(self, before: AppView, after: AppView, commands: Seq<CommandView>) -> bool {
        &&& after == (AppView {
            page: PageContainerView {
                settings: SettingsPage { logged_in: true },
                ..before.page
            },
            ..before
        })
        &&& commands == (if before.user is Some {
            Seq::empty()
        } else {
            seq![CommandView::Other(Command::Authorize)]
        })
    }

    /// Takes the step of a login.
    pub fn handle(self, app: &mut App) -> (r: Vec<Command>)
        ensures
            self.handles(old(app)@, final(app)@, views(r@)),
    {
        app.page.settings.logged_in = true;
        if app.user.is_some() {
            none()
        } else {
            one(Command::Authorize)
        }
    }
}

impl SettingChange {
    /// Where the text writes a number of seconds, it becomes the update
    /// delay, and the settings are written to disk if the change is to be
    /// kept. Else nothing happens.
    pub open spec fn handles(self, before: AppView, after: AppView, commands: Seq<CommandView>) -> bool {
        match self {
            SettingChange::UpdateDelay(text, save) => match seconds_in(text@) {
                Some(delay) => {
                    &&& after == (AppView {
                        settings: Settings { update_delay: delay, ..before.settings },
                        ..before
                    })
                    &&& commands == (if save {
                        seq![CommandView::Other(Command::SaveSettings)]
                    } else {
                        Seq::empty()
                    })
                },
                None => {
                    &&& after == before
                    &&& commands == Seq::<CommandView>::empty()
                },
            },
        }
    }

    /// Takes the step of a changed setting.
    pub fn handle(self, app: &mut App) -> (r: Vec<Command>)
        ensures
            self.handles(old(app)@, final(app)@, views(r@)),
    {
        match self {
            SettingChange::UpdateDelay(text, save) => match parse_seconds(text.as_str()) {
                Some(delay) => {
                    app.settings.update_delay = delay;
                    if save {
                        one(Command::SaveSettings)
                    } else {
                        none()
                    }
                },
                None => none(),
            },
        }
    }
}

} // verus!
