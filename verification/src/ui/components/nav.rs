//! The navigation bar.

use vstd::prelude::*;
use super::page::current_media::image;
use super::page::{Page, PageContainerView};
use crate::app::commands::none;
use crate::app::{views, App, AppView, Command, CommandView};

verus! {

/// The button of the page of the current media was pressed, while it was
/// selected or not.
#[derive(Debug, Clone)]
pub struct CurrentMediaPress {
    pub selected: bool,
}

/// The button of the settings page was pressed.
#[derive(Debug, Clone)]
pub struct SettingsPress {
    pub selected: bool,
}

/// The button of the anime lists was pressed.
#[derive(Debug, Clone)]
pub struct AnimeListPress {
    pub selected: bool,
}

/// The button of the manga lists was pressed.
#[derive(Debug, Clone)]
pub struct MangaListPress {
    pub selected: bool,
}

/// What the navigation bar shows: which page is selected, and the user's avatar.
#[derive(Debug, Clone)]
pub struct Nav {
    pub media_selected: bool,
    pub settings_selected: bool,
    pub anime_selected: bool,
    pub manga_selected: bool,
    pub avatar: Option<Vec<u8>>,
}

/// The view of the navigation bar.
pub ghost struct NavView {
    pub media_selected: bool,
    pub settings_selected: bool,
    pub anime_selected: bool,
    pub manga_selected: bool,
    pub avatar: Option<Seq<u8>>,
}

impl View for Nav {
    type V = NavView;

    open spec fn view(&self) -> NavView {
        NavView {
            media_selected: self.media_selected,
            settings_selected: self.settings_selected,
            anime_selected: self.anime_selected,
            manga_selected: self.manga_selected,
            avatar: image(self.avatar),
        }
    }
}

impl Nav {
    /// The bar at the start: the page of the current media is selected.
    pub fn new() -> (r: Self)
        ensures
            r@ == (NavView {
                media_selected: true,
                settings_selected: false,
                anime_selected: false,
                manga_selected: false,
                avatar: None,
            }),
    {
        Nav {
            media_selected: true,
            settings_selected: false,
            anime_selected: false,
            manga_selected: false,
            avatar: None,
        }
    }

    /// Shows another avatar, or none.
    pub fn set_avatar(&mut self, avatar: Option<Vec<u8>>)
        ensures
            final(self)@ == (NavView { avatar: image(avatar), ..old(self)@ }),
    {
        self.avatar = avatar;
    }
}

/// The state after a press of the button of a page: the page is shown and
/// its button alone is selected, unless it was selected already.
pub open spec fn pressed(before: AppView, selected: bool, page: Page) -> AppView {
    if selected {
        before
    } else {
        AppView {
            nav: NavView {
                media_selected: page == Page::CurrentMedia,
                settings_selected: page == Page::Settings,
                anime_selected: page == Page::Anime,
                manga_selected: page == Page::Manga,
                ..before.nav
            },
            page: PageContainerView { page, ..before.page },
            ..before
        }
    }
}

/// Selects a page in the bar and shows it, unless it was selected already.
fn press(app: &mut App, selected: bool, page: Page) -> (r: Vec<Command>)
    ensures
        final(app)@ == pressed(old(app)@, selected, page),
        views(r@) == Seq::<CommandView>::empty(),
{
    if !selected {
        app.nav.media_selected = page == Page::CurrentMedia;
        app.nav.settings_selected = page == Page::Settings;
        app.nav.anime_selected = page == Page::Anime;
        app.nav.manga_selected = page == Page::Manga;
        app.page.change_page(page);
    }
    none()
}

impl CurrentMediaPress {
    /// The page of the current media is shown and selected.
    pub open spec fn handles(self, before: AppView, after: AppView, commands: Seq<CommandView>) -> bool {
        &&& after == pressed(before, self.selected, Page::CurrentMedia)
        &&& commands == Seq::<CommandView>::empty()
    }

    /// Takes the step of a press of the button.
    pub fn handle(self, app: &mut App) -> (r: Vec<Command>)
        ensures
            self.handles(old(app)@, final(app)@, views(r@)),
    {
        press(app, self.selected, Page::CurrentMedia)
    }
}

impl SettingsPress {
    /// The settings page is shown and selected.
    pub open spec fn handles(self, before: AppView, after: AppView, commands: Seq<CommandView>) -> bool {
        &&& after == pressed(before, self.selected, Page::Settings)
        &&& commands == Seq::<CommandView>::empty()
    }

    /// Takes the step of a press of the button.
    pub fn handle(self, app: &mut App) -> (r: Vec<Command>)
        ensures
            self.handles(old(app)@, final(app)@, views(r@)),
    {
        press(app, self.selected, Page::Settings)
    }
}

impl AnimeListPress {
    /// The page of the anime lists is shown and selected.
    pub open spec fn handles(self, before: AppView, after: AppView, commands: Seq<CommandView>) -> bool {
        &&& after == pressed(before, self.selected, Page::Anime)
        &&& commands == Seq::<CommandView>::empty()
    }

    /// Takes the step of a press of the button.
    pub fn handle(self, app: &mut App) -> (r: Vec<Command>)
        ensures
            self.handles(old(app)@, final(app)@, views(r@)),
    {
        press(app, self.selected, Page::Anime)
    }
}

impl MangaListPress {
    /// The page of the manga lists is shown and selected.
    pub open spec fn handles(self, before: AppView, after: AppView, commands: Seq<CommandView>) -> bool {
        &&& after == pressed(before, self.selected, Page::Manga)
        &&& commands == Seq::<CommandView>::empty()
    }

    /// Takes the step of a press of the button.
    pub fn handle(self, app: &mut App) -> (r: Vec<Command>)
        ensures
            self.handles(old(app)@, final(app)@, views(r@)),
    {
        press(app, self.selected, Page::Manga)
    }
}

} // verus!
