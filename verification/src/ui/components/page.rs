//! The pages, and which of them is shown.

pub mod current_media;
pub mod media_list;
pub mod settings;

pub use current_media::CurrentMediaPage;
pub use media_list::MediaListPage;
pub use settings::SettingsPage;

use vstd::prelude::*;
use crate::anilist::models::MediaType;
use current_media::CurrentMediaPageView;
use media_list::MediaListPageView;

verus! {

/// The pages of the window.
#[derive(Debug, Clone, Copy, PartialEq, Eq, Structural)]
pub enum Page {
    Anime,
    Manga,
    CurrentMedia,
    Settings,
}

impl Default for Page {
    fn default() -> (r: Self)
        ensures
            r == Page::CurrentMedia,
    {
        Page::CurrentMedia
    }
}

/// The pages and the one that is shown.
#[derive(Debug, Clone)]
pub struct PageContainer {
    pub page: Page,
    pub current_media: CurrentMediaPage,
    pub settings: SettingsPage,
    pub anime: MediaListPage,
    pub manga: MediaListPage,
}

/// The view of the pages.
pub ghost struct PageContainerView {
    pub page: Page,
    pub current_media: CurrentMediaPageView,
    pub settings: SettingsPage,
    pub anime: MediaListPageView,
    pub manga: MediaListPageView,
}

impl View for PageContainer {
    type V = PageContainerView;

    open spec fn view(&self) -> PageContainerView {
        PageContainerView {
            page: self.page,
            current_media: self.current_media@,
            settings: self.settings,
            anime: self.anime@,
            manga: self.manga@,
        }
    }
}

impl PageContainerView {
    /// The pages at the start: the page of the current media is shown,
    /// nothing is playing, nobody is logged in, and there are no lists.
    pub open spec fn initial() -> Self {
        PageContainerView {
            page: Page::CurrentMedia,
            current_media: CurrentMediaPageView {
                show_cancel_update: false,
                current: None,
                recognized: None,
                cover: None,
            },
            settings: SettingsPage { logged_in: false },
            anime: MediaListPageView::empty(MediaType::Anime),
            manga: MediaListPageView::empty(MediaType::Manga),
        }
    }

    /// The list page of a category.
    pub open spec fn list_page(self, category: MediaType) -> MediaListPageView {
        match category {
            MediaType::Anime => self.anime,
            MediaType::Manga => self.manga,
        }
    }

    /// The pages with the list page of a category replaced.
    pub open spec fn with_list_page(self, category: MediaType, page: MediaListPageView) -> Self {
        match category {
            MediaType::Anime => PageContainerView { anime: page, ..self },
            MediaType::Manga => PageContainerView { manga: page, ..self },
        }
    }
}

impl PageContainer {
    /// Shows another page.
    pub fn change_page(&mut self, page: Page)
        ensures
            final(self)@ == (PageContainerView { page, ..old(self)@ }),
    {
        self.page = page;
    }

    /// The list page of a category.
    pub fn list_page(&self, category: MediaType) -> (r: &MediaListPage)
        ensures
            r@ == self@.list_page(category),
    {
        match category {
            MediaType::Anime => &self.anime,
            MediaType::Manga => &self.manga,
        }
    }

    /// The list page of a category, to be changed in place.
    pub fn list_page_mut(&mut self, category: MediaType) -> (r: &mut MediaListPage)
        ensures
            r@ == old(self)@.list_page(category),
            final(self)@ == old(self)@.with_list_page(category, final(r)@),
    {
        match category {
            MediaType::Anime => &mut self.anime,
            MediaType::Manga => &mut self.manga,
        }
    }
}

impl Default for PageContainer {
    /// The page of the current media is shown, and both lists are empty.
    fn default() -> (r: Self)
        ensures
            r@ == PageContainerView::initial(),
    {
        PageContainer {
            page: Page::default(),
            current_media: CurrentMediaPage::default(),
            settings: SettingsPage::default(),
            anime: MediaListPage::new(MediaType::Anime),
            manga: MediaListPage::new(MediaType::Manga),
        }
    }
}

} // verus!
