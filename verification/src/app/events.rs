//! The steps that the messages of the application itself lead to.

use vstd::prelude::*;
use super::commands::{none, one, then};
use super::{
    forward, views, App, AppView, AuthFailed, Authorized, AvatarRetrieved, Command, CommandView,
    CoverRetrieved, DetectMedia, DetectMediaResult, ListRetrieved, MediaFound, MediaNotFound,
    MediaUpdateComplete, Message, MessageView, NoMessage, SearchMedia, SearchResults, TokenSaved,
    UserFound,
};
use crate::anilist::copies::{clone_text, same_text};
use crate::anilist::models::{FuzzyDate, MediaList, MediaType};
use crate::anilist::reconcile::{media_views, reconcile, reconciled, Reconciled, Reconciliation};
use crate::anilist::request::ListUpdateQueueView;
use crate::anilist::views::{text, view_opt, MediaListView};
use crate::recognition::parse::Media;
use crate::settings::{AniListData, Settings};
use crate::ui::components::nav::NavView;
use crate::ui::components::page::current_media::image;
use crate::ui::components::page::media_list::MediaListPageView;
use crate::ui::components::page::settings::Logout;
use crate::ui::components::page::{PageContainerView, SettingsPage};

verus! {

impl DetectMedia {
    /// The state stays as it is, and the recogniser is to run.
    pub open spec fn handles(self, before: AppView, after: AppView, commands: Seq<CommandView>) -> bool {
        &&& after == before
        &&& commands == seq![CommandView::Other(Command::DetectMedia)]
    }

    /// Takes the step of a timer tick.
    pub fn handle(self, app: &mut App) -> (r: Vec<Command>)
        ensures
            self.handles(old(app)@, final(app)@, views(r@)),
    {
        one(Command::DetectMedia)
    }
}

impl DetectMediaResult {
    /// Where something was recognised that differs from what was recognised
    /// before, it is kept and searched for; where it is the same, nothing
    /// happens. Where nothing was recognised, nothing is found.
    pub open spec fn handles(self, before: AppView, after: AppView, commands: Seq<CommandView>) -> bool {
        match self.0 {
            Some(detected) => if before.recognized == Some(detected@) {
                &&& after == before
                &&& commands == Seq::<CommandView>::empty()
            } else {
                &&& after == (AppView { recognized: Some(detected@), ..before })
                &&& commands == seq![forward(Message::SearchMedia(SearchMedia(detected, false)))]
            },
            None => {
                &&& after == before
                &&& commands == seq![forward(Message::MediaNotFound(MediaNotFound))]
            },
        }
    }

    /// Takes the step of the recogniser's answer.
    pub fn handle(self, app: &mut App) -> (r: Vec<Command>)
        ensures
            self.handles(old(app)@, final(app)@, views(r@)),
    {
        match self.0 {
            Some(detected) => {
                let same = match &app.recognized {
                    Some(media) => media.same_as(&detected),
                    None => false,
                };
                if same {
                    none()
                } else {
                    app.recognized = Some(detected.clone());
                    one(Command::Forward(Message::SearchMedia(SearchMedia(detected, false))))
                }
            },
            None => one(Command::Forward(Message::MediaNotFound(MediaNotFound))),
        }
    }
}

/// The address of the cover of an entry's media.
pub open spec fn cover_of(entry: Option<MediaListView>) -> Option<Seq<char>> {
    match entry {
        Some(entry) => match entry.media {
            Some(media) => media.cover_image_url(),
            None => None,
        },
        None => None,
    }
}

/// The address of the cover of an entry's media, as the entry holds it.
pub open spec fn cover_address(entry: MediaList) -> Option<String> {
    match entry.media {
        Some(media) => match media.cover_image {
            Some(cover) => cover.large,
            None => None,
        },
        None => None,
    }
}

impl MediaFound {
    /// Whether the cover of the entry is to be fetched: the entry has media,
    /// and the entry that was playing before has no media or another cover.
    pub open spec fn needs_fetch(self, before: AppView) -> bool {
        &&& self.0.media is Some
        &&& !(before.media matches Some(playing) && playing.media is Some && cover_of(before.media)
            == cover_of(Some(self.0@)))
    }

    /// Whether the fetch of the cover starts with this step.
    pub open spec fn starts_fetch(self, before: AppView) -> bool {
        &&& cover_address(self.0) is Some
        &&& !before.waiting_for_cover
        &&& self.needs_fetch(before)
    }

    /// The entry and what was recognised are kept and shown. The cover is
    /// fetched where it is another one and no fetch is under way; where the
    /// entry has no cover, the default cover is shown. Where the progress
    /// moved the entry forward, the entry is queued at the time `now`.
    pub open spec fn handles(
        self,
        before: AppView,
        after: AppView,
        commands: Seq<CommandView>,
        now: u64,
    ) -> bool {
        &&& after == (AppView {
            media: Some(self.0@),
            recognized: Some(self.1@),
            waiting_for_cover: before.waiting_for_cover || self.starts_fetch(before),
            updates: if self.2 {
                before.updates.enqueued(self.0@, now)
            } else {
                before.updates
            },
            ..before
        })
        &&& commands == seq![
            CommandView::Forward(
                MessageView::MediaChange {
                    entry: Some(self.0@),
                    recognized: Some(self.1@),
                    needs_update: self.2,
                },
            ),
        ] + (match cover_address(self.0) {
            Some(url) => if self.starts_fetch(before) {
                seq![CommandView::Other(Command::FetchCover { url })]
            } else {
                Seq::empty()
            },
            None => seq![CommandView::Forward(MessageView::CoverChange { cover: None })],
        })
    }

    /// Takes the step of a reconciled title at the time `now`.
    pub fn handle(self, app: &mut App, now: u64) -> (r: Vec<Command>)
        ensures
            self.handles(old(app)@, final(app)@, views(r@), now),
    {
        let MediaFound(media, detected, needs_update) = self;
        let (cover_url, needs_fetch) = match &media.media {
            Some(found) => {
                let url = match &found.cover_image {
                    Some(cover) => clone_text(&cover.large),
                    None => None,
                };
                let same = match &app.media {
                    Some(playing) => match &playing.media {
                        Some(old_media) => {
                            let old_url = old_media.cover_image_url();
                            same_text(&url, &old_url)
                        },
                        None => false,
                    },
                    None => false,
                };
                (url, !same)
            },
            None => (None, false),
        };
        app.media = Some(media.clone());
        app.recognized = Some(detected.clone());
        let mut commands = one(
            Command::Forward(
                Message::MediaChange(
                    crate::ui::components::page::current_media::MediaChange(
                        Some(media.clone()),
                        Some(detected),
                        needs_update,
                    ),
                ),
            ),
        );
        match cover_url {
            Some(url) => {
                if !app.waiting_for_cover && needs_fetch {
                    app.waiting_for_cover = true;
                    then(&mut commands, Command::FetchCover { url });
                }
            },
            None => {
                then(
                    &mut commands,
                    Command::Forward(
                        Message::CoverChange(crate::ui::components::page::current_media::CoverChange(None)),
                    ),
                );
            },
        }
        if needs_update {
            app.updates.enqueue(media, now);
        }
        proof {
            let expected = match cover_address(self.0) {
                Some(url) => if self.starts_fetch(old(app)@) {
                    seq![CommandView::Other(Command::FetchCover { url })]
                } else {
                    Seq::empty()
                },
                None => seq![CommandView::Forward(MessageView::CoverChange { cover: None })],
            };
            assert(views(commands@) =~= seq![
                CommandView::Forward(
                    MessageView::MediaChange {
                        entry: Some(self.0@),
                        recognized: Some(self.1@),
                        needs_update: self.2,
                    },
                ),
            ] + expected);
        }
        commands
    }
}

impl MediaNotFound {
    /// Where an entry was playing, it is forgotten, with what was recognised
    /// and the cover, its pending update is cancelled, and the page shows
    /// that nothing is playing. Where none was playing, nothing happens.
    pub open spec fn handles(self, before: AppView, after: AppView, commands: Seq<CommandView>) -> bool {
        match before.media {
            Some(playing) => {
                &&& after == (AppView {
                    recognized: None,
                    media: None,
                    media_cover: None,
                    updates: before.updates.cancelled(playing.media_id),
                    ..before
                })
                &&& commands == seq![
                    CommandView::Forward(
                        MessageView::MediaChange { entry: None, recognized: None, needs_update: false },
                    ),
                ]
            },
            None => {
                &&& after == before
                &&& commands == Seq::<CommandView>::empty()
            },
        }
    }

    /// Takes the step of a title that was not found.
    pub fn handle(self, app: &mut App) -> (r: Vec<Command>)
        ensures
            self.handles(old(app)@, final(app)@, views(r@)),
    {
        let media_id = match &app.media {
            Some(playing) => playing.media_id,
            None => {
                return none();
            },
        };
        app.recognized = None;
        app.media = None;
        app.media_cover = None;
        app.updates.cancel(media_id);
        one(
            Command::Forward(
                Message::MediaChange(crate::ui::components::page::current_media::MediaChange(None, None, false)),
            ),
        )
    }
}

impl SearchMedia {
    /// What was recognised is kept, and the catalog is searched for its
    /// title where the user is logged in.
    pub open spec fn handles(self, before: AppView, after: AppView, commands: Seq<CommandView>) -> bool {
        &&& after == (AppView { recognized: Some(self.0@), ..before })
        &&& commands == (match before.settings.anilist.token {
            Some(token) => seq![
                CommandView::Other(Command::QuerySearch { token, recognized: self.0, oneshot: self.1 }),
            ],
            None => Seq::empty(),
        })
    }

    /// Takes the step of a title that is to be searched for.
    pub fn handle(self, app: &mut App) -> (r: Vec<Command>)
        ensures
            self.handles(old(app)@, final(app)@, views(r@)),
    {
        let SearchMedia(recognized, oneshot) = self;
        app.recognized = Some(recognized.clone());
        match &app.settings.anilist.token {
            Some(token) => one(Command::QuerySearch { token: token.clone(), recognized, oneshot }),
            None => none(),
        }
    }
}

impl SearchResults {
    /// The state stays as it is. What was recognised is reconciled with the
    /// lists of its category on the day `today`: an entry that it names is
    /// passed on with the progress applied, and a title that is in none of
    /// the lists is passed on as not found. Nothing happens where nothing is
    /// recognised, where the title names no search result, and where there
    /// are no lists.
    pub open spec fn handles_on(
        self,
        before: AppView,
        after: AppView,
        commands: Seq<CommandView>,
        today: FuzzyDate,
    ) -> bool {
        &&& after == before
        &&& commands == (match before.recognized {
            Some(recognized) => match reconciled(
                before.page.list_page(recognized.media_type).list,
                media_views(self.0@),
                recognized,
                self.1,
                today,
            ) {
                Reconciliation::Found { entry, recognized, needs_update } => seq![
                    CommandView::Forward(MessageView::MediaFound { entry, recognized, needs_update }),
                ],
                Reconciliation::NotFound => seq![forward(Message::MediaNotFound(MediaNotFound))],
                Reconciliation::Nothing => Seq::empty(),
            },
            None => Seq::empty(),
        })
    }

    /// The step of `handles_on`, on some day of the calendar.
    pub open spec fn handles(self, before: AppView, after: AppView, commands: Seq<CommandView>) -> bool {
        exists|today: FuzzyDate| today.is_calendar_day() && #[trigger] self.handles_on(before, after, commands, today)
    }

    /// Takes the step of a search's answer on the day `today`.
    pub fn handle_on(self, app: &mut App, today: FuzzyDate) -> (r: Vec<Command>)
        ensures
            self.handles_on(old(app)@, final(app)@, views(r@), today),
    {
        let recognized = match &app.recognized {
            Some(recognized) => recognized,
            None => {
                return none();
            },
        };
        let list = app.page.list_page(recognized.media_type).get_list();
        match reconcile(list, &self.0, recognized, self.1, today) {
            Reconciled::Found { entry, recognized, needs_update } => one(
                Command::Forward(Message::MediaFound(MediaFound(entry, recognized, needs_update))),
            ),
            Reconciled::NotFound => one(Command::Forward(Message::MediaNotFound(MediaNotFound))),
            Reconciled::Nothing => none(),
        }
    }

    /// Takes the step of a search's answer today.
    pub fn handle(self, app: &mut App) -> (r: Vec<Command>)
        ensures
            self.handles(old(app)@, final(app)@, views(r@)),
    {
        let today = FuzzyDate::today_local();
        self.handle_on(app, today)
    }
}

impl Authorized {
    /// The token is kept, and is to be written to disk.
    pub open spec fn handles(self, before: AppView, after: AppView, commands: Seq<CommandView>) -> bool {
        &&& after == (AppView {
            settings: Settings { anilist: AniListData { token: Some(self.0) }, ..before.settings },
            ..before
        })
        &&& commands == seq![CommandView::Other(Command::SaveToken { token: self.0 })]
    }

    /// Takes the step of a login.
    pub fn handle(self, app: &mut App) -> (r: Vec<Command>)
        ensures
            self.handles(old(app)@, final(app)@, views(r@)),
    {
        app.settings.anilist.token = Some(self.0.clone());
        one(Command::SaveToken { token: self.0 })
    }
}

impl TokenSaved {
    /// The state stays as it is. Where the token was written, the service is
    /// asked who it belongs to; where not, the login has failed.
    pub open spec fn handles(self, before: AppView, after: AppView, commands: Seq<CommandView>) -> bool {
        &&& after == before
        &&& commands == (if self.saved {
            seq![CommandView::Other(Command::QueryUser { token: self.token })]
        } else {
            seq![forward(Message::AuthFailed(AuthFailed))]
        })
    }

    /// Takes the step of a token that was written to disk, or was not.
    pub fn handle(self, app: &mut App) -> (r: Vec<Command>)
        ensures
            self.handles(old(app)@, final(app)@, views(r@)),
    {
        if self.saved {
            one(Command::QueryUser { token: self.token })
        } else {
            one(Command::Forward(Message::AuthFailed(AuthFailed)))
        }
    }
}

impl AuthFailed {
    /// The state stays as it is, and the user is logged out.
    pub open spec fn handles(self, before: AppView, after: AppView, commands: Seq<CommandView>) -> bool {
        &&& after == before
        &&& commands == seq![forward(Message::Logout(Logout))]
    }

    /// Takes the step of a failed login.
    pub fn handle(self, app: &mut App) -> (r: Vec<Command>)
        ensures
            self.handles(old(app)@, final(app)@, views(r@)),
    {
        one(Command::Forward(Message::Logout(Logout)))
    }
}

/// The address of a user's avatar.
pub open spec fn avatar_address(user: crate::anilist::models::User) -> Option<String> {
    match user.avatar {
        Some(avatar) => avatar.medium,
        None => None,
    }
}

impl UserFound {
    /// The user is kept and counts as logged in, and the avatar is fetched
    /// where the user has one.
    pub open spec fn handles(self, before: AppView, after: AppView, commands: Seq<CommandView>) -> bool {
        &&& after == (AppView {
            user: Some(self.0),
            page: PageContainerView {
                settings: SettingsPage { logged_in: true },
                ..before.page
            },
            ..before
        })
        &&& commands == (match avatar_address(self.0) {
            Some(url) => seq![CommandView::Other(Command::FetchAvatar { url })],
            None => Seq::empty(),
        })
    }

    /// Takes the step of the service naming the user.
    pub fn handle(self, app: &mut App) -> (r: Vec<Command>)
        ensures
            self.handles(old(app)@, final(app)@, views(r@)),
    {
        let url = self.0.get_avatar_url();
        app.user = Some(self.0);
        app.page.settings.logged_in = true;
        match url {
            Some(url) => one(Command::FetchAvatar { url }),
            None => none(),
        }
    }
}

/// The command that fetches the lists of the user who is logged in; none
/// where nobody is.
pub open spec fn lists_query(state: AppView) -> Seq<CommandView> {
    match (state.settings.anilist.token, state.user) {
        (Some(token), Some(user)) => seq![
            CommandView::Other(Command::QueryUserLists { token, user_id: user.id }),
        ],
        _ => Seq::empty(),
    }
}

/// The command that fetches the lists of the user who is logged in.
pub fn query_lists(app: &App) -> (r: Vec<Command>)
    ensures
        views(r@) == lists_query(app@),
{
    match &app.settings.anilist.token {
        Some(token) => match &app.user {
            Some(user) => one(Command::QueryUserLists { token: token.clone(), user_id: user.id }),
            None => none(),
        },
        None => none(),
    }
}

impl AvatarRetrieved {
    /// The avatar is shown, and the lists of the user are fetched.
    pub open spec fn handles(self, before: AppView, after: AppView, commands: Seq<CommandView>) -> bool {
        &&& after == (AppView { nav: NavView { avatar: Some(self.0@), ..before.nav }, ..before })
        &&& commands == lists_query(before)
    }

    /// Takes the step of the avatar's arrival.
    pub fn handle(self, app: &mut App) -> (r: Vec<Command>)
        ensures
            self.handles(old(app)@, final(app)@, views(r@)),
    {
        app.nav.set_avatar(Some(self.0));
        query_lists(app)
    }
}

impl ListRetrieved {
    /// The lists take the place of those that the pages held.
    pub open spec fn handles(self, before: AppView, after: AppView, commands: Seq<CommandView>) -> bool {
        &&& after == (AppView {
            page: PageContainerView {
                anime: MediaListPageView { list: view_opt(self.anime_list), ..before.page.anime },
                manga: MediaListPageView { list: view_opt(self.manga_list), ..before.page.manga },
                ..before.page
            },
            ..before
        })
        &&& commands == Seq::<CommandView>::empty()
    }

    /// Takes the step of the lists' arrival.
    pub fn handle(self, app: &mut App) -> (r: Vec<Command>)
        ensures
            self.handles(old(app)@, final(app)@, views(r@)),
    {
        app.page.anime.set_list(self.anime_list);
        app.page.manga.set_list(self.manga_list);
        none()
    }
}

impl CoverRetrieved {
    /// The fetch is over, and the cover is kept and shown.
    pub open spec fn handles(self, before: AppView, after: AppView, commands: Seq<CommandView>) -> bool {
        &&& after == (AppView { waiting_for_cover: false, media_cover: image(self.0), ..before })
        &&& commands == seq![CommandView::Forward(MessageView::CoverChange { cover: image(self.0) })]
    }

    /// Takes the step of a cover's arrival.
    pub fn handle(self, app: &mut App) -> (r: Vec<Command>)
        ensures
            self.handles(old(app)@, final(app)@, views(r@)),
    {
        app.waiting_for_cover = false;
        app.media_cover = copy_image(&self.0);
        one(Command::Forward(Message::CoverChange(crate::ui::components::page::current_media::CoverChange(self.0))))
    }
}

/// A copy of an image that may be absent.
pub fn copy_image(bytes: &Option<Vec<u8>>) -> (r: Option<Vec<u8>>)
    ensures
        image(r) == image(*bytes),
{
    match bytes {
        Some(bytes) => {
            let copy = bytes.clone();
            Some(copy)
        },
        None => None,
    }
}

impl MediaUpdateComplete {
    /// No request is in flight any more.
    pub open spec fn handles(self, before: AppView, after: AppView, commands: Seq<CommandView>) -> bool {
        &&& after == (AppView {
            updates: before.updates.set_waiting(false),
            ..before
        })
        &&& commands == Seq::<CommandView>::empty()
    }

    /// Takes the step of an update's return.
    pub fn handle(self, app: &mut App) -> (r: Vec<Command>)
        ensures
            self.handles(old(app)@, final(app)@, views(r@)),
    {
        app.updates.set_waiting(false);
        none()
    }
}

impl NoMessage {
    /// Nothing changes.
    pub open spec fn handles(self, before: AppView, after: AppView, commands: Seq<CommandView>) -> bool {
        &&& after == before
        &&& commands == Seq::<CommandView>::empty()
    }

    /// Takes the step of nothing.
    pub fn handle(self, app: &mut App) -> (r: Vec<Command>)
        ensures
            self.handles(old(app)@, final(app)@, views(r@)),
    {
        none()
    }
}

} // verus!
