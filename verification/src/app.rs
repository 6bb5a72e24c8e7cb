//! The application's state and the steps that it takes.
//!
//! The application is a state machine. A step takes a message, which tells
//! what happened (a timer tick, an answer of the list service, a press of a
//! button), changes the state, and returns commands: the work that is to be
//! done outside, each of which ends in a message of its own. Nothing here
//! reads a clock, a file or the network: the caller hands in the time with
//! each step and carries the commands out.

pub mod commands;
pub mod events;
pub mod outcomes;
pub mod steps;

use vstd::prelude::*;
use crate::anilist::models::{MediaList, MediaType, User};
use crate::anilist::request::{ListUpdateQueue, ListUpdateQueueView};
use crate::anilist::views::{view_opt, MediaListView};
use crate::recognition::parse::{Media, RecognizedMedia};
use crate::settings::Settings;
use crate::ui::components::nav::{AnimeListPress, CurrentMediaPress, MangaListPress, NavView, SettingsPress};
use crate::ui::components::page::current_media::{image, CancelListUpdate, CoverChange, MediaChange};
use crate::ui::components::page::media_list::{IncrementMediaProgress, ListFilterTextChange, ListGroupSelected};
use crate::ui::components::page::settings::{Login, Logout, RefreshLists, SettingChange};
use crate::ui::components::page::PageContainerView;
use crate::ui::components::{Nav, PageContainer};

verus! {

/// The state of the application.
#[derive(Debug, Clone)]
pub struct App {
    /// Whether a cover is being fetched.
    pub waiting_for_cover: bool,
    /// What was last recognised in a window title.
    pub recognized: Option<Media>,
    /// The entry of the media that is playing.
    pub media: Option<MediaList>,
    /// The cover of the media that is playing.
    pub media_cover: Option<Vec<u8>>,
    pub nav: Nav,
    pub page: PageContainer,
    /// The user who is logged in.
    pub user: Option<User>,
    /// The updates that wait to be sent.
    pub updates: ListUpdateQueue,
    pub settings: Settings,
}

/// The view of the application's state.
pub ghost struct AppView {
    pub waiting_for_cover: bool,
    pub recognized: Option<RecognizedMedia>,
    pub media: Option<MediaListView>,
    pub media_cover: Option<Seq<u8>>,
    pub nav: NavView,
    pub page: PageContainerView,
    pub user: Option<User>,
    pub updates: ListUpdateQueueView,
    pub settings: Settings,
}

impl View for App {
    type V = AppView;

    open spec fn view(&self) -> AppView {
        AppView {
            waiting_for_cover: self.waiting_for_cover,
            recognized: view_opt(self.recognized),
            media: view_opt(self.media),
            media_cover: image(self.media_cover),
            nav: self.nav@,
            page: self.page@,
            user: self.user,
            updates: self.updates@,
            settings: self.settings,
        }
    }
}

/// What happened: the input of a step.
#[derive(Debug, Clone)]
pub enum Message {
    DetectMedia(DetectMedia),
    DetectMediaResult(DetectMediaResult),
    MediaFound(MediaFound),
    MediaNotFound(MediaNotFound),
    Authorized(Authorized),
    TokenSaved(TokenSaved),
    AuthFailed(AuthFailed),
    UserFound(UserFound),
    AvatarRetrieved(AvatarRetrieved),
    ListRetrieved(ListRetrieved),
    CoverRetrieved(CoverRetrieved),
    SearchMedia(SearchMedia),
    SearchResults(SearchResults),
    MediaUpdateComplete(MediaUpdateComplete),
    AnimeListPress(AnimeListPress),
    MangaListPress(MangaListPress),
    CurrentMediaPress(CurrentMediaPress),
    SettingsPress(SettingsPress),
    CoverChange(CoverChange),
    MediaChange(MediaChange),
    RefreshLists(RefreshLists),
    Logout(Logout),
    Login(Login),
    CancelListUpdate(CancelListUpdate),
    SettingChange(SettingChange),
    ListGroupSelected(ListGroupSelected),
    IncrementMediaProgress(IncrementMediaProgress),
    ListFilterTextChange(ListFilterTextChange),
    NoMessage(NoMessage),
}

/// Work to be done outside. Each command names the message that its work
/// ends in.
#[derive(Debug, Clone)]
#[allow(inconsistent_fields)]
pub enum Command {
    /// Hand the message to the next step as it is.
    Forward(Message),
    /// Run the recogniser over the titles of the open windows; ends in
    /// `DetectMediaResult`.
    DetectMedia,
    /// Ask the service who the token belongs to; ends in `UserFound`, or in
    /// `NoMessage` where the service names nobody.
    QueryUser { token: String },
    /// Let the user log in; ends in `Authorized` or `AuthFailed`.
    Authorize,
    /// Keep the account's token on disk; ends in `TokenSaved`.
    SaveToken { token: String },
    /// Keep the account's data on disk, as it now is.
    SaveAccount,
    /// Keep the settings on disk, as they now are.
    SaveSettings,
    /// Fetch the user's lists of both categories; ends in `ListRetrieved`.
    QueryUserLists { token: String, user_id: i32 },
    /// Search the catalog for a title; ends in `SearchResults`, or in
    /// `NoMessage` where the service has no answer.
    QuerySearch { token: String, recognized: Media, oneshot: bool },
    /// Fetch a cover image; ends in `CoverRetrieved`.
    FetchCover { url: String },
    /// Fetch the user's avatar; ends in `AvatarRetrieved`, or in `NoMessage`
    /// where it cannot be had.
    FetchAvatar { url: String },
    /// Send an update of an entry to the service; ends in `MediaUpdateComplete`.
    UpdateMedia { token: Option<String>, media: MediaList },
}

/// The view of a message: the data of the messages that carry a copy of an
/// entry or of an image; every other message stands for itself.
#[allow(inconsistent_fields)]
pub ghost enum MessageView {
    MediaFound { entry: MediaListView, recognized: RecognizedMedia, needs_update: bool },
    MediaChange { entry: Option<MediaListView>, recognized: Option<RecognizedMedia>, needs_update: bool },
    CoverChange { cover: Option<Seq<u8>> },
    Other(Message),
}

/// The view of a command.
#[allow(inconsistent_fields)]
pub ghost enum CommandView {
    Forward(MessageView),
    UpdateMedia { token: Option<String>, media: MediaListView },
    Other(Command),
}

impl View for Message {
    type V = MessageView;

    open spec fn view(&self) -> MessageView {
        match self {
            Message::MediaFound(found) => MessageView::MediaFound {
                entry: found.0@,
                recognized: found.1@,
                needs_update: found.2,
            },
            Message::MediaChange(change) => MessageView::MediaChange {
                entry: view_opt(change.0),
                recognized: view_opt(change.1),
                needs_update: change.2,
            },
            Message::CoverChange(change) => MessageView::CoverChange { cover: image(change.0) },
            _ => MessageView::Other(*self),
        }
    }
}

impl View for Command {
    type V = CommandView;

    open spec fn view(&self) -> CommandView {
        match self {
            Command::Forward(message) => CommandView::Forward(message@),
            Command::UpdateMedia { token, media } => CommandView::UpdateMedia { token: *token, media: media@ },
            _ => CommandView::Other(*self),
        }
    }
}

/// The views of a list of commands.
pub open spec fn views(commands: Seq<Command>) -> Seq<CommandView> {
    Seq::new(commands.len(), |i: int| commands[i]@)
}

/// The command that hands a message to the next step.
pub open spec fn forward(message: Message) -> CommandView {
    CommandView::Forward(message@)
}

/// The timer has ticked: it is time to look at the open windows.
#[derive(Debug, Clone)]
pub struct DetectMedia;

/// The recogniser has looked at the open windows.
#[derive(Debug, Clone)]
pub struct DetectMediaResult(pub Option<Media>);

/// The recognised title was reconciled with an entry of the lists.
#[derive(Debug, Clone)]
pub struct MediaFound(pub MediaList, pub Media, pub bool);

/// Nothing is playing, or what is playing is in none of the lists.
#[derive(Debug, Clone)]
pub struct MediaNotFound;

/// A title was recognised and is to be searched for.
#[derive(Debug, Clone)]
pub struct SearchMedia(pub Media, pub bool);

/// The service has answered a search.
#[derive(Debug, Clone)]
pub struct SearchResults(pub Vec<Option<crate::anilist::models::Media>>, pub bool);

/// The user has logged in.
#[derive(Debug, Clone)]
pub struct Authorized(pub String);

/// The token of a login was written to disk, or could not be.
#[derive(Debug, Clone)]
pub struct TokenSaved {
    pub token: String,
    pub saved: bool,
}

/// The login has failed.
#[derive(Debug, Clone)]
pub struct AuthFailed;

/// The service has told who the token belongs to.
#[derive(Debug, Clone)]
pub struct UserFound(pub User);

/// The user's avatar has arrived.
#[derive(Debug, Clone)]
pub struct AvatarRetrieved(pub Vec<u8>);

/// The user's lists have arrived, as far as they could be fetched.
#[derive(Debug, Clone)]
pub struct ListRetrieved {
    pub anime_list: Option<crate::anilist::models::MediaListCollection>,
    pub manga_list: Option<crate::anilist::models::MediaListCollection>,
}

/// A cover has arrived, or could not be fetched.
#[derive(Debug, Clone)]
pub struct CoverRetrieved(pub Option<Vec<u8>>);

/// The update that was in flight has come back.
#[derive(Debug, Clone)]
pub struct MediaUpdateComplete;

/// Nothing happened.
#[derive(Debug, Clone)]
pub struct NoMessage;

} // verus!
