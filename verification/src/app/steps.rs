//! A step of the application: a message is handled, and the update that is
//! due is sent.

use vstd::prelude::*;
use super::commands::{both, none, one, then};
use super::{forward, views, App, AppView, Command, CommandView, Message};
use crate::anilist::models::{MediaList, MediaType};
use crate::anilist::request::{
    elapsed, lemma_enqueued_stays_unique, lemma_queue_stays_unique, ListUpdateQueue, ListUpdateQueueView,
};
use crate::anilist::views::MediaListView;
use crate::settings::Settings;
use crate::ui::components::page::current_media::CancelListUpdate;
use crate::ui::components::page::media_list::MediaListPageView;
use crate::ui::components::nav::NavView;
use crate::ui::components::page::PageContainerView;
use crate::ui::components::{Nav, PageContainer};

verus! {

impl Message {
    /// Whether a step that handles this message at the time `now` may lead
    /// from the state `before` to the state `after` and give `commands`.
    pub open spec fn handles(
        self,
        before: AppView,
        after: AppView,
        commands: Seq<CommandView>,
        now: u64,
    ) -> bool {
        match self {
            Message::DetectMedia(m) => m.handles(before, after, commands),
            Message::DetectMediaResult(m) => m.handles(before, after, commands),
            Message::MediaFound(m) => m.handles(before, after, commands, now),
            Message::MediaNotFound(m) => m.handles(before, after, commands),
            Message::Authorized(m) => m.handles(before, after, commands),
            Message::TokenSaved(m) => m.handles(before, after, commands),
            Message::AuthFailed(m) => m.handles(before, after, commands),
            Message::UserFound(m) => m.handles(before, after, commands),
            Message::AvatarRetrieved(m) => m.handles(before, after, commands),
            Message::ListRetrieved(m) => m.handles(before, after, commands),
            Message::CoverRetrieved(m) => m.handles(before, after, commands),
            Message::SearchMedia(m) => m.handles(before, after, commands),
            Message::SearchResults(m) => m.handles(before, after, commands),
            Message::MediaUpdateComplete(m) => m.handles(before, after, commands),
            Message::AnimeListPress(m) => m.handles(before, after, commands),
            Message::MangaListPress(m) => m.handles(before, after, commands),
            Message::CurrentMediaPress(m) => m.handles(before, after, commands),
            Message::SettingsPress(m) => m.handles(before, after, commands),
            Message::CoverChange(m) => m.handles(before, after, commands),
            Message::MediaChange(m) => m.handles(before, after, commands),
            Message::RefreshLists(m) => m.handles(before, after, commands),
            Message::Logout(m) => m.handles(before, after, commands),
            Message::Login(m) => m.handles(before, after, commands),
            Message::CancelListUpdate(m) => m.handles(before, after, commands),
            Message::SettingChange(m) => m.handles(before, after, commands),
            Message::ListGroupSelected(m) => m.handles(before, after, commands),
            Message::IncrementMediaProgress(m) => m.handles(before, after, commands, now),
            Message::ListFilterTextChange(m) => m.handles(before, after, commands),
            Message::NoMessage(m) => m.handles(before, after, commands),
        }
    }

    /// Handles the message at the time `now`, in seconds.
    pub fn handle(self, app: &mut App, now: u64) -> (r: Vec<Command>)
        ensures
            self.handles(old(app)@, final(app)@, views(r@), now),
    {
        match self {
            Message::DetectMedia(m) => m.handle(app),
            Message::DetectMediaResult(m) => m.handle(app),
            Message::MediaFound(m) => m.handle(app, now),
            Message::MediaNotFound(m) => m.handle(app),
            Message::Authorized(m) => m.handle(app),
            Message::TokenSaved(m) => m.handle(app),
            Message::AuthFailed(m) => m.handle(app),
            Message::UserFound(m) => m.handle(app),
            Message::AvatarRetrieved(m) => m.handle(app),
            Message::ListRetrieved(m) => m.handle(app),
            Message::CoverRetrieved(m) => m.handle(app),
            Message::SearchMedia(m) => m.handle(app),
            Message::SearchResults(m) => m.handle(app),
            Message::MediaUpdateComplete(m) => m.handle(app),
            Message::AnimeListPress(m) => m.handle(app),
            Message::MangaListPress(m) => m.handle(app),
            Message::CurrentMediaPress(m) => m.handle(app),
            Message::SettingsPress(m) => m.handle(app),
            Message::CoverChange(m) => m.handle(app),
            Message::MediaChange(m) => m.handle(app),
            Message::RefreshLists(m) => m.handle(app),
            Message::Logout(m) => m.handle(app),
            Message::Login(m) => m.handle(app),
            Message::CancelListUpdate(m) => m.handle(app),
            Message::SettingChange(m) => m.handle(app),
            Message::ListGroupSelected(m) => m.handle(app),
            Message::IncrementMediaProgress(m) => m.handle(app, now),
            Message::ListFilterTextChange(m) => m.handle(app),
            Message::NoMessage(m) => m.handle(app),
        }
    }
}

impl MediaListPageView {
    /// The page with the first entry for the media of `update` replaced by
    /// `update`; the page as it is where it holds no such entry.
    pub open spec fn with_update(self, update: MediaListView) -> Self {
        match self.list {
            Some(list) => match list.index_of(update.media_id) {
                Some(k) => MediaListPageView {
                    list: Some(list.with_slot(list.places()[k].0, list.places()[k].1, update)),
                    ..self
                },
                None => self,
            },
            None => self,
        }
    }
}

impl PageContainerView {
    /// The pages with the entry for the media of `update` replaced by
    /// `update`, in the lists of its category.
    pub open spec fn with_update(self, update: MediaListView) -> Self {
        match update.category() {
            Some(category) => self.with_list_page(category, self.list_page(category).with_update(update)),
            None => self,
        }
    }
}

impl AppView {
    /// The state at the start: nothing recognised, nothing playing, nobody
    /// logged in, an empty queue, and the page of the current media shown.
    pub open spec fn initial(settings: Settings) -> Self {
        AppView {
            waiting_for_cover: false,
            recognized: None,
            media: None,
            media_cover: None,
            nav: NavView {
                media_selected: true,
                settings_selected: false,
                anime_selected: false,
                manga_selected: false,
                avatar: None,
            },
            page: PageContainerView::initial(),
            user: None,
            updates: ListUpdateQueueView { waiting: false, requests: Seq::empty() },
            settings,
        }
    }

    /// Whether an update is due at the time `now`.
    pub open spec fn is_due(self, now: u64) -> bool {
        self.updates.is_due(now, self.settings.update_delay)
    }

    /// The state after the update that is due was taken from the queue: the
    /// request is in flight, and the lists hold the update already.
    pub open spec fn sent(self, now: u64) -> Self {
        let update = self.updates.requests[0].0;
        AppView {
            updates: self.updates.dequeued(now, self.settings.update_delay).set_waiting(true),
            page: self.page.with_update(update),
            ..self
        }
    }

    /// The commands that send the update that is due: the update itself,
    /// after the word that it can no longer be cancelled where it is for the
    /// media that is playing.
    pub open spec fn sending(self) -> Seq<CommandView> {
        let update = self.updates.requests[0].0;
        (if self.media matches Some(playing) && playing.media_id == update.media_id {
            seq![forward(Message::CancelListUpdate(CancelListUpdate(update.media_id, true)))]
        } else {
            Seq::empty()
        }) + seq![CommandView::UpdateMedia { token: self.settings.anilist.token, media: update }]
    }

    /// Whether sending the update that is due at the time `now` leads from
    /// this state to the state `after` and gives `commands`. Where none is
    /// due, nothing happens.
    pub open spec fn sends(self, after: AppView, commands: Seq<CommandView>, now: u64) -> bool {
        if self.is_due(now) {
            after == self.sent(now) && commands == self.sending()
        } else {
            after == self && commands == Seq::<CommandView>::empty()
        }
    }
}

/// Every step keeps the media of the queued requests distinct: the queue
/// never holds two requests for one media.
pub proof fn lemma_step_keeps_queue_unique(
    message: Message,
    before: AppView,
    after: AppView,
    commands: Seq<CommandView>,
    now: u64,
)
    requires
        before.updates.wf(),
        message.handles(before, after, commands, now),
    ensures
        after.updates.wf(),
{
    match message {
        Message::MediaFound(found) => {
            lemma_enqueued_stays_unique(before.updates, found.0@, now);
        },
        Message::MediaNotFound(_) => {
            if let Some(playing) = before.media {
                lemma_queue_stays_unique(before.updates, playing.media_id);
            }
        },
        Message::MediaUpdateComplete(_) => {
            lemma_queue_stays_unique(before.updates, 0);
        },
        Message::CancelListUpdate(cancel) => {
            lemma_queue_stays_unique(before.updates, cancel.0);
        },
        Message::IncrementMediaProgress(press) => {
            if let Some(k) = press.target(before) {
                let list = before.page.list_page(press.media_type).list->0;
                lemma_enqueued_stays_unique(
                    before.updates,
                    list.entries()[k].counted_up(press.is_volume_progress),
                    now,
                );
            }
        },
        _ => {},
    }
}

/// Sending the update that is due keeps the media of the queued requests distinct.
pub proof fn lemma_sending_keeps_queue_unique(before: AppView, after: AppView, commands: Seq<CommandView>, now: u64)
    requires
        before.updates.wf(),
        before.sends(after, commands, now),
    ensures
        after.updates.wf(),
{
    lemma_queue_stays_unique(before.updates, 0);
    lemma_queue_stays_unique(before.updates.dequeued(now, before.settings.update_delay), 0);
}

/// No update is sent while another is in flight, nor before the update
/// delay has passed since the oldest request's media was queued.
pub proof fn lemma_nothing_is_sent_early(before: AppView, after: AppView, commands: Seq<CommandView>, now: u64)
    requires
        before.sends(after, commands, now),
        before.updates.waiting || (before.updates.requests.len() > 0 && elapsed(
            before.updates.requests[0].1,
            now,
        ) < before.settings.update_delay),
    ensures
        after == before,
        commands.len() == 0,
{
}

/// An update that is sent is the oldest of the queue, and while it is in
/// flight the queue holds the requests behind it.
pub proof fn lemma_the_oldest_is_sent(before: AppView, after: AppView, commands: Seq<CommandView>, now: u64)
    requires
        before.sends(after, commands, now),
        before.is_due(now),
    ensures
        after.updates.waiting,
        after.updates.requests == before.updates.requests.drop_first(),
        commands.len() > 0,
        commands.last() == (CommandView::UpdateMedia {
            token: before.settings.anilist.token,
            media: before.updates.requests[0].0,
        }),
{
}

impl App {
    /// The application at its start, and the command that asks the service
    /// who the token of the settings belongs to.
    pub fn new(settings: Settings) -> (r: (Self, Vec<Command>))
        ensures
            r.0@ == AppView::initial(settings),
            views(r.1@) == (match settings.anilist.token {
                Some(token) => seq![CommandView::Other(Command::QueryUser { token })],
                None => Seq::empty(),
            }),
    {
        let commands = match &settings.anilist.token {
            Some(token) => one(Command::QueryUser { token: token.clone() }),
            None => none(),
        };
        let updates = ListUpdateQueue::default();
        assert(updates@.requests =~= Seq::empty());
        let app = App {
            waiting_for_cover: false,
            recognized: None,
            media: None,
            media_cover: None,
            nav: Nav::new(),
            page: PageContainer::default(),
            user: None,
            updates,
            settings,
        };
        (app, commands)
    }

    /// Puts an update into the lists of its category, in place of the entry
    /// for its media.
    fn store(&mut self, update: &MediaList)
        ensures
            final(self)@ == (AppView { page: old(self)@.page.with_update(update@), ..old(self)@ }),
    {
        let category = match &update.media {
            Some(media) => match media.media_type {
                Some(category) => category,
                None => {
                    return ;
                },
            },
            None => {
                return ;
            },
        };
        let known = match self.page.list_page(category).get_list() {
            Some(list) => list.find_entry_by_id(update.media_id).is_some(),
            None => false,
        };
        if !known {
            return ;
        }
        let list = match self.page.list_page_mut(category).get_list_mut() {
            Some(list) => list,
            None => unreached(),
        };
        let entry = match list.find_entry_by_id_mut(update.media_id) {
            Some(entry) => entry,
            None => unreached(),
        };
        *entry = update.clone();
    }

    /// Sends the update that is due at the time `now`, in seconds: the
    /// oldest of the queue, if no request is in flight and the update delay
    /// has passed since its media was queued.
    pub fn send_due_update(&mut self, now: u64) -> (r: Vec<Command>)
        ensures
            old(self)@.sends(final(self)@, views(r@), now),
    {
        if self.updates.is_waiting() {
            return none();
        }
        let update = match self.updates.dequeue(now, self.settings.update_delay) {
            Some(update) => update,
            None => {
                return none();
            },
        };
        self.updates.set_waiting(true);
        let mut commands = none();
        let playing = match &self.media {
            Some(playing) => playing.media_id == update.media_id,
            None => false,
        };
        if playing {
            then(
                &mut commands,
                Command::Forward(Message::CancelListUpdate(CancelListUpdate(update.media_id, true))),
            );
        }
        self.store(&update);
        let token = match &self.settings.anilist.token {
            Some(token) => Some(token.clone()),
            None => None,
        };
        then(&mut commands, Command::UpdateMedia { token, media: update });
        proof {
            assert(views(commands@) =~= old(self)@.sending());
        }
        commands
    }

    /// Takes a step at the time `now`, in seconds: handles the message, then
    /// sends the update that is due.
    pub fn update(&mut self, message: Message, now: u64) -> (r: Vec<Command>)
        ensures
            exists|between: AppView, first: Seq<CommandView>, second: Seq<CommandView>|
                {
                    &&& #[trigger] message.handles(old(self)@, between, first, now)
                    &&& #[trigger] between.sends(final(self)@, second, now)
                    &&& views(r@) == first + second
                },
    {
        let first = message.handle(self, now);
        let second = self.send_due_update(now);
        both(first, second)
    }
}

} // verus!
