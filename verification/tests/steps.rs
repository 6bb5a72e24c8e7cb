use fubuki::anilist::models::{
    FuzzyDate, Media, MediaCoverImage, MediaFormat, MediaList, MediaListCollection,
    MediaListGroup, MediaListStatus, MediaTitle, MediaType, User, UserAvatar,
};
use fubuki::app::{
    App, AuthFailed, Authorized, AvatarRetrieved, Command, CoverRetrieved, DetectMedia,
    DetectMediaResult, ListRetrieved, MediaFound, MediaNotFound, MediaUpdateComplete, Message,
    NoMessage, SearchMedia, SearchResults, TokenSaved, UserFound,
};
use fubuki::recognition::numbers::Number;
use fubuki::recognition::parse;
use fubuki::settings::{AniListData, RecognitionData, Settings};
use fubuki::ui::components::nav::{AnimeListPress, CurrentMediaPress, MangaListPress, SettingsPress};
use fubuki::ui::components::page::current_media::{CancelListUpdate, CoverChange, MediaChange};
use fubuki::ui::components::page::media_list::{IncrementMediaProgress, ListFilterTextChange, ListGroupSelected};
use fubuki::ui::components::page::settings::{Login, Logout, RefreshLists, SettingChange};
use fubuki::ui::components::page::Page;

fn media(id: i32, name: &str, episodes: Option<i32>) -> Media {
    Media {
        id,
        title: Some(MediaTitle {
            romaji: Some(name.to_string()),
            english: None,
            native: None,
            user_preferred: None,
        }),
        media_type: Some(MediaType::Anime),
        synonyms: None,
        cover_image: Some(MediaCoverImage { large: Some(format!("https://example.org/{}.jpg", id)) }),
        description: None,
        format: Some(MediaFormat::Tv),
        is_licensed: None,
        relations: None,
        episodes,
        chapters: None,
        volumes: None,
        media_list_entry: None,
    }
}

fn entry(media: Media, progress: i32) -> MediaList {
    MediaList {
        id: 1000 + media.id,
        media_id: media.id,
        status: Some(MediaListStatus::Current),
        progress: Some(progress),
        progress_volumes: None,
        score_bits: None,
        started_at: None,
        completed_at: None,
        media: Some(media),
    }
}

fn search_result(id: i32, name: &str) -> Option<Media> {
    let mut found = media(id, name, Some(12));
    found.media_list_entry = Some(Box::new(MediaList { media: None, ..entry(media(id, name, Some(12)), 0) }));
    Some(found)
}

fn lists(entries: Vec<MediaList>) -> MediaListCollection {
    MediaListCollection {
        lists: Some(vec![Some(MediaListGroup {
            entries: Some(entries.into_iter().map(Some).collect()),
            name: Some("Watching".to_string()),
            is_custom_list: None,
            is_split_completed_list: None,
            status: Some(MediaListStatus::Current),
        })]),
    }
}

fn settings(token: Option<&str>) -> Settings {
    Settings {
        anilist: AniListData { token: token.map(|t| t.to_string()) },
        recognition: RecognitionData::default(),
        update_delay: 5,
    }
}

fn recognized(title: &str, episode: i32) -> parse::Media {
    parse::Media {
        title: title.to_string(),
        media_type: MediaType::Anime,
        progress: Some(Number { whole: episode, thousandths: 0 }),
        progress_volumes: None,
    }
}

fn logged_in() -> App {
    let (mut app, _) = App::new(settings(Some("secret")));
    app.user = Some(User { id: 9, name: "viewer".to_string(), media_list_options: None, options: None, avatar: None });
    app.page.anime.set_list(Some(lists(vec![entry(media(1, "My Show", Some(12)), 3), entry(media(2, "Other", Some(24)), 0)])));
    app
}

fn day() -> FuzzyDate {
    FuzzyDate { year: Some(2022), month: Some(2), day: Some(22) }
}

#[test]
fn app_starts_by_asking_who_the_token_belongs_to() {
    let (app, commands) = App::new(settings(Some("secret")));
    assert!(matches!(commands.as_slice(), [Command::QueryUser { token }] if token == "secret"));
    assert!(app.nav.media_selected);
    assert_eq!(app.page.page, Page::CurrentMedia);
    assert!(app.user.is_none());
    assert!(!app.updates.is_waiting());
    assert_eq!(app.settings.update_delay, 5);
    let (_, commands) = App::new(settings(None));
    assert!(commands.is_empty());
    assert_eq!(Settings::default().update_delay, 5);
    assert!(Settings::default().anilist.token().is_none());
}

#[test]
fn tick_runs_the_recogniser() {
    let mut app = logged_in();
    let commands = app.update(Message::DetectMedia(DetectMedia), 0);
    assert!(matches!(commands.as_slice(), [Command::DetectMedia]));
}

#[test]
fn detection_is_searched_for_once() {
    let mut app = logged_in();
    let commands = DetectMediaResult(Some(recognized("My Show", 4))).handle(&mut app);
    match commands.as_slice() {
        [Command::Forward(Message::SearchMedia(SearchMedia(what, false)))] => assert_eq!(what.title, "My Show"),
        other => panic!("unexpected: {:?}", other),
    }
    assert_eq!(app.recognized.as_ref().unwrap().title, "My Show");
    assert!(DetectMediaResult(Some(recognized("My Show", 4))).handle(&mut app).is_empty());
    let commands = DetectMediaResult(Some(recognized("My Show", 5))).handle(&mut app);
    assert_eq!(commands.len(), 1);
    assert_eq!(app.recognized.as_ref().unwrap().progress.unwrap().whole, 5);
    let commands = DetectMediaResult(None).handle(&mut app);
    assert!(matches!(commands.as_slice(), [Command::Forward(Message::MediaNotFound(_))]));
}

#[test]
fn search_needs_a_token() {
    let mut app = logged_in();
    let commands = SearchMedia(recognized("My Show", 4), true).handle(&mut app);
    match commands.as_slice() {
        [Command::QuerySearch { token, recognized, oneshot: true }] => {
            assert_eq!(token, "secret");
            assert_eq!(recognized.title, "My Show");
        }
        other => panic!("unexpected: {:?}", other),
    }
    app.settings.anilist.forget_token();
    assert!(SearchMedia(recognized("My Show", 4), false).handle(&mut app).is_empty());
    assert_eq!(app.recognized.as_ref().unwrap().title, "My Show");
}

#[test]
fn search_results_reconcile_with_the_lists() {
    let mut app = logged_in();
    app.recognized = Some(recognized("My Show", 4));
    let results = vec![None, search_result(2, "Other"), search_result(1, "My Show")];
    let commands = SearchResults(results, false).handle_on(&mut app, day());
    match commands.as_slice() {
        [Command::Forward(Message::MediaFound(MediaFound(found, what, true)))] => {
            assert_eq!(found.media_id, 1);
            assert_eq!(found.progress, Some(4));
            assert_eq!(what.progress, Some(Number { whole: 4, thousandths: 0 }));
        }
        other => panic!("unexpected: {:?}", other),
    }
    // the list itself is untouched until the update is sent
    assert_eq!(app.page.anime.get_list().unwrap().find_entry_by_id(1).unwrap().progress, Some(3));
}

#[test]
fn search_results_without_progress_need_no_update() {
    let mut app = logged_in();
    app.recognized = Some(recognized("My Show", 3));
    let commands = SearchResults(vec![search_result(1, "My Show")], false).handle(&mut app);
    assert!(matches!(commands.as_slice(), [Command::Forward(Message::MediaFound(MediaFound(_, _, false)))]));
}

#[test]
fn search_results_bring_an_absolute_number_down_to_the_season() {
    let mut app = logged_in();
    // 20 is beyond the 12 episodes of the show, and the show has no prequel:
    // the offset is 20 - 12 + 12 = 20, which is not below the number seen
    app.recognized = Some(recognized("My Show", 20));
    let commands = SearchResults(vec![search_result(1, "My Show")], false).handle_on(&mut app, day());
    match commands.as_slice() {
        [Command::Forward(Message::MediaFound(MediaFound(found, what, false)))] => {
            assert_eq!(found.progress, Some(3));
            assert_eq!(what.progress, None);
        }
        other => panic!("unexpected: {:?}", other),
    }
}

#[test]
fn search_results_that_name_nothing_do_nothing() {
    let mut app = logged_in();
    assert!(SearchResults(vec![search_result(1, "My Show")], false).handle(&mut app).is_empty());
    app.recognized = Some(recognized("Unheard Of", 4));
    assert!(SearchResults(vec![search_result(1, "My Show")], false).handle(&mut app).is_empty());
    app.recognized = Some(recognized("My Show", 4));
    assert!(SearchResults(vec![search_result(1, "My Show")], true).handle(&mut app).is_empty());
    let commands = SearchResults(vec![search_result(7, "My Show")], false).handle(&mut app);
    assert!(matches!(commands.as_slice(), [Command::Forward(Message::MediaNotFound(_))]));
    app.page.anime.set_list(None);
    assert!(SearchResults(vec![search_result(1, "My Show")], false).handle(&mut app).is_empty());
}

#[test]
fn found_media_is_shown_queued_and_its_cover_fetched() {
    let mut app = logged_in();
    let found = entry(media(1, "My Show", Some(12)), 4);
    let commands = MediaFound(found, recognized("My Show", 4), true).handle(&mut app, 100);
    match commands.as_slice() {
        [Command::Forward(Message::MediaChange(MediaChange(Some(shown), Some(what), true))), Command::FetchCover { url }] => {
            assert_eq!(shown.media_id, 1);
            assert_eq!(what.title, "My Show");
            assert_eq!(url, "https://example.org/1.jpg");
        }
        other => panic!("unexpected: {:?}", other),
    }
    assert!(app.waiting_for_cover);
    assert_eq!(app.media.as_ref().unwrap().progress, Some(4));
    assert_eq!(app.updates.find_index(1), Some(0));
    // the same cover again, while the fetch is under way
    let again = entry(media(1, "My Show", Some(12)), 5);
    let commands = MediaFound(again, recognized("My Show", 5), false).handle(&mut app, 101);
    assert_eq!(commands.len(), 1);
    assert_eq!(app.updates.requests.len(), 1);
    assert_eq!(app.updates.requests[0].0.progress, Some(4));
    // an entry without a cover shows the default one
    let mut bare = entry(media(2, "Other", Some(24)), 1);
    bare.media.as_mut().unwrap().cover_image = None;
    let commands = MediaFound(bare, recognized("Other", 1), false).handle(&mut app, 102);
    assert!(matches!(commands.as_slice(), [Command::Forward(Message::MediaChange(_)), Command::Forward(Message::CoverChange(CoverChange(None)))]));
}

#[test]
fn step_sends_the_update_once_its_delay_has_passed() {
    let mut app = logged_in();
    let found = entry(media(1, "My Show", Some(12)), 4);
    let commands = app.update(Message::MediaFound(MediaFound(found, recognized("My Show", 4), true)), 100);
    assert_eq!(commands.len(), 2);
    assert!(app.update(Message::NoMessage(NoMessage), 104).is_empty());
    let commands = app.update(Message::NoMessage(NoMessage), 105);
    match commands.as_slice() {
        [Command::Forward(Message::CancelListUpdate(CancelListUpdate(1, true))), Command::UpdateMedia { token, media }] => {
            assert_eq!(token.as_deref(), Some("secret"));
            assert_eq!(media.media_id, 1);
            assert_eq!(media.progress, Some(4));
        }
        other => panic!("unexpected: {:?}", other),
    }
    assert!(app.updates.is_waiting());
    assert_eq!(app.page.anime.get_list().unwrap().find_entry_by_id(1).unwrap().progress, Some(4));
    // a second update waits for the first to come back
    app.updates.enqueue(entry(media(2, "Other", Some(24)), 1), 0);
    assert!(app.update(Message::NoMessage(NoMessage), 1000).is_empty());
    let commands = app.update(Message::MediaUpdateComplete(MediaUpdateComplete), 1000);
    match commands.as_slice() {
        [Command::UpdateMedia { media, .. }] => assert_eq!(media.media_id, 2),
        other => panic!("unexpected: {:?}", other),
    }
}

#[test]
fn media_that_is_gone_cancels_its_update() {
    let mut app = logged_in();
    assert!(MediaNotFound.handle(&mut app).is_empty());
    MediaFound(entry(media(1, "My Show", Some(12)), 4), recognized("My Show", 4), true).handle(&mut app, 100);
    app.media_cover = Some(vec![1, 2, 3]);
    let commands = MediaNotFound.handle(&mut app);
    assert!(matches!(commands.as_slice(), [Command::Forward(Message::MediaChange(MediaChange(None, None, false)))]));
    assert!(app.media.is_none());
    assert!(app.recognized.is_none());
    assert!(app.media_cover.is_none());
    assert!(app.updates.requests.is_empty());
}

#[test]
fn cancel_takes_the_update_out_unless_it_was_sent() {
    let mut app = logged_in();
    app.updates.enqueue(entry(media(1, "My Show", Some(12)), 4), 0);
    app.page.current_media.show_cancel_button(true);
    assert!(CancelListUpdate(1, true).handle(&mut app).is_empty());
    assert_eq!(app.updates.requests.len(), 1);
    assert!(!app.page.current_media.show_cancel_update);
    CancelListUpdate(1, false).handle(&mut app);
    assert!(app.updates.requests.is_empty());
}

#[test]
fn login_runs_from_token_to_lists() {
    let (mut app, _) = App::new(settings(None));
    let commands = Login.handle(&mut app);
    assert!(matches!(commands.as_slice(), [Command::Authorize]));
    assert!(app.page.settings.logged_in);
    let commands = Authorized("fresh".to_string()).handle(&mut app);
    assert!(matches!(commands.as_slice(), [Command::SaveToken { token }] if token == "fresh"));
    assert_eq!(app.settings.anilist.token().as_deref(), Some("fresh"));
    let commands = TokenSaved { token: "fresh".to_string(), saved: true }.handle(&mut app);
    assert!(matches!(commands.as_slice(), [Command::QueryUser { token }] if token == "fresh"));
    let user = User {
        id: 9,
        name: "viewer".to_string(),
        media_list_options: None,
        options: None,
        avatar: Some(UserAvatar { medium: Some("https://example.org/me.png".to_string()) }),
    };
    let commands = UserFound(user).handle(&mut app);
    assert!(matches!(commands.as_slice(), [Command::FetchAvatar { url }] if url == "https://example.org/me.png"));
    let commands = AvatarRetrieved(vec![7, 7]).handle(&mut app);
    assert!(matches!(commands.as_slice(), [Command::QueryUserLists { token, user_id: 9 }] if token == "fresh"));
    assert_eq!(app.nav.avatar, Some(vec![7, 7]));
    let anime = lists(vec![entry(media(1, "My Show", Some(12)), 3)]);
    assert!(ListRetrieved { anime_list: Some(anime), manga_list: None }.handle(&mut app).is_empty());
    assert_eq!(app.page.anime.get_list().unwrap().count_entries(), 1);
    assert!(app.page.manga.get_list().is_none());
    assert!(Login.handle(&mut app).is_empty());
    let commands = RefreshLists.handle(&mut app);
    assert!(matches!(commands.as_slice(), [Command::QueryUserLists { user_id: 9, .. }]));
}

#[test]
fn failed_login_logs_out() {
    let mut app = logged_in();
    let commands = TokenSaved { token: "fresh".to_string(), saved: false }.handle(&mut app);
    assert!(matches!(commands.as_slice(), [Command::Forward(Message::AuthFailed(_))]));
    let commands = AuthFailed.handle(&mut app);
    assert!(matches!(commands.as_slice(), [Command::Forward(Message::Logout(_))]));
    app.nav.set_avatar(Some(vec![1]));
    let commands = Logout.handle(&mut app);
    assert!(matches!(commands.as_slice(), [Command::SaveAccount]));
    assert!(app.user.is_none());
    assert!(app.settings.anilist.token().is_none());
    assert!(app.page.anime.get_list().is_none());
    assert!(app.nav.avatar.is_none());
    assert!(!app.page.settings.logged_in);
    assert!(RefreshLists.handle(&mut app).is_empty());
}

#[test]
fn cover_arrives_and_is_shown() {
    let mut app = logged_in();
    app.waiting_for_cover = true;
    let commands = CoverRetrieved(Some(vec![1, 2, 3])).handle(&mut app);
    assert!(matches!(commands.as_slice(), [Command::Forward(Message::CoverChange(CoverChange(Some(bytes))))] if bytes == &[1, 2, 3]));
    assert!(!app.waiting_for_cover);
    assert_eq!(app.media_cover, Some(vec![1, 2, 3]));
    CoverChange(Some(vec![4])).handle(&mut app);
    assert_eq!(app.page.current_media.cover, Some(vec![4]));
    MediaChange(Some(entry(media(1, "My Show", Some(12)), 3)), Some(recognized("My Show", 3)), true).handle(&mut app);
    assert_eq!(app.page.current_media.cover, Some(vec![4]));
    assert!(app.page.current_media.show_cancel_update);
    assert_eq!(app.page.current_media.current.as_ref().unwrap().media_id, 1);
    MediaChange(None, None, false).handle(&mut app);
    assert!(app.page.current_media.cover.is_none());
    assert!(app.page.current_media.current.is_none());
    assert!(app.page.current_media.recognized.is_none());
}

#[test]
fn pressing_a_button_of_the_bar_shows_its_page() {
    let mut app = logged_in();
    SettingsPress { selected: false }.handle(&mut app);
    assert_eq!(app.page.page, Page::Settings);
    assert!(app.nav.settings_selected && !app.nav.media_selected && !app.nav.anime_selected && !app.nav.manga_selected);
    AnimeListPress { selected: false }.handle(&mut app);
    assert_eq!(app.page.page, Page::Anime);
    assert!(app.nav.anime_selected && !app.nav.settings_selected);
    MangaListPress { selected: false }.handle(&mut app);
    assert_eq!(app.page.page, Page::Manga);
    assert!(app.nav.manga_selected && !app.nav.anime_selected);
    CurrentMediaPress { selected: true }.handle(&mut app);
    assert_eq!(app.page.page, Page::Manga);
    CurrentMediaPress { selected: false }.handle(&mut app);
    assert_eq!(app.page.page, Page::CurrentMedia);
    assert!(app.nav.media_selected && !app.nav.manga_selected);
}

#[test]
fn list_page_selects_filters_and_counts_up() {
    let mut app = logged_in();
    ListGroupSelected { index: 2, media_type: MediaType::Manga }.handle(&mut app);
    assert_eq!(app.page.manga.selected_index, 2);
    assert_eq!(app.page.anime.selected_index, 0);
    ListFilterTextChange { value: "sho".to_string(), media_type: MediaType::Anime }.handle(&mut app);
    assert_eq!(app.page.anime.filter, "sho");
    let press = || IncrementMediaProgress { media_id: 1, media_type: MediaType::Anime, is_volume_progress: false };
    press().handle(&mut app, 10);
    assert_eq!(app.page.anime.get_list().unwrap().find_entry_by_id(1).unwrap().progress, Some(4));
    assert_eq!(app.updates.requests[0].0.progress, Some(4));
    assert_eq!(app.updates.requests[0].1, 10);
    for _ in 0..20 {
        press().handle(&mut app, 11);
    }
    // the count stops at the twelve episodes of the show
    assert_eq!(app.page.anime.get_list().unwrap().find_entry_by_id(1).unwrap().progress, Some(12));
    assert_eq!(app.updates.requests.len(), 1);
    assert_eq!(app.updates.requests[0].0.progress, Some(12));
    assert_eq!(app.updates.requests[0].1, 10);
    // no volumes are counted for this entry, and no entry is on the manga page
    IncrementMediaProgress { media_id: 1, media_type: MediaType::Anime, is_volume_progress: true }.handle(&mut app, 12);
    IncrementMediaProgress { media_id: 1, media_type: MediaType::Manga, is_volume_progress: false }.handle(&mut app, 12);
    IncrementMediaProgress { media_id: 5, media_type: MediaType::Anime, is_volume_progress: false }.handle(&mut app, 12);
    assert_eq!(app.updates.requests.len(), 1);
    assert_eq!(app.page.anime.get_list().unwrap().find_entry_by_id(1).unwrap().progress_volumes, None);
}

#[test]
fn update_delay_is_set_by_a_number_of_seconds() {
    let mut app = logged_in();
    let commands = SettingChange::UpdateDelay("30".to_string(), false).handle(&mut app);
    assert!(commands.is_empty());
    assert_eq!(app.settings.update_delay, 30);
    let commands = SettingChange::UpdateDelay("+7".to_string(), true).handle(&mut app);
    assert!(matches!(commands.as_slice(), [Command::SaveSettings]));
    assert_eq!(app.settings.update_delay, 7);
    for text in ["", "+", "seven", "7s", "-1", "1.5", " 7", "18446744073709551616", "99999999999999999999999"] {
        assert!(SettingChange::UpdateDelay(text.to_string(), true).handle(&mut app).is_empty());
        assert_eq!(app.settings.update_delay, 7);
    }
    SettingChange::UpdateDelay("18446744073709551615".to_string(), false).handle(&mut app);
    assert_eq!(app.settings.update_delay, u64::MAX);
    SettingChange::UpdateDelay("000".to_string(), false).handle(&mut app);
    assert_eq!(app.settings.update_delay, 0);
}

#[test]
fn recognition_patterns_of_the_user_come_after_the_built_in_ones() {
    let built_in = RecognitionData { anime: vec!["a".to_string()], manga: vec!["m".to_string()] };
    let custom = RecognitionData { anime: vec!["b".to_string(), "c".to_string()], manga: Vec::new() };
    let all = built_in.with_custom(custom);
    assert_eq!(all.anime, vec!["a", "b", "c"]);
    assert_eq!(all.manga, vec!["m"]);
    let mut account = AniListData::default();
    account.save_token("abc");
    assert_eq!(account.token().as_deref(), Some("abc"));
    account.forget_token();
    assert!(account.token().is_none());
}

#[test]
fn current_page_keeps_an_entry_of_the_same_title() {
    let titled = |id: i32, title: Option<&str>, progress: i32| {
        let mut show = media(id, "Romaji", Some(12));
        show.title.as_mut().unwrap().user_preferred = title.map(|t| t.to_string());
        entry(show, progress)
    };
    let mut app = logged_in();
    let page = &mut app.page.current_media;
    page.replace_current_media(Some(titled(1, Some("First"), 1)));
    assert_eq!(page.current.as_ref().unwrap().progress, Some(1));
    // the same title again: the entry shown stays
    page.replace_current_media(Some(titled(1, Some("First"), 2)));
    assert_eq!(page.current.as_ref().unwrap().progress, Some(1));
    // an entry without a preferred title does not take its place
    page.replace_current_media(Some(titled(2, None, 3)));
    assert_eq!(page.current.as_ref().unwrap().media_id, 1);
    page.replace_current_media(Some(titled(2, Some("Second"), 4)));
    assert_eq!(page.current.as_ref().unwrap().media_id, 2);
    page.replace_current_media(None);
    assert!(page.current.is_none());
    page.replace_current_media(Some(titled(3, None, 5)));
    assert_eq!(page.current.as_ref().unwrap().media_id, 3);
    // the entry shown has no preferred title: it stays
    page.replace_current_media(Some(titled(4, Some("Fourth"), 6)));
    assert_eq!(page.current.as_ref().unwrap().media_id, 3);
}
