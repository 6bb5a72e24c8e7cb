use fubuki::anilist::models::{
    FuzzyDate, Media, MediaConnection, MediaCoverImage, MediaEdge, MediaFormat, MediaList,
    MediaListCollection, MediaListGroup, MediaListStatus, MediaRelation, MediaTitle, MediaType,
    User, UserAvatar,
};

fn media(id: i32, romaji: &str, episodes: Option<i32>) -> Media {
    Media {
        id,
        title: Some(MediaTitle {
            romaji: Some(romaji.to_string()),
            english: None,
            native: None,
            user_preferred: None,
        }),
        media_type: Some(MediaType::Anime),
        synonyms: None,
        cover_image: None,
        description: None,
        format: Some(MediaFormat::Tv),
        is_licensed: None,
        relations: None,
        episodes,
        chapters: None,
        volumes: None,
        media_list_entry: None,
    }
}

fn entry(media: Media) -> MediaList {
    MediaList {
        id: 1000 + media.id,
        media_id: media.id,
        status: Some(MediaListStatus::Current),
        progress: Some(0),
        progress_volumes: None,
        score_bits: None,
        started_at: None,
        completed_at: None,
        media: Some(media),
    }
}

fn group(entries: Vec<Option<MediaList>>) -> MediaListGroup {
    MediaListGroup {
        entries: Some(entries),
        name: Some("Watching".to_string()),
        is_custom_list: Some(false),
        is_split_completed_list: Some(false),
        status: Some(MediaListStatus::Current),
    }
}

fn collection(groups: Vec<Option<MediaListGroup>>) -> MediaListCollection {
    MediaListCollection { lists: Some(groups) }
}

fn edge(kind: MediaRelation, node: Media) -> Option<MediaEdge> {
    Some(MediaEdge { node: Some(node), relation_type: Some(kind) })
}

fn with_edges(mut media: Media, edges: Vec<Option<MediaEdge>>) -> Media {
    media.relations = Some(MediaConnection { edges: Some(edges) });
    media
}

fn day(year: i32, month: i32, day: i32) -> FuzzyDate {
    FuzzyDate { year: Some(year), month: Some(month), day: Some(day) }
}

#[test]
fn total_episodes_reach_back_over_one_prequel() {
    let first = media(1, "Long Running Show", Some(276));
    let second = with_edges(
        media(2, "Long Running Show 2", Some(24)),
        vec![edge(MediaRelation::Prequel, media(1, "Long Running Show", Some(276)))],
    );
    let lists = collection(vec![Some(group(vec![Some(entry(first)), Some(entry(second))]))]);
    let season = lists.find_entry_by_id(2).unwrap();
    let season_media = season.media.as_ref().unwrap();
    assert_eq!(lists.compute_total_episodes(season_media, 300), Some(300));
    assert_eq!(lists.compute_progress_offset(season, 300), Some(24));
    assert_eq!(lists.compute_progress_offset_by_id(2, 300), Some(24));
    assert_eq!(lists.compute_progress_offset_by_id(2, 277), Some(1));
}

#[test]
fn total_episodes_stop_at_two_prequels() {
    let season = with_edges(
        media(3, "Split Show", Some(12)),
        vec![
            edge(MediaRelation::Prequel, media(1, "Split Show A", Some(100))),
            edge(MediaRelation::Prequel, media(2, "Split Show B", Some(100))),
        ],
    );
    let lists = collection(vec![Some(group(vec![
        Some(entry(media(1, "Split Show A", Some(100)))),
        Some(entry(media(2, "Split Show B", Some(100)))),
        Some(entry(with_edges(
            media(3, "Split Show", Some(12)),
            vec![
                edge(MediaRelation::Prequel, media(1, "Split Show A", Some(100))),
                edge(MediaRelation::Prequel, media(2, "Split Show B", Some(100))),
            ],
        ))),
    ]))]);
    assert_eq!(lists.compute_total_episodes(&season, 150), Some(12));
    assert_eq!(lists.compute_progress_offset_by_id(3, 150), Some(150));
}

#[test]
fn total_episodes_of_a_season_without_relations() {
    let lists = collection(vec![]);
    let season = media(1, "Standalone", Some(12));
    assert_eq!(lists.compute_total_episodes(&season, 5), Some(12));
    assert_eq!(lists.compute_total_episodes(&season, 12), Some(12));
    assert_eq!(lists.compute_total_episodes(&season, 13), Some(12));
    assert_eq!(lists.compute_total_episodes(&media(1, "Unknown length", None), 13), None);
}

#[test]
fn total_episodes_are_unknown_where_the_prequel_is_not_tracked() {
    let season = with_edges(
        media(2, "Second", Some(12)),
        vec![edge(MediaRelation::Prequel, media(1, "First", Some(12)))],
    );
    let lists = collection(vec![Some(group(vec![Some(entry(media(2, "Second", Some(12))))]))]);
    assert_eq!(lists.compute_total_episodes(&season, 20), None);
    assert_eq!(lists.compute_total_episodes(&season, 12), Some(12));
}

#[test]
fn total_episodes_walk_a_chain_of_three() {
    let first = media(1, "One", Some(10));
    let second = with_edges(media(2, "Two", Some(10)), vec![edge(MediaRelation::Prequel, media(1, "One", Some(10)))]);
    let third = with_edges(media(3, "Three", Some(10)), vec![edge(MediaRelation::Prequel, media(2, "Two", Some(10)))]);
    let lists = collection(vec![Some(group(vec![
        Some(entry(first)),
        Some(entry(second)),
        Some(entry(third)),
    ]))]);
    let season = lists.find_entry_by_id(3).unwrap().media.as_ref().unwrap();
    // 25 lies in the third season: 10 + 10 < 25, so the walk goes on to the
    // first season, where 10 + 10 is not below 25 any more.
    assert_eq!(lists.compute_total_episodes(season, 25), Some(30));
    assert_eq!(lists.compute_progress_offset_by_id(3, 25), Some(5));
    assert_eq!(lists.compute_total_episodes(season, 15), Some(20));
}

#[test]
fn total_episodes_end_on_a_prequel_cycle() {
    let a = with_edges(media(1, "A", Some(12)), vec![edge(MediaRelation::Prequel, media(2, "B", Some(12)))]);
    let b = with_edges(media(2, "B", Some(12)), vec![edge(MediaRelation::Prequel, media(1, "A", Some(12)))]);
    let lists = collection(vec![Some(group(vec![Some(entry(a)), Some(entry(b))]))]);
    let season = lists.find_entry_by_id(1).unwrap().media.as_ref().unwrap();
    // two entries allow two steps along the chain; the third season is not counted
    assert_eq!(lists.compute_total_episodes(season, 1000), Some(36));
}

#[test]
fn total_episodes_that_leave_the_range_are_unknown() {
    let first = media(1, "One", Some(i32::MAX));
    let second = with_edges(
        media(2, "Two", Some(10)),
        vec![edge(MediaRelation::Prequel, media(1, "One", Some(i32::MAX)))],
    );
    let lists = collection(vec![Some(group(vec![Some(entry(first)), Some(entry(second))]))]);
    let season = lists.find_entry_by_id(2).unwrap().media.as_ref().unwrap();
    assert_eq!(lists.compute_total_episodes(season, 11), None);
}

#[test]
fn offset_for_sequel_retargets_to_the_next_season() {
    let first = with_edges(
        media(1, "Show", Some(12)),
        vec![edge(MediaRelation::Sequel, media(2, "Show 2", Some(12)))],
    );
    let second = with_edges(
        media(2, "Show 2", Some(12)),
        vec![edge(MediaRelation::Prequel, media(1, "Show", Some(12)))],
    );
    let lists = collection(vec![Some(group(vec![Some(entry(first)), Some(entry(second))]))]);
    assert_eq!(lists.compute_progress_offset_for_sequel(1, 14), Some((2, 2)));
    assert_eq!(lists.compute_progress_offset_for_sequel(2, 14), None);
    assert_eq!(lists.compute_progress_offset_for_sequel(9, 14), None);
    assert_eq!(lists.season_of(2, 14), (2, Some(2)));
}

#[test]
fn sequel_is_the_one_tv_sequel() {
    let one = with_edges(
        media(1, "Show", Some(12)),
        vec![
            None,
            edge(MediaRelation::Prequel, media(5, "Before", Some(12))),
            edge(MediaRelation::Sequel, {
                let mut movie = media(6, "Movie", Some(1));
                movie.format = Some(MediaFormat::Movie);
                movie
            }),
            edge(MediaRelation::Sequel, media(7, "After", Some(12))),
        ],
    );
    assert_eq!(one.find_anime_sequel().map(|m| m.id), Some(7));
    assert_eq!(one.find_anime_prequel().map(|m| m.id), Some(5));
    let two = with_edges(
        media(1, "Show", Some(12)),
        vec![
            edge(MediaRelation::Sequel, media(7, "After", Some(12))),
            edge(MediaRelation::Sequel, media(8, "Also after", Some(12))),
        ],
    );
    assert!(two.find_anime_sequel().is_none());
    assert!(media(1, "Show", Some(12)).find_anime_sequel().is_none());
}

#[test]
fn find_entry_by_id_takes_the_first_in_order() {
    let mut second_copy = entry(media(7, "Seven again", Some(1)));
    second_copy.id = 2;
    let lists = collection(vec![
        None,
        Some(MediaListGroup {
            entries: None,
            name: None,
            is_custom_list: None,
            is_split_completed_list: None,
            status: None,
        }),
        Some(group(vec![None, Some(entry(media(3, "Three", Some(1)))), Some(entry(media(7, "Seven", Some(1))))])),
        Some(group(vec![Some(second_copy)])),
    ]);
    assert_eq!(lists.count_entries(), 3);
    assert_eq!(lists.find_entry_by_id(7).map(|e| e.id), Some(1007));
    assert_eq!(lists.find_entry_by_id(3).map(|e| e.id), Some(1003));
    assert!(lists.find_entry_by_id(4).is_none());
    assert_eq!(lists.position_of(7), Some((2, 2)));
    assert_eq!(lists.positions(), vec![(2, 1), (2, 2), (3, 0)]);
    assert!(MediaListCollection { lists: None }.find_entry_by_id(7).is_none());
}

#[test]
fn find_entry_by_id_mut_changes_the_entry_in_place() {
    let mut lists = collection(vec![Some(group(vec![
        Some(entry(media(3, "Three", Some(1)))),
        Some(entry(media(7, "Seven", Some(1)))),
    ]))]);
    lists.find_entry_by_id_mut(7).unwrap().progress = Some(9);
    assert_eq!(lists.find_entry_by_id(7).unwrap().progress, Some(9));
    assert_eq!(lists.find_entry_by_id(3).unwrap().progress, Some(0));
    assert!(lists.find_entry_by_id_mut(8).is_none());
}

#[test]
fn update_progress_starts_a_paused_entry() {
    let mut paused = entry(media(1, "Show", Some(12)));
    paused.status = Some(MediaListStatus::Paused);
    let today = day(2020, 7, 14);
    assert!(paused.update_progress_on(Some(1), None, today));
    assert_eq!(paused.progress, Some(1));
    assert_eq!(paused.status, Some(MediaListStatus::Current));
    let started = paused.started_at.unwrap();
    assert_eq!((started.year, started.month, started.day), (Some(2020), Some(7), Some(14)));
    assert!(paused.completed_at.is_none());
}

#[test]
fn update_progress_stamps_the_day_that_the_clock_gives() {
    let mut paused = entry(media(1, "Show", Some(12)));
    paused.status = Some(MediaListStatus::Paused);
    let before = FuzzyDate::today_local();
    assert!(paused.update_progress(Some(1), None));
    let after = FuzzyDate::today_local();
    assert_eq!(paused.status, Some(MediaListStatus::Current));
    let started = paused.started_at.unwrap();
    let stamp = (started.year, started.month, started.day);
    assert!(stamp == (before.year, before.month, before.day) || stamp == (after.year, after.month, after.day));
    assert!(started.year.unwrap() >= 2024);
    assert!((1..=12).contains(&started.month.unwrap()));
    assert!((1..=31).contains(&started.day.unwrap()));
}

#[test]
fn update_progress_is_monotonic() {
    let mut watched = entry(media(1, "Show", Some(12)));
    let today = day(2020, 7, 14);
    assert!(watched.update_progress_on(Some(5), None, today));
    assert_eq!(watched.progress, Some(5));
    assert!(!watched.update_progress_on(Some(5), None, today));
    assert_eq!(watched.progress, Some(5));
    assert!(!watched.update_progress_on(Some(3), None, today));
    assert_eq!(watched.progress, Some(5));
    assert!(!watched.update_progress_on(None, None, today));
    assert_eq!(watched.progress, Some(5));
    assert_eq!(watched.status, Some(MediaListStatus::Current));
    assert!(watched.started_at.is_none());
}

#[test]
fn update_progress_completes_at_the_last_episode() {
    let mut watched = entry(media(1, "Show", Some(12)));
    watched.progress = Some(11);
    let today = day(2021, 1, 2);
    assert!(watched.update_progress_on(Some(12), None, today));
    assert_eq!(watched.status, Some(MediaListStatus::Completed));
    let done = watched.completed_at.unwrap();
    assert_eq!((done.year, done.month, done.day), (Some(2021), Some(1), Some(2)));
}

#[test]
fn update_progress_leaves_a_completed_entry_completed_on_its_first_episode() {
    let mut done = entry(media(1, "Show", Some(12)));
    done.status = Some(MediaListStatus::Completed);
    assert!(done.update_progress_on(Some(1), None, day(2021, 1, 2)));
    assert_eq!(done.status, Some(MediaListStatus::Completed));
    assert!(done.started_at.is_none());
    let mut again = entry(media(1, "Show", Some(12)));
    again.status = Some(MediaListStatus::Repeating);
    assert!(again.update_progress_on(Some(1), None, day(2021, 1, 2)));
    assert_eq!(again.status, Some(MediaListStatus::Repeating));
}

#[test]
fn update_progress_without_a_stored_number_counts_from_zero() {
    let mut fresh = entry(media(1, "Show", Some(12)));
    fresh.progress = None;
    assert!(fresh.update_progress_on(Some(4), None, day(2021, 1, 2)));
    assert_eq!(fresh.progress, Some(4));
    assert_eq!(fresh.status, Some(MediaListStatus::Current));
    assert!(fresh.started_at.is_none());
    let mut blank = entry(media(1, "Show", Some(12)));
    blank.progress = None;
    assert!(!blank.update_progress_on(None, None, day(2021, 1, 2)));
    assert_eq!(blank.progress, Some(0));
    let mut zero = entry(media(1, "Show", Some(12)));
    zero.progress = None;
    assert!(!zero.update_progress_on(Some(0), None, day(2021, 1, 2)));
    assert_eq!(zero.progress, Some(0));
    let mut below = entry(media(1, "Show", Some(12)));
    below.progress = None;
    assert!(!below.update_progress_on(Some(-3), None, day(2021, 1, 2)));
    assert_eq!(below.progress, Some(0));
}

#[test]
fn update_progress_starts_a_paused_entry_without_a_stored_number() {
    let mut paused = entry(media(1, "Show", Some(12)));
    paused.status = Some(MediaListStatus::Paused);
    paused.progress = None;
    assert!(paused.update_progress_on(Some(1), None, day(2021, 1, 2)));
    assert_eq!(paused.progress, Some(1));
    assert_eq!(paused.status, Some(MediaListStatus::Current));
    let started = paused.started_at.unwrap();
    assert_eq!((started.year, started.month, started.day), (Some(2021), Some(1), Some(2)));
    let mut by_clock = entry(media(1, "Show", Some(12)));
    by_clock.status = Some(MediaListStatus::Paused);
    by_clock.progress = None;
    assert!(by_clock.update_progress(Some(1), None));
    assert_eq!(by_clock.status, Some(MediaListStatus::Current));
    assert_eq!(by_clock.progress, Some(1));
    assert!(by_clock.started_at.is_some());
}

#[test]
fn update_progress_changes_nothing_without_an_increase() {
    // at a progress of 1 and at the end of the media, no status changes either
    let mut first = entry(media(1, "Show", Some(12)));
    first.status = Some(MediaListStatus::Paused);
    first.progress = Some(1);
    assert!(!first.update_progress_on(Some(1), None, day(2021, 1, 2)));
    assert_eq!(first.status, Some(MediaListStatus::Paused));
    assert!(first.started_at.is_none());
    let mut last = entry(media(1, "Show", Some(12)));
    last.progress = Some(12);
    assert!(!last.update_progress_on(Some(12), None, day(2021, 1, 2)));
    assert!(!last.update_progress_on(Some(7), None, day(2021, 1, 2)));
    assert!(!last.update_progress_on(None, None, day(2021, 1, 2)));
    assert_eq!(last.status, Some(MediaListStatus::Current));
    assert!(last.completed_at.is_none());
    assert_eq!(last.progress, Some(12));
}

#[test]
fn update_progress_takes_one_off_every_volume_number() {
    let manga = || {
        let mut manga = media(1, "Book", None);
        manga.media_type = Some(MediaType::Manga);
        manga.chapters = Some(100);
        manga.volumes = Some(10);
        let mut reading = entry(manga);
        reading.progress = Some(3);
        reading
    };
    // a stored count below zero and volume 0: max(-1, 0 - 1) is the stored count
    let mut odd = manga();
    odd.progress_volumes = Some(-1);
    assert!(!odd.update_progress_on(Some(3), Some(0), day(2021, 1, 2)));
    assert_eq!(odd.progress_volumes, Some(-1));
    let mut lower = manga();
    lower.progress_volumes = Some(-5);
    assert!(lower.update_progress_on(Some(3), Some(-2), day(2021, 1, 2)));
    assert_eq!(lower.progress_volumes, Some(-3));
    let mut least = manga();
    least.progress_volumes = Some(i32::MIN);
    assert!(!least.update_progress_on(Some(3), Some(i32::MIN), day(2021, 1, 2)));
    assert_eq!(least.progress_volumes, Some(i32::MIN));
    let mut most = manga();
    most.progress_volumes = Some(0);
    assert!(most.update_progress_on(Some(3), Some(i32::MAX), day(2021, 1, 2)));
    assert_eq!(most.progress_volumes, Some(i32::MAX - 1));
    let mut unset = manga();
    unset.progress_volumes = None;
    assert!(!unset.update_progress_on(Some(3), Some(1), day(2021, 1, 2)));
    assert_eq!(unset.progress_volumes, Some(0));
    let mut unset = manga();
    unset.progress_volumes = None;
    assert!(!unset.update_progress_on(Some(3), Some(0), day(2021, 1, 2)));
    assert_eq!(unset.progress_volumes, Some(0));
}

#[test]
fn update_progress_needs_media_and_category() {
    let mut bare = entry(media(1, "Show", Some(12)));
    bare.media = None;
    assert!(!bare.update_progress_on(Some(4), None, day(2021, 1, 2)));
    assert_eq!(bare.progress, Some(0));
    let mut untyped = entry(media(1, "Show", Some(12)));
    untyped.media.as_mut().unwrap().media_type = None;
    assert!(!untyped.update_progress_on(Some(4), None, day(2021, 1, 2)));
    assert_eq!(untyped.progress, Some(0));
}

#[test]
fn update_progress_counts_finished_volumes() {
    let mut manga = media(1, "Book", None);
    manga.media_type = Some(MediaType::Manga);
    manga.format = Some(MediaFormat::Manga);
    manga.chapters = Some(100);
    manga.volumes = Some(10);
    let mut reading = entry(manga);
    reading.progress = Some(3);
    reading.progress_volumes = Some(0);
    // reading volume 3 means that two volumes are finished
    assert!(reading.update_progress_on(Some(3), Some(3), day(2021, 1, 2)));
    assert_eq!(reading.progress, Some(3));
    assert_eq!(reading.progress_volumes, Some(2));
    assert!(!reading.update_progress_on(Some(3), Some(3), day(2021, 1, 2)));
    assert!(!reading.update_progress_on(Some(3), Some(1), day(2021, 1, 2)));
    assert_eq!(reading.progress_volumes, Some(2));
    let mut fresh = {
        let mut manga = media(2, "Book", None);
        manga.media_type = Some(MediaType::Manga);
        entry(manga)
    };
    fresh.progress_volumes = None;
    assert!(fresh.update_progress_on(None, Some(4), day(2021, 1, 2)));
    assert_eq!(fresh.progress_volumes, Some(3));
}

#[test]
fn update_progress_completes_a_manga_at_its_last_chapter() {
    let mut manga = media(1, "Book", None);
    manga.media_type = Some(MediaType::Manga);
    manga.chapters = Some(40);
    let mut reading = entry(manga);
    reading.progress = Some(39);
    assert!(reading.update_progress_on(Some(40), None, day(2021, 1, 2)));
    assert_eq!(reading.status, Some(MediaListStatus::Completed));
}

#[test]
fn copies_hold_the_same_data() {
    let source = entry(with_edges(
        media(1, "Show", Some(12)),
        vec![None, edge(MediaRelation::Sequel, media(2, "Show 2", Some(12)))],
    ));
    let copy = source.clone();
    assert_eq!(copy.media_id, 1);
    let relations = copy.media.as_ref().unwrap().relations.as_ref().unwrap();
    let edges = relations.edges.as_ref().unwrap();
    assert_eq!(edges.len(), 2);
    assert!(edges[0].is_none());
    assert_eq!(edges[1].as_ref().unwrap().node.as_ref().unwrap().id, 2);
    assert_eq!(copy.media.as_ref().unwrap().find_anime_sequel().map(|m| m.id), Some(2));
    let lists = collection(vec![None, Some(group(vec![Some(source), None]))]);
    let copied = lists.clone();
    assert_eq!(copied.positions(), vec![(1, 0)]);
    assert_eq!(copied.find_entry_by_id(1).unwrap().id, 1001);
}

#[test]
fn names_of_types_and_formats() {
    assert_eq!(MediaType::Anime.string(), "Anime");
    assert_eq!(MediaType::Manga.string(), "Manga");
    assert_eq!(MediaType::default(), MediaType::Anime);
    assert_eq!(MediaFormat::Tv.str(), "TV");
    assert_eq!(MediaFormat::TvShort.str(), "TV Short");
    assert_eq!(MediaFormat::Movie.str(), "Movie");
    assert_eq!(MediaFormat::Special.str(), "Special");
    assert_eq!(MediaFormat::Ova.str(), "OVA");
    assert_eq!(MediaFormat::Ona.str(), "ONA");
    assert_eq!(MediaFormat::Music.str(), "Music");
    assert_eq!(MediaFormat::Manga.str(), "Manga");
    assert_eq!(MediaFormat::Novel.str(), "Light Novel");
    assert_eq!(MediaFormat::Oneshot.str(), "Oneshot");
}

#[test]
fn avatar_and_cover_addresses() {
    let mut user = User { id: 1, name: "viewer".to_string(), media_list_options: None, options: None, avatar: None };
    assert_eq!(user.get_avatar_url(), None);
    user.avatar = Some(UserAvatar { medium: Some("https://example.org/a.png".to_string()) });
    assert_eq!(user.get_avatar_url(), Some("https://example.org/a.png".to_string()));
    let mut show = media(1, "Show", None);
    assert_eq!(show.cover_image_url(), None);
    assert_eq!(show.preferred_title(), None);
    show.cover_image = Some(MediaCoverImage { large: Some("https://example.org/c.jpg".to_string()) });
    show.title.as_mut().unwrap().user_preferred = Some("The Show".to_string());
    assert_eq!(show.cover_image_url(), Some("https://example.org/c.jpg".to_string()));
    assert_eq!(show.preferred_title(), Some("The Show".to_string()));
}
