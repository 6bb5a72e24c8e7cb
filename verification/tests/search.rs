use fubuki::anilist::models::{
    Media, MediaFormat, MediaList, MediaListCollection, MediaListGroup, MediaListStatus,
    MediaTitle, MediaType,
};
use fubuki::anilist::ranking::Rank;
use fubuki::anilist::similarity::{normalized_levenshtein, Similarity};
use fubuki::text::occurs;

fn media(id: i32, names: &[&str]) -> Media {
    Media {
        id,
        title: Some(MediaTitle {
            romaji: names.first().map(|s| s.to_string()),
            english: None,
            native: None,
            user_preferred: None,
        }),
        media_type: Some(MediaType::Anime),
        synonyms: Some(names.iter().skip(1).map(|s| Some(s.to_string())).collect()),
        cover_image: None,
        description: None,
        format: Some(MediaFormat::Tv),
        is_licensed: None,
        relations: None,
        episodes: Some(12),
        chapters: None,
        volumes: None,
        media_list_entry: None,
    }
}

fn entry(media: Media) -> MediaList {
    MediaList {
        id: 1000 + media.id,
        media_id: media.id,
        status: Some(MediaListStatus::Current),
        progress: Some(0),
        progress_volumes: None,
        score_bits: None,
        started_at: None,
        completed_at: None,
        media: Some(media),
    }
}

fn on_list(mut media: Media) -> Media {
    let bare = Media { media_list_entry: None, relations: None, ..media.clone() };
    media.media_list_entry = Some(Box::new(MediaList { media: None, ..entry(bare) }));
    media
}

fn lists(entries: Vec<Option<MediaList>>) -> MediaListCollection {
    MediaListCollection {
        lists: Some(vec![Some(MediaListGroup {
            entries: Some(entries),
            name: None,
            is_custom_list: None,
            is_split_completed_list: None,
            status: None,
        })]),
    }
}

fn score(s: Similarity) -> (usize, usize) {
    (s.distance, s.length)
}

#[test]
fn similarity_counts_edits_against_the_longer_length() {
    assert_eq!(score(normalized_levenshtein("kitten", "sitting")), (3, 7));
    assert_eq!(score(normalized_levenshtein("", "")), (0, 1));
    assert_eq!(score(normalized_levenshtein("", "second")), (6, 6));
    assert_eq!(score(normalized_levenshtein("first", "")), (5, 5));
    assert_eq!(score(normalized_levenshtein("string", "string")), (0, 6));
    // lengths are counted in characters, not in bytes
    assert_eq!(score(normalized_levenshtein("進撃の巨人", "進撃の巨大")), (1, 5));
}

#[test]
fn similarity_threshold_is_85_in_100() {
    // 3 edits in 20 characters: exactly 0.85
    assert!(Similarity { distance: 3, length: 20 }.at_least_threshold());
    assert!(!Similarity { distance: 4, length: 20 }.at_least_threshold());
    assert!(Similarity { distance: 0, length: 1 }.at_least_threshold());
    assert!(!Similarity { distance: 1, length: 6 }.at_least_threshold());
    assert!(Similarity { distance: 1, length: 7 }.at_least_threshold());
    assert!(Similarity { distance: usize::MAX / 20, length: usize::MAX }.at_least_threshold());
    assert!(!Similarity { distance: usize::MAX, length: usize::MAX }.at_least_threshold());
}

#[test]
fn similarity_compares_as_a_fraction() {
    let nine_of_ten = Similarity { distance: 1, length: 10 };
    let eighteen_of_twenty = Similarity { distance: 2, length: 20 };
    let eight_of_ten = Similarity { distance: 2, length: 10 };
    assert!(nine_of_ten.is_same_as(&eighteen_of_twenty));
    assert!(!nine_of_ten.is_higher_than(&eighteen_of_twenty));
    assert!(nine_of_ten.is_higher_than(&eight_of_ten));
    assert!(!eight_of_ten.is_higher_than(&nine_of_ten));
    let huge = Similarity { distance: usize::MAX - 1, length: usize::MAX };
    let huger = Similarity { distance: usize::MAX, length: usize::MAX };
    assert!(huge.is_higher_than(&huger));
    assert!(!huge.is_same_as(&huger));
}

#[test]
fn rank_prefers_licensed_on_a_tie_only() {
    let licensed = Rank { similarity: Similarity { distance: 1, length: 10 }, licensed: true };
    let plain = Rank { similarity: Similarity { distance: 1, length: 10 }, licensed: false };
    let better = Rank { similarity: Similarity { distance: 0, length: 10 }, licensed: false };
    assert!(licensed.is_ahead_of(&plain));
    assert!(!plain.is_ahead_of(&licensed));
    assert!(!plain.is_ahead_of(&plain));
    assert!(!licensed.is_ahead_of(&licensed));
    assert!(better.is_ahead_of(&licensed));
    assert!(!licensed.is_ahead_of(&better));
}

#[test]
fn search_for_title_finds_the_exact_title() {
    let mut all = lists(vec![
        Some(entry(media(1, &["Attack on Titans"]))),
        None,
        Some(entry(media(2, &["Attack on Titan"]))),
        Some(entry(media(3, &["Attack on Titan"]))),
    ]);
    let found = all.search_for_title("Attack on Titan").unwrap();
    assert_eq!(found.media_id, 2);
    found.progress = Some(4);
    assert_eq!(all.find_entry_by_id(2).unwrap().progress, Some(4));
    assert_eq!(all.search_position("Attack on Titan"), Some((0, 2)));
}

#[test]
fn search_for_title_takes_the_most_similar_and_the_first_of_equals() {
    let mut all = lists(vec![
        Some(entry(media(1, &["Some Long Title Here!"]))),
        Some(entry(media(2, &["Some Long Title Here"]))),
        Some(entry(media(3, &["Some Long Title Her"]))),
        Some(entry(media(4, &["Another Show", "Some Long Title Here."]))),
    ]);
    assert_eq!(all.search_for_title("Some Long Title Here").map(|e| e.media_id), Some(2));
    // 1 and 4 are one edit off in 21 characters, 3 is one off in 20: 1 wins among the equals
    assert_eq!(all.search_for_title("Some Long Title Here?").map(|e| e.media_id), Some(1));
    assert!(all.search_for_title("Something else entirely").is_none());
    assert!(all.search_for_title("").is_none());
}

#[test]
fn search_for_title_looks_at_every_name_of_an_entry() {
    let mut show = media(5, &["Shingeki no Kyojin", "AoT"]);
    show.title.as_mut().unwrap().english = Some("Attack on Titan".to_string());
    show.title.as_mut().unwrap().native = Some("進撃の巨人".to_string());
    let mut all = lists(vec![Some(entry(media(1, &["Attack on Titen"]))), Some(entry(show))]);
    assert_eq!(all.search_for_title("Attack on Titan").map(|e| e.media_id), Some(5));
    assert_eq!(all.search_for_title("AoT").map(|e| e.media_id), Some(5));
    assert_eq!(all.search_for_title("進撃の巨人").map(|e| e.media_id), Some(5));
    assert_eq!(all.search_for_title("Attack on Titen").map(|e| e.media_id), Some(1));
}

#[test]
fn all_titles_lists_variants_then_synonyms() {
    let mut show = media(5, &["romaji", "first synonym", "second synonym"]);
    {
        let title = show.title.as_mut().unwrap();
        title.english = Some("english".to_string());
        title.native = Some("native".to_string());
        title.user_preferred = Some("preferred".to_string());
    }
    show.synonyms.as_mut().unwrap().insert(1, None);
    let names: Vec<&str> = show.all_titles().into_iter().map(|s| s.as_str()).collect();
    assert_eq!(names, vec!["romaji", "preferred", "native", "english", "first synonym", "second synonym"]);
    show.title = None;
    let names: Vec<&str> = show.all_titles().into_iter().map(|s| s.as_str()).collect();
    assert_eq!(names, vec!["first synonym", "second synonym"]);
    show.synonyms = None;
    assert!(show.all_titles().is_empty());
}

#[test]
fn best_id_prefers_the_licensed_of_two_equals() {
    // both names are one edit off the query in ten characters: similarity 0.9
    let mut fan = on_list(media(10, &["Great Show"]));
    fan.is_licensed = Some(false);
    let mut official = on_list(media(11, &["Great Shov"]));
    official.is_licensed = Some(true);
    let query = "Great Shoe";
    let results = vec![Some(&fan), Some(&official)];
    assert_eq!(MediaListCollection::best_id_for_search(&results, query, false), Some(11));
    let results = vec![Some(&official), Some(&fan)];
    assert_eq!(MediaListCollection::best_id_for_search(&results, query, false), Some(11));
}

#[test]
fn best_id_takes_the_first_of_two_unlicensed_equals() {
    let a = on_list(media(10, &["Great Show"]));
    let b = on_list(media(11, &["Great Shov"]));
    let results = vec![None, Some(&a), Some(&b)];
    assert_eq!(MediaListCollection::best_id_for_search(&results, "Great Shoe", false), Some(10));
    let results = vec![Some(&b), Some(&a)];
    assert_eq!(MediaListCollection::best_id_for_search(&results, "Great Shoe", false), Some(11));
}

#[test]
fn best_id_prefers_similarity_over_licence() {
    let mut official = on_list(media(10, &["Great Shov"]));
    official.is_licensed = Some(true);
    let exact = on_list(media(11, &["Great Shoe"]));
    let results = vec![Some(&official), Some(&exact)];
    assert_eq!(MediaListCollection::best_id_for_search(&results, "Great Shoe", false), Some(11));
}

#[test]
fn best_id_needs_a_tracked_candidate_of_the_right_format() {
    let untracked = media(10, &["Great Show"]);
    let results = vec![Some(&untracked)];
    assert_eq!(MediaListCollection::best_id_for_search(&results, "Great Show", false), None);
    let show = on_list(media(10, &["Great Show"]));
    let mut oneshot = on_list(media(11, &["Great Show"]));
    oneshot.format = Some(MediaFormat::Oneshot);
    let mut unknown = on_list(media(12, &["Great Show"]));
    unknown.format = None;
    let results = vec![Some(&unknown), Some(&oneshot), Some(&show)];
    assert_eq!(MediaListCollection::best_id_for_search(&results, "Great Show", false), Some(10));
    assert_eq!(MediaListCollection::best_id_for_search(&results, "Great Show", true), Some(11));
    assert_eq!(MediaListCollection::best_id_for_search(&results, "Other", true), None);
    assert_eq!(MediaListCollection::best_id_for_search(&[], "Great Show", true), None);
    assert!(show.is_candidate(false));
    assert!(!show.is_candidate(true));
    assert!(oneshot.is_candidate(true));
    assert!(!unknown.is_candidate(false));
}

#[test]
fn collection_best_id_looks_at_tracked_oneshots() {
    let mut oneshot = on_list(media(11, &["Short Story"]));
    oneshot.format = Some(MediaFormat::Oneshot);
    let show = on_list(media(10, &["Short Story"]));
    let all = lists(vec![Some(entry(show)), Some(entry(oneshot))]);
    assert_eq!(all.collection_best_id_for_search("Short Story", true), Some(11));
    assert_eq!(all.collection_best_id_for_search("Short Story", false), None);
    assert_eq!(all.collection_best_id_for_search("Long Story Far Away", true), None);
}

#[test]
fn rank_for_is_the_rank_of_the_best_name() {
    let show = media(1, &["Great Shov", "Great Shoe", "Another"]);
    let rank = show.rank_for("Great Shoe", true).unwrap();
    assert_eq!(score(rank.similarity), (0, 10));
    assert!(rank.licensed);
    let rank = show.rank_for("Great Show", false).unwrap();
    assert_eq!(score(rank.similarity), (1, 10));
    assert!(show.rank_for("Unrelated", false).is_none());
}

#[test]
fn filter_looks_for_the_text_in_every_name_in_lower_case() {
    let mut show = media(5, &["Shingeki no Kyojin", "AoT"]);
    show.title.as_mut().unwrap().english = Some("Attack on Titan".to_string());
    show.title.as_mut().unwrap().native = Some("進撃の巨人".to_string());
    let listed = entry(show);
    for filter in ["", "attack", "ATTACK ON", "Titan", "aot", "kyojin", "撃の巨", "n", "Attack on Titan"] {
        assert!(listed.titles_contain(filter), "{}", filter);
    }
    for filter in ["attack  on", "titans", "Attack on Titan!", "x", "巨撃"] {
        assert!(!listed.titles_contain(filter), "{}", filter);
    }
    let mut bare = entry(media(6, &["Name"]));
    bare.media = None;
    assert!(bare.titles_contain(""));
    assert!(!bare.titles_contain("n"));
    let mut nameless = media(7, &[]);
    nameless.title = None;
    assert!(!nameless.titles_contain(""));
    assert!(entry(nameless).titles_contain(""));
}

#[test]
fn occurs_finds_a_part_anywhere() {
    let chars = |s: &str| s.chars().collect::<Vec<char>>();
    assert!(occurs(&chars(""), &chars("")));
    assert!(occurs(&chars(""), &chars("abc")));
    assert!(occurs(&chars("abc"), &chars("abc")));
    assert!(occurs(&chars("a"), &chars("abc")));
    assert!(occurs(&chars("c"), &chars("abc")));
    assert!(occurs(&chars("bc"), &chars("abc")));
    assert!(occurs(&chars("aab"), &chars("aaab")));
    assert!(!occurs(&chars("abcd"), &chars("abc")));
    assert!(!occurs(&chars("ac"), &chars("abc")));
    assert!(!occurs(&chars("a"), &chars("")));
    assert!(!occurs(&chars("ba"), &chars("abc")));
}
