use fubuki::anilist::models::MediaType;
use fubuki::recognition::numbers::{parse_number, Number};
use fubuki::recognition::parse::{recognize_in, MediaParser, PatternError};
use fubuki::recognition::captures::Captures;

const CRUNCHYROLL: &str = "^(?P<title>.+) Episode (?P<episode>\\d+),.+?- Watch on Crunchyroll";
const MANGADEX: &str = "^(?P<title>.+) - (Vol[.] (?P<volume>\\d+) )?(Ch[.] (?P<chapter>(\\d+[.])?\\d+) )?(?P<oneshot>Oneshot)?.*?- MangaDex";

fn strings(items: &[&str]) -> Vec<String> {
    items.iter().map(|s| s.to_string()).collect()
}

fn parser() -> MediaParser {
    MediaParser::new(&strings(&[CRUNCHYROLL]), &strings(&[MANGADEX])).unwrap()
}

fn number(whole: i32, thousandths: u16) -> Option<Number> {
    Some(Number { whole, thousandths })
}

#[test]
fn number_reads_digits_with_at_most_one_point() {
    assert_eq!(parse_number("12"), number(12, 0));
    assert_eq!(parse_number("39.1"), number(39, 100));
    assert_eq!(parse_number("39.125"), number(39, 125));
    assert_eq!(parse_number("39.1259"), number(39, 125));
    assert_eq!(parse_number("39.05"), number(39, 50));
    assert_eq!(parse_number("7."), number(7, 0));
    assert_eq!(parse_number(".5"), number(0, 500));
    assert_eq!(parse_number("007"), number(7, 0));
    assert_eq!(parse_number("0"), number(0, 0));
    assert_eq!(parse_number("2147483647"), number(i32::MAX, 0));
    assert_eq!(parse_number("2147483648"), number(i32::MAX, 0));
    assert_eq!(parse_number("99999999999999999999999999.9"), number(i32::MAX, 900));
}

#[test]
fn number_rejects_what_is_no_number() {
    assert_eq!(parse_number(""), None);
    assert_eq!(parse_number("."), None);
    assert_eq!(parse_number("1.2.3"), None);
    assert_eq!(parse_number("1..2"), None);
    assert_eq!(parse_number("abc"), None);
    assert_eq!(parse_number("12a"), None);
    assert_eq!(parse_number("1.a"), None);
    assert_eq!(parse_number("-1"), None);
    assert_eq!(parse_number("+1"), None);
    assert_eq!(parse_number("1e3"), None);
    assert_eq!(parse_number(" 1"), None);
    assert_eq!(parse_number("１２"), None);
}

#[test]
fn catalog_recognises_an_anime_episode() {
    let parser = parser();
    let titles = strings(&[
        "Terminal",
        "My Show Episode 12, The One With The Thing - Watch on Crunchyroll - Mozilla Firefox",
        "Other Show Episode 3, Later - Watch on Crunchyroll",
    ]);
    let media = parser.detect_media(&titles).unwrap();
    assert_eq!(media.title, "My Show");
    assert_eq!(media.media_type, MediaType::Anime);
    assert_eq!(media.progress, number(12, 0));
    assert_eq!(media.progress_volumes, None);
}

#[test]
fn catalog_recognises_a_manga_chapter() {
    let parser = parser();
    let media = parser.recognize_title("Some Manga - Vol. 4 Ch. 39.1 - MangaDex").unwrap();
    assert_eq!(media.title, "Some Manga");
    assert_eq!(media.media_type, MediaType::Manga);
    assert_eq!(media.progress, number(39, 100));
    assert_eq!(media.progress_volumes, number(4, 0));
    let media = parser.recognize_title("Some Manga - Ch. 7 - MangaDex").unwrap();
    assert_eq!(media.progress, number(7, 0));
    assert_eq!(media.progress_volumes, None);
    let media = parser.recognize_title("Short One - Oneshot - MangaDex").unwrap();
    assert_eq!(media.title, "Short One");
    assert_eq!(media.progress, None);
}

#[test]
fn catalog_recognises_nothing_without_a_match() {
    let parser = parser();
    assert!(parser.detect_media(&strings(&["Terminal", "Files", ""])).is_none());
    assert!(parser.detect_media(&Vec::new()).is_none());
    assert!(parser.recognize_title("Episode 12, - Watch on Crunchyroll").is_none());
    assert!(MediaParser::default().detect_media(&strings(&["My Show Episode 12, x - Watch on Crunchyroll"])).is_none());
}

#[test]
fn catalog_recognises_nothing_without_a_title() {
    let no_group = MediaParser::new(&strings(&["Episode (?P<episode>\\d+)"]), &Vec::new()).unwrap();
    assert!(no_group.recognize_title("Show Episode 5").is_none());
    let empty = MediaParser::new(&strings(&["^(?P<title>.*)Episode (?P<episode>\\d+)"]), &Vec::new()).unwrap();
    assert!(empty.recognize_title("Episode 5").is_none());
    assert_eq!(empty.recognize_title("Show Episode 5").map(|m| m.title), Some("Show ".to_string()));
    let absent = MediaParser::new(&strings(&["^((?P<title>[a-z]+) )?Episode"]), &Vec::new()).unwrap();
    assert!(absent.recognize_title("Episode 5").is_none());
    assert_eq!(absent.recognize_title("show Episode 5").map(|m| m.title), Some("show".to_string()));
}

#[test]
fn catalog_tries_manga_where_the_anime_match_has_no_title() {
    let parser = MediaParser::new(
        &strings(&["^(?P<title>.*)Reader (?P<episode>\\d+)"]),
        &strings(&["Reader (?P<chapter>\\d+) of (?P<title>.+)$"]),
    )
    .unwrap();
    let media = parser.recognize_title("Reader 5 of Some Book").unwrap();
    assert_eq!(media.media_type, MediaType::Manga);
    assert_eq!(media.title, "Some Book");
    assert_eq!(media.progress, number(5, 0));
    let media = parser.detect_media(&strings(&["Reader 5", "My Reader 6 of Y"])).unwrap();
    assert_eq!(media.media_type, MediaType::Anime);
    assert_eq!(media.title, "My ");
}

#[test]
fn catalog_prefers_anime_and_the_first_pattern_that_matches() {
    let parser = MediaParser::new(
        &strings(&["^(?P<title>Never)$", "^(?P<title>.+) #(?P<episode>\\d+)$", "^(?P<title>.+)$"]),
        &strings(&["^(?P<title>.+) #(?P<chapter>\\d+)$"]),
    )
    .unwrap();
    let media = parser.recognize_title("Thing #3").unwrap();
    assert_eq!(media.media_type, MediaType::Anime);
    assert_eq!(media.title, "Thing");
    assert_eq!(media.progress, number(3, 0));
    assert_eq!(parser.match_set(MediaType::Anime, "Thing #3"), Some("^(?P<title>.+) #(?P<episode>\\d+)$"));
    assert_eq!(parser.match_set(MediaType::Anime, "Never"), Some("^(?P<title>Never)$"));
    assert_eq!(parser.match_set(MediaType::Anime, ""), None);
    assert_eq!(parser.match_set(MediaType::Manga, "Thing #3"), Some("^(?P<title>.+) #(?P<chapter>\\d+)$"));
    assert_eq!(parser.match_set(MediaType::Manga, "Thing"), None);
    let media = parser.recognize_title("Thing").unwrap();
    assert_eq!(media.title, "Thing");
    assert_eq!(media.progress, None);
}

#[test]
fn catalog_gives_no_number_for_a_group_that_writes_none() {
    let parser = MediaParser::new(&strings(&["^(?P<title>.+) ep (?P<episode>\\S+)$"]), &Vec::new()).unwrap();
    let media = parser.recognize_title("Show ep twelve").unwrap();
    assert_eq!(media.title, "Show");
    assert_eq!(media.progress, None);
    let media = parser.recognize_title("Show ep 12.5").unwrap();
    assert_eq!(media.progress, number(12, 500));
    let media = parser.recognize_title("Show ep +3").unwrap();
    assert_eq!(media.progress, None);
    let media = parser.recognize_title("Show ep 1e2").unwrap();
    assert_eq!(media.progress, None);
}

#[test]
fn captures_hold_every_group_in_order() {
    let parser = MediaParser::new(&strings(&["^(?P<title>\\w+)( (\\d+))? (?P<episode>\\d+)?x$"]), &Vec::new()).unwrap();
    let found = parser.parse_anime("Show x").unwrap();
    let names: Vec<Option<&str>> = found.groups.iter().map(|g| g.0.as_deref()).collect();
    assert_eq!(names, vec![None, Some("title"), None, None, Some("episode")]);
    let texts: Vec<Option<&str>> = found.groups.iter().map(|g| g.1.as_deref()).collect();
    assert_eq!(texts, vec![Some("Show x"), Some("Show"), None, None, None]);
    assert_eq!(found.name("title").map(|s| s.as_str()), Some("Show"));
    assert_eq!(found.name("episode"), None);
    assert_eq!(found.name("missing"), None);
    assert!(parser.parse_anime("nothing here").is_none());
    assert!(parser.parse_manga("Show x").is_none());
}

#[test]
fn recognize_in_reads_the_groups_of_its_category() {
    let found = Captures {
        groups: vec![
            (None, Some("whole".to_string())),
            (Some("title".to_string()), Some("Name".to_string())),
            (Some("episode".to_string()), Some("3".to_string())),
            (Some("chapter".to_string()), Some("4.5".to_string())),
            (Some("volume".to_string()), Some("2".to_string())),
        ],
    };
    let anime = recognize_in(&found, MediaType::Anime).unwrap();
    assert_eq!((anime.progress, anime.progress_volumes), (number(3, 0), None));
    let manga = recognize_in(&found, MediaType::Manga).unwrap();
    assert_eq!((manga.progress, manga.progress_volumes), (number(4, 500), number(2, 0)));
    let untitled = Captures { groups: vec![(Some("title".to_string()), Some(String::new()))] };
    assert!(recognize_in(&untitled, MediaType::Anime).is_none());
    let silent = Captures { groups: vec![(Some("title".to_string()), None)] };
    assert!(recognize_in(&silent, MediaType::Manga).is_none());
}

#[test]
fn catalog_reports_the_first_pattern_that_does_not_compile() {
    let good = strings(&["a", "b"]);
    let bad = strings(&["a", "(", "["]);
    match MediaParser::new(&bad, &good) {
        Err(PatternError::Anime { index, .. }) => assert_eq!(index, 1),
        other => panic!("unexpected: {:?}", other.map(|_| ())),
    }
    match MediaParser::new(&good, &bad) {
        Err(PatternError::Manga { index, .. }) => assert_eq!(index, 1),
        other => panic!("unexpected: {:?}", other.map(|_| ())),
    }
    match MediaParser::new(&bad, &bad) {
        Err(PatternError::Anime { index, .. }) => assert_eq!(index, 1),
        other => panic!("unexpected: {:?}", other.map(|_| ())),
    }
    let parser = MediaParser::new(&good, &Vec::new()).unwrap();
    assert_eq!(parser.pattern_texts(MediaType::Anime), good);
    assert!(parser.pattern_texts(MediaType::Manga).is_empty());
    assert_eq!(parser.match_set(MediaType::Anime, "abc"), Some("a"));
    assert_eq!(parser.match_set(MediaType::Anime, "xbx"), Some("b"));
    let empty = MediaParser::default();
    assert!(empty.pattern_texts(MediaType::Anime).is_empty());
    assert!(empty.pattern_texts(MediaType::Manga).is_empty());
    assert_eq!(empty.match_set(MediaType::Anime, "abc"), None);
}

#[test]
fn catalog_reports_a_set_that_does_not_compile() {
    // each pattern is within the size limit by itself, the set of them is not
    let one = "\\pL{100}".to_string();
    assert!(regex::Regex::new(&one).is_ok());
    let mut many: Vec<String> = vec![one.clone(), one.clone()];
    while regex::RegexSet::new(&many).is_ok() {
        assert!(many.len() < 4096);
        let more = many.clone();
        many.extend(more);
    }
    match MediaParser::new(&many, &Vec::new()) {
        Err(PatternError::AnimeSet { .. }) => {}
        other => panic!("unexpected: {:?}", other.map(|_| ())),
    }
    match MediaParser::new(&Vec::new(), &many) {
        Err(PatternError::MangaSet { .. }) => {}
        other => panic!("unexpected: {:?}", other.map(|_| ())),
    }
}

#[test]
fn same_as_compares_title_category_and_numbers() {
    let parser = parser();
    let a = parser.recognize_title("Some Manga - Vol. 4 Ch. 39.1 - MangaDex").unwrap();
    let b = parser.recognize_title("Some Manga - Vol. 4 Ch. 39.1 - MangaDex").unwrap();
    let c = parser.recognize_title("Some Manga - Vol. 4 Ch. 39.2 - MangaDex").unwrap();
    let d = parser.recognize_title("Some Manga - Vol. 5 Ch. 39.1 - MangaDex").unwrap();
    let e = parser.recognize_title("Same Manga - Vol. 4 Ch. 39.1 - MangaDex").unwrap();
    assert!(a.same_as(&b));
    assert!(a.same_as(&a.clone()));
    assert!(!a.same_as(&c));
    assert!(!a.same_as(&d));
    assert!(!a.same_as(&e));
}
