//! The pattern catalog and the recogniser that runs it over window titles.
//!
//! Patterns come in two lists, one for anime and one for manga. Each list is
//! compiled into a set, which tells in one pass which patterns of the list
//! match a title, and each pattern is compiled by itself, to capture the
//! named groups once the set has picked it. A title is recognised by the
//! first pattern of a list that matches it.

use regex::Regex;
use regex::RegexSet;
use vstd::prelude::*;
use vstd::string::StringExecFns;
use crate::anilist::models::MediaType;
use super::captures::{named_group, text_of, Captures};
use super::numbers::{number_in, parse_number, Number};
use crate::text::{decimal, push_decimal};
use super::patterns::{
    captures, compile, compile_set, first_match, is_first_match, pattern_captures,
    pattern_compiles, pattern_set_compiles, patterns_of, regex_is_plain, regex_pattern,
    set_is_plain, set_patterns,
};

verus! {

/// A pattern and the regular expression compiled from it.
#[derive(Debug)]
struct CompiledPattern {
    pattern: String,
    regex: Regex,
}

/// The pattern catalog: a set for each category, and the compiled form of
/// every pattern of both.
///
/// A catalog is made by `new` or `default` and by nothing else, so every
/// catalog is sound: its sets and compiled forms are compiled without
/// options, each compiled form belongs to the pattern that it stands
/// beside, and every pattern of both sets has its compiled form in the
/// catalog.
#[derive(Debug)]
pub struct MediaParser {
    anime: Option<RegexSet>,
    manga: Option<RegexSet>,
    cache: Vec<CompiledPattern>,
}

/// Why a catalog could not be made from two lists of patterns.
#[derive(Debug)]
pub enum PatternError {
    /// The anime pattern at `index` does not compile.
    Anime { index: usize, cause: regex::Error },
    /// The manga pattern at `index` does not compile.
    Manga { index: usize, cause: regex::Error },
    /// The anime patterns do not compile into one set.
    AnimeSet { cause: regex::Error },
    /// The manga patterns do not compile into one set.
    MangaSet { cause: regex::Error },
}

/// A title and its progress, as recognised in a window title.
#[derive(Debug)]
pub struct Media {
    pub title: String,
    pub media_type: MediaType,
    pub progress: Option<Number>,
    pub progress_volumes: Option<Number>,
}

/// The view of a recognised title.
pub ghost struct RecognizedMedia {
    pub title: Seq<char>,
    pub media_type: MediaType,
    pub progress: Option<Number>,
    pub progress_volumes: Option<Number>,
}

impl View for Media {
    type V = RecognizedMedia;

    open spec fn view(&self) -> RecognizedMedia {
        RecognizedMedia {
            title: self.title@,
            media_type: self.media_type,
            progress: self.progress,
            progress_volumes: self.progress_volumes,
        }
    }
}

impl Clone for Media {
    fn clone(&self) -> (r: Self)
        ensures
            r == *self,
            r@ == self@,
    {
        Media {
            title: self.title.clone(),
            media_type: self.media_type,
            progress: self.progress,
            progress_volumes: self.progress_volumes,
        }
    }
}

impl RecognizedMedia {
    /// What is going on, in words: the episode that is watched, or the
    /// volume and the chapter that are read. The volume is shown as the one
    /// after the number recognised.
    pub open spec fn current_media_string(self) -> Seq<char> {
        match self.media_type {
            MediaType::Anime => match self.progress {
                Some(episode) => "Watching Episode "@ + episode.text(),
                None => Seq::empty(),
            },
            MediaType::Manga => (match self.progress_volumes {
                Some(volume) => "Reading Vol. "@ + decimal(volume.whole + 1),
                None => "Reading"@,
            }) + (match self.progress {
                Some(chapter) => " Ch. "@ + chapter.text(),
                None => Seq::empty(),
            }),
        }
    }
}

impl Media {
    /// What is going on, in words: `Watching Episode 12` for anime with a
    /// number, nothing for anime without; `Reading`, with the volume and
    /// the chapter as far as they were recognised, for manga.
    pub fn current_media_string(&self) -> (r: String)
        ensures
            r@ == self@.current_media_string(),
    {
        let mut out = String::new();
        match self.media_type {
            MediaType::Anime => match self.progress {
                Some(episode) => {
                    out.append("Watching Episode ");
                    episode.push_to(&mut out);
                },
                None => {},
            },
            MediaType::Manga => {
                match self.progress_volumes {
                    Some(volume) => {
                        out.append("Reading Vol. ");
                        push_decimal(&mut out, volume.whole as i64 + 1);
                    },
                    None => {
                        out.append("Reading");
                    },
                }
                match self.progress {
                    Some(chapter) => {
                        out.append(" Ch. ");
                        chapter.push_to(&mut out);
                    },
                    None => {},
                }
            },
        }
        out
    }

    /// Whether two recognised titles are the same, number for number.
    pub fn same_as(&self, other: &Media) -> (r: bool)
        ensures
            r == (self@ == other@),
    {
        self.title == other.title && self.media_type == other.media_type && same_number(
            self.progress,
            other.progress,
        ) && same_number(self.progress_volumes, other.progress_volumes)
    }
}

/// Whether two numbers that may be absent are the same.
fn same_number(a: Option<Number>, b: Option<Number>) -> (r: bool)
    ensures
        r == (a == b),
{
    match (a, b) {
        (Some(a), Some(b)) => a == b,
        (None, None) => true,
        _ => false,
    }
}

/// Whether every pattern of a list compiles.
pub open spec fn all_compile(patterns: Seq<Seq<char>>) -> bool {
    forall|i: int| 0 <= i < patterns.len() ==> pattern_compiles(#[trigger] patterns[i])
}

/// Whether pattern `i` is the first of a list that does not compile.
pub open spec fn is_first_invalid(patterns: Seq<Seq<char>>, i: int) -> bool {
    &&& 0 <= i < patterns.len()
    &&& !pattern_compiles(patterns[i])
    &&& forall|j: int| 0 <= j < i ==> pattern_compiles(#[trigger] patterns[j])
}

/// The number that a captured text writes: none where nothing was captured,
/// and where the text writes no number.
pub open spec fn number_of(text: Option<Seq<char>>) -> Option<Number> {
    match text {
        Some(text) => number_in(text),
        None => None,
    }
}

/// What the groups of a match say of a title of the category `category`:
/// nothing where the group `title` is missing or empty, else the title with
/// the number of the group `episode` for anime, and with the numbers of the
/// groups `chapter` and `volume` for manga.
pub open spec fn recognized_in(
    groups: Seq<(Option<Seq<char>>, Option<Seq<char>>)>,
    category: MediaType,
) -> Option<RecognizedMedia> {
    match named_group(groups, "title"@) {
        Some(title) => if title.len() > 0 {
            Some(
                match category {
                    MediaType::Anime => RecognizedMedia {
                        title,
                        media_type: MediaType::Anime,
                        progress: number_of(named_group(groups, "episode"@)),
                        progress_volumes: None,
                    },
                    MediaType::Manga => RecognizedMedia {
                        title,
                        media_type: MediaType::Manga,
                        progress: number_of(named_group(groups, "chapter"@)),
                        progress_volumes: number_of(named_group(groups, "volume"@)),
                    },
                },
            )
        } else {
            None
        },
        None => None,
    }
}

/// The patterns of a set that may be absent.
spec fn patterns_in(set: Option<RegexSet>) -> Seq<Seq<char>> {
    match set {
        Some(set) => set_patterns(set),
        None => Seq::empty(),
    }
}

/// The first pattern of a list that matches in a text.
pub open spec fn first_matching(patterns: Seq<Seq<char>>, text: Seq<char>) -> Option<Seq<char>> {
    if exists|i: int| is_first_match(patterns, text, i) {
        Some(patterns[choose|i: int| is_first_match(patterns, text, i)])
    } else {
        None
    }
}

/// What the first matching pattern of a list captures in a window title:
/// nothing where no pattern of the list matches.
pub open spec fn captured_by(patterns: Seq<Seq<char>>, title: Seq<char>) -> Option<
    Seq<(Option<Seq<char>>, Option<Seq<char>>)>,
> {
    match first_matching(patterns, title) {
        Some(pattern) => pattern_captures(pattern, title),
        None => None,
    }
}

/// Whether a pattern has its compiled form among those of a catalog.
spec fn is_cached(cache: Seq<CompiledPattern>, pattern: Seq<char>) -> bool {
    exists|i: int| 0 <= i < cache.len() && (#[trigger] cache[i]).pattern@ == pattern
}

/// Whether each compiled form is plain and belongs to the pattern that it stands beside.
spec fn are_compiled(cache: Seq<CompiledPattern>) -> bool {
    forall|i: int|
        0 <= i < cache.len() ==> regex_is_plain((#[trigger] cache[i]).regex) && regex_pattern(cache[i].regex)
            == cache[i].pattern@
}

/// Whether a set is plain and every pattern of it has its compiled form among those of a catalog.
spec fn is_covered(set: Option<RegexSet>, cache: Seq<CompiledPattern>) -> bool {
    match set {
        Some(set) => set_is_plain(set) && forall|i: int|
            0 <= i < set_patterns(set).len() ==> is_cached(cache, #[trigger] set_patterns(set)[i]),
        None => true,
    }
}

impl MediaParser {
    /// What makes a catalog sound.
    #[verifier::type_invariant]
    spec fn is_sound(self) -> bool {
        &&& are_compiled(self.cache@)
        &&& is_covered(self.anime, self.cache@)
        &&& is_covered(self.manga, self.cache@)
    }

    /// The patterns of a category, in order.
    pub closed spec fn patterns(self, category: MediaType) -> Seq<Seq<char>> {
        match category {
            MediaType::Anime => patterns_in(self.anime),
            MediaType::Manga => patterns_in(self.manga),
        }
    }

    /// The anime patterns, in order.
    pub open spec fn anime_patterns(self) -> Seq<Seq<char>> {
        self.patterns(MediaType::Anime)
    }

    /// The manga patterns, in order.
    pub open spec fn manga_patterns(self) -> Seq<Seq<char>> {
        self.patterns(MediaType::Manga)
    }

    /// What the first matching pattern of a category captures in a window title.
    pub open spec fn captured(self, category: MediaType, title: Seq<char>) -> Option<
        Seq<(Option<Seq<char>>, Option<Seq<char>>)>,
    > {
        captured_by(self.patterns(category), title)
    }

    /// What the patterns of one category recognise in a window title.
    pub open spec fn recognized_as(self, title: Seq<char>, category: MediaType) -> Option<RecognizedMedia> {
        match self.captured(category, title) {
            Some(groups) => recognized_in(groups, category),
            None => None,
        }
    }

    /// What the catalog recognises in a window title: what the anime
    /// patterns recognise, else what the manga patterns recognise.
    pub open spec fn recognized(self, title: Seq<char>) -> Option<RecognizedMedia> {
        match self.recognized_as(title, MediaType::Anime) {
            Some(media) => Some(media),
            None => self.recognized_as(title, MediaType::Manga),
        }
    }

    /// Whether title `i` is the first in which the catalog recognises something.
    pub open spec fn is_first_recognized(self, titles: Seq<Seq<char>>, i: int) -> bool {
        &&& 0 <= i < titles.len()
        &&& self.recognized(titles[i]) is Some
        &&& forall|j: int| 0 <= j < i ==> self.recognized(#[trigger] titles[j]) is None
    }

    /// What the catalog recognises in the first of the window titles in
    /// which it recognises anything.
    pub open spec fn detected(self, titles: Seq<Seq<char>>) -> Option<RecognizedMedia> {
        if exists|i: int| self.is_first_recognized(titles, i) {
            self.recognized(titles[choose|i: int| self.is_first_recognized(titles, i)])
        } else {
            None
        }
    }
}

/// Whether what was captured holds no title: nothing was captured, or the
/// group `title` is missing, took no part in the match, or is empty.
pub open spec fn is_untitled(found: Option<Seq<(Option<Seq<char>>, Option<Seq<char>>)>>) -> bool {
    match found {
        Some(groups) => match named_group(groups, "title"@) {
            Some(title) => title.len() == 0,
            None => true,
        },
        None => true,
    }
}

impl MediaParser {
    /// Whether no category's first matching pattern captures a title in the window title.
    pub open spec fn finds_no_title(self, title: Seq<char>) -> bool {
        &&& is_untitled(self.captured(MediaType::Anime, title))
        &&& is_untitled(self.captured(MediaType::Manga, title))
    }
}

/// In a window title in which no pattern captures a title, nothing is
/// recognised.
pub proof fn lemma_no_title_no_result(parser: MediaParser, title: Seq<char>)
    requires
        parser.finds_no_title(title),
    ensures
        parser.recognized(title) is None,
{
}

/// Where no pattern captures a title in any of the window titles, nothing
/// is detected.
pub proof fn lemma_no_titles_no_detection(parser: MediaParser, titles: Seq<Seq<char>>)
    requires
        forall|i: int| 0 <= i < titles.len() ==> parser.finds_no_title(#[trigger] titles[i]),
    ensures
        parser.detected(titles) is None,
{
    if exists|i: int| parser.is_first_recognized(titles, i) {
        let i = choose|i: int| parser.is_first_recognized(titles, i);
        lemma_no_title_no_result(parser, titles[i]);
    }
}

/// Whatever is detected has a title that is not empty.
pub proof fn lemma_detected_has_title(parser: MediaParser, titles: Seq<Seq<char>>)
    ensures
        parser.detected(titles) matches Some(media) ==> media.title.len() > 0,
{
}

impl Default for MediaParser {
    /// A catalog without patterns, which recognises nothing.
    fn default() -> (r: Self)
        ensures
            r.anime_patterns() == Seq::<Seq<char>>::empty(),
            r.manga_patterns() == Seq::<Seq<char>>::empty(),
    {
        MediaParser { anime: None, manga: None, cache: Vec::new() }
    }
}

/// Compiles every pattern of a list and adds the compiled forms to `cache`.
/// Stops at the first pattern that does not compile and returns its index
/// and the compiler's error.
fn compile_all(patterns: &Vec<String>, cache: &mut Vec<CompiledPattern>) -> (r: Result<(), (usize, regex::Error)>)
    requires
        are_compiled(old(cache)@),
    ensures
        are_compiled(final(cache)@),
        final(cache)@.len() >= old(cache)@.len(),
        forall|i: int| 0 <= i < old(cache)@.len() ==> final(cache)@[i] == old(cache)@[i],
        match r {
            Ok(_) => {
                &&& all_compile(patterns.deep_view())
                &&& final(cache)@.len() == old(cache)@.len() + patterns@.len()
                &&& forall|i: int|
                    0 <= i < patterns@.len() ==> (#[trigger] final(cache)@[old(cache)@.len() + i]).pattern@
                        == patterns@[i]@
            },
            Err((index, _)) => is_first_invalid(patterns.deep_view(), index as int),
        },
{
    let ghost texts = patterns.deep_view();
    let ghost base = cache@.len();
    let mut i: usize = 0;
    while i < patterns.len()
        invariant
            i <= patterns.len(),
            texts == patterns.deep_view(),
            texts.len() == patterns@.len(),
            base == old(cache)@.len(),
            cache@.len() == base + i,
            forall|j: int| 0 <= j < base ==> cache@[j] == old(cache)@[j],
            are_compiled(cache@),
            forall|j: int| 0 <= j < i ==> (#[trigger] cache@[base + j]).pattern@ == patterns@[j]@,
            forall|j: int| 0 <= j < i ==> pattern_compiles(#[trigger] texts[j]),
        decreases patterns.len() - i,
    {
        let pattern = &patterns[i];
        match compile(pattern.as_str()) {
            Ok(regex) => {
                cache.push(CompiledPattern { pattern: pattern.clone(), regex });
            },
            Err(cause) => {
                return Err((i, cause));
            },
        }
        i += 1;
    }
    Ok(())
}

impl MediaParser {
    /// Makes the catalog of two lists of patterns.
    ///
    /// Every anime pattern is compiled, then every manga pattern, then the
    /// set of each list. The first of these that fails gives the error.
    pub fn new(anime_regexes: &Vec<String>, manga_regexes: &Vec<String>) -> (r: Result<Self, PatternError>)
        ensures
            match r {
                Ok(parser) => {
                    &&& all_compile(anime_regexes.deep_view())
                    &&& all_compile(manga_regexes.deep_view())
                    &&& pattern_set_compiles(anime_regexes.deep_view())
                    &&& pattern_set_compiles(manga_regexes.deep_view())
                    &&& parser.anime_patterns() == anime_regexes.deep_view()
                    &&& parser.manga_patterns() == manga_regexes.deep_view()
                },
                Err(PatternError::Anime { index, .. }) => is_first_invalid(
                    anime_regexes.deep_view(),
                    index as int,
                ),
                Err(PatternError::Manga { index, .. }) => {
                    &&& all_compile(anime_regexes.deep_view())
                    &&& is_first_invalid(manga_regexes.deep_view(), index as int)
                },
                Err(PatternError::AnimeSet { .. }) => {
                    &&& all_compile(anime_regexes.deep_view())
                    &&& all_compile(manga_regexes.deep_view())
                    &&& !pattern_set_compiles(anime_regexes.deep_view())
                },
                Err(PatternError::MangaSet { .. }) => {
                    &&& all_compile(anime_regexes.deep_view())
                    &&& all_compile(manga_regexes.deep_view())
                    &&& pattern_set_compiles(anime_regexes.deep_view())
                    &&& !pattern_set_compiles(manga_regexes.deep_view())
                },
            },
    {
        let mut cache: Vec<CompiledPattern> = Vec::new();
        match compile_all(anime_regexes, &mut cache) {
            Ok(_) => {},
            Err((index, cause)) => {
                return Err(PatternError::Anime { index, cause });
            },
        }
        let ghost anime_cached = cache@;
        match compile_all(manga_regexes, &mut cache) {
            Ok(_) => {},
            Err((index, cause)) => {
                return Err(PatternError::Manga { index, cause });
            },
        }
        let anime = match compile_set(anime_regexes) {
            Ok(set) => set,
            Err(cause) => {
                return Err(PatternError::AnimeSet { cause });
            },
        };
        let manga = match compile_set(manga_regexes) {
            Ok(set) => set,
            Err(cause) => {
                return Err(PatternError::MangaSet { cause });
            },
        };
        proof {
            let n = anime_regexes@.len() as int;
            assert forall|i: int| 0 <= i < set_patterns(anime).len() implies is_cached(
                cache@,
                #[trigger] set_patterns(anime)[i],
            ) by {
                assert(anime_cached[0 + i].pattern@ == anime_regexes@[i]@);
                assert(cache@[i] == anime_cached[i]);
            }
            assert forall|i: int| 0 <= i < set_patterns(manga).len() implies is_cached(
                cache@,
                #[trigger] set_patterns(manga)[i],
            ) by {
                assert(cache@[n + i].pattern@ == manga_regexes@[i]@);
            }
        }
        Ok(MediaParser { anime: Some(anime), manga: Some(manga), cache })
    }

    /// The set of a category, where the catalog has one.
    fn set_of(&self, category: MediaType) -> (r: Option<&RegexSet>)
        ensures
            match r {
                Some(set) => {
                    &&& set_patterns(*set) == self.patterns(category)
                    &&& set_is_plain(*set)
                    &&& forall|i: int|
                        0 <= i < set_patterns(*set).len() ==> is_cached(
                            self.cache@,
                            #[trigger] set_patterns(*set)[i],
                        )
                },
                None => self.patterns(category) == Seq::<Seq<char>>::empty(),
            },
    {
        proof {
            use_type_invariant(self);
        }
        match category {
            MediaType::Anime => self.anime.as_ref(),
            MediaType::Manga => self.manga.as_ref(),
        }
    }

    /// The patterns of a category, in order.
    pub fn pattern_texts(&self, category: MediaType) -> (r: Vec<String>)
        ensures
            r.deep_view() == self.patterns(category),
    {
        let mut out: Vec<String> = Vec::new();
        match self.set_of(category) {
            Some(set) => {
                let patterns = patterns_of(set);
                let mut i: usize = 0;
                while i < patterns.len()
                    invariant
                        i <= patterns.len(),
                        out@.len() == i,
                        forall|j: int| 0 <= j < i ==> out@[j]@ == patterns@[j]@,
                    decreases patterns.len() - i,
                {
                    out.push(patterns[i].clone());
                    i += 1;
                }
                assert(out.deep_view() =~= patterns.deep_view());
            },
            None => {
                assert(out.deep_view() =~= Seq::<Seq<char>>::empty());
            },
        }
        out
    }

    /// The compiled form that stands beside a pattern, where the catalog holds one.
    fn compiled(&self, pattern: &String) -> (r: Option<&Regex>)
        ensures
            r is Some == is_cached(self.cache@, pattern@),
            r matches Some(regex) ==> regex_is_plain(*regex) && regex_pattern(*regex) == pattern@,
    {
        proof {
            use_type_invariant(self);
        }
        let mut i: usize = 0;
        while i < self.cache.len()
            invariant
                i <= self.cache.len(),
                are_compiled(self.cache@),
                forall|j: int| 0 <= j < i ==> (#[trigger] self.cache@[j]).pattern@ != pattern@,
            decreases self.cache.len() - i,
        {
            if self.cache[i].pattern == *pattern {
                return Some(&self.cache[i].regex);
            }
            i += 1;
        }
        None
    }

    /// The first pattern of a category that matches in the window title, and
    /// its compiled form.
    fn matching_pattern(&self, category: MediaType, window_title: &str) -> (r: Option<(&String, &Regex)>)
        ensures
            match r {
                Some((pattern, regex)) => {
                    &&& first_matching(self.patterns(category), window_title@) == Some(pattern@)
                    &&& regex_is_plain(*regex)
                    &&& regex_pattern(*regex) == pattern@
                },
                None => first_matching(self.patterns(category), window_title@) is None,
            },
    {
        let set = match self.set_of(category) {
            Some(set) => set,
            None => {
                return None;
            },
        };
        match first_match(set, window_title) {
            Some(i) => {
                let patterns = patterns_of(set);
                let pattern = &patterns[i];
                assert(set_patterns(*set)[i as int] == pattern@);
                match self.compiled(pattern) {
                    Some(regex) => Some((pattern, regex)),
                    None => unreached(),
                }
            },
            None => None,
        }
    }

    /// The first pattern of a category that matches in the window title.
    pub fn match_set(&self, category: MediaType, window_title: &str) -> (r: Option<&str>)
        ensures
            match r {
                Some(pattern) => Some(pattern@) == first_matching(self.patterns(category), window_title@),
                None => first_matching(self.patterns(category), window_title@) is None,
            },
    {
        match self.matching_pattern(category, window_title) {
            Some((pattern, _)) => Some(pattern.as_str()),
            None => None,
        }
    }

    /// What the first matching pattern of a category captures in the window title.
    pub fn parse_media(&self, category: MediaType, window_title: &str) -> (r: Option<Captures>)
        ensures
            view_captures(r) == self.captured(category, window_title@),
    {
        match self.matching_pattern(category, window_title) {
            Some((_, regex)) => match captures(regex, window_title) {
                Some(groups) => Some(Captures { groups }),
                None => None,
            },
            None => None,
        }
    }

    /// What the first matching anime pattern captures in the window title.
    pub fn parse_anime(&self, window_title: &str) -> (r: Option<Captures>)
        ensures
            view_captures(r) == self.captured(MediaType::Anime, window_title@),
    {
        self.parse_media(MediaType::Anime, window_title)
    }

    /// What the first matching manga pattern captures in the window title.
    pub fn parse_manga(&self, window_title: &str) -> (r: Option<Captures>)
        ensures
            view_captures(r) == self.captured(MediaType::Manga, window_title@),
    {
        self.parse_media(MediaType::Manga, window_title)
    }

    /// What the catalog recognises in one window title: what the first
    /// matching anime pattern captures, if its group `title` is not empty;
    /// else what the first matching manga pattern captures, if its group
    /// `title` is not empty. A group that writes no number gives no number.
    pub fn recognize_title(&self, window_title: &str) -> (r: Option<Media>)
        ensures
            view_media(r) == self.recognized(window_title@),
            r matches Some(media) ==> media.title@.len() > 0,
    {
        match self.parse_anime(window_title) {
            Some(found) => match recognize_in(&found, MediaType::Anime) {
                Some(media) => {
                    return Some(media);
                },
                None => {},
            },
            None => {},
        }
        match self.parse_manga(window_title) {
            Some(found) => recognize_in(&found, MediaType::Manga),
            None => None,
        }
    }

    /// What the catalog recognises in the window titles: the titles are gone
    /// through in order, and the first in which anything is recognised
    /// decides.
    pub fn detect_media(&self, window_titles: &Vec<String>) -> (r: Option<Media>)
        ensures
            view_media(r) == self.detected(window_titles.deep_view()),
            r matches Some(media) ==> media.title@.len() > 0,
    {
        let ghost titles = window_titles.deep_view();
        let mut i: usize = 0;
        while i < window_titles.len()
            invariant
                i <= window_titles.len(),
                titles == window_titles.deep_view(),
                titles.len() == window_titles@.len(),
                forall|j: int| 0 <= j < i ==> self.recognized(#[trigger] titles[j]) is None,
            decreases window_titles.len() - i,
        {
            match self.recognize_title(window_titles[i].as_str()) {
                Some(media) => {
                    assert(self.is_first_recognized(titles, i as int));
                    return Some(media);
                },
                None => {},
            }
            i += 1;
        }
        None
    }
}

/// The view of captured groups that may be absent.
pub open spec fn view_captures(found: Option<Captures>) -> Option<Seq<(Option<Seq<char>>, Option<Seq<char>>)>> {
    match found {
        Some(found) => Some(found@),
        None => None,
    }
}

/// The view of a recognised title that may be absent.
pub open spec fn view_media(media: Option<Media>) -> Option<RecognizedMedia> {
    match media {
        Some(media) => Some(media@),
        None => None,
    }
}

/// The number that a captured text writes.
fn number_from(text: Option<&String>) -> (r: Option<Number>)
    ensures
        r == number_of(text_of(text)),
{
    match text {
        Some(text) => parse_number(text.as_str()),
        None => None,
    }
}

/// What the groups of a match say of a title of the category `category`.
pub fn recognize_in(found: &Captures, category: MediaType) -> (r: Option<Media>)
    ensures
        view_media(r) == recognized_in(found@, category),
        r matches Some(media) ==> media.title@.len() > 0,
{
    let title = match found.name("title") {
        Some(title) => title,
        None => {
            return None;
        },
    };
    if title.as_str().unicode_len() == 0 {
        return None;
    }
    let media = match category {
        MediaType::Anime => Media {
            title: title.clone(),
            media_type: MediaType::Anime,
            progress: number_from(found.name("episode")),
            progress_volumes: None,
        },
        MediaType::Manga => Media {
            title: title.clone(),
            media_type: MediaType::Manga,
            progress: number_from(found.name("chapter")),
            progress_volumes: number_from(found.name("volume")),
        },
    };
    Some(media)
}

} // verus!
