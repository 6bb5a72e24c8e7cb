//! The catalog's data as the list service reports it, and a mathematical view
//! of each type that the matching and reconciliation logic is specified over.

use vstd::prelude::*;

verus! {

/// The account that the lists belong to.
#[derive(Debug, Clone)]
pub struct User {
    pub id: i32,
    pub name: String,
    pub media_list_options: Option<MediaListOptions>,
    pub options: Option<UserOptions>,
    pub avatar: Option<UserAvatar>,
}

impl User {
    /// The address of the user's avatar, where one is known.
    pub fn get_avatar_url(&self) -> (r: Option<String>)
        ensures
            r == (match self.avatar {
                Some(avatar) => avatar.medium,
                None => None,
            }),
    {
        match &self.avatar {
            Some(avatar) => match &avatar.medium {
                Some(url) => Some(url.clone()),
                None => None,
            },
            None => None,
        }
    }
}

#[derive(Debug, Clone)]
pub struct UserOptions {
    pub profile_color: Option<String>,
}

#[derive(Debug, Clone)]
pub struct UserAvatar {
    pub medium: Option<String>,
}

#[derive(Debug, Clone)]
pub struct MediaListOptions {
    pub score_format: Option<ScoreFormat>,
    pub anime_list: Option<MediaListTypeOptions>,
    pub manga_list: Option<MediaListTypeOptions>,
}

#[derive(Debug, Clone, Copy, PartialEq, Eq, Structural)]
pub enum ScoreFormat {
    Point100,
    Point10Decimal,
    Point10,
    Point5,
    Point3,
}

#[derive(Debug, Clone)]
pub struct MediaListTypeOptions {
    pub custom_lists: Option<Vec<Option<String>>>,
}

/// The user's tracked lists of one category: named groups of entries.
#[derive(Debug)]
pub struct MediaListCollection {
    pub lists: Option<Vec<Option<MediaListGroup>>>,
}

#[derive(Debug)]
pub struct MediaListGroup {
    pub entries: Option<Vec<Option<MediaList>>>,
    pub name: Option<String>,
    pub is_custom_list: Option<bool>,
    pub is_split_completed_list: Option<bool>,
    pub status: Option<MediaListStatus>,
}

#[derive(Debug, Clone, Copy, PartialEq, Eq, Structural)]
pub enum MediaListStatus {
    Current,
    Planning,
    Completed,
    Dropped,
    Paused,
    Repeating,
}

/// One tracking record: the user's status and progress on one media item.
#[derive(Debug)]
pub struct MediaList {
    pub id: i32,
    pub media_id: i32,
    pub status: Option<MediaListStatus>,
    pub progress: Option<i32>,
    pub progress_volumes: Option<i32>,
    /// The score as the service sent it, as the bits of an IEEE 754 double.
    /// Nothing in this library reads it; it is carried along unchanged.
    pub score_bits: Option<u64>,
    pub started_at: Option<FuzzyDate>,
    pub completed_at: Option<FuzzyDate>,
    pub media: Option<Media>,
}

/// A date of which any part may be unknown.
#[derive(Debug, Clone, Copy)]
pub struct FuzzyDate {
    pub year: Option<i32>,
    pub month: Option<i32>,
    pub day: Option<i32>,
}

/// The catalog's description of one title.
#[derive(Debug)]
pub struct Media {
    pub id: i32,
    pub title: Option<MediaTitle>,
    pub media_type: Option<MediaType>,
    pub synonyms: Option<Vec<Option<String>>>,
    pub cover_image: Option<MediaCoverImage>,
    pub description: Option<String>,
    pub format: Option<MediaFormat>,
    pub is_licensed: Option<bool>,
    pub relations: Option<MediaConnection>,
    pub episodes: Option<i32>,
    pub chapters: Option<i32>,
    pub volumes: Option<i32>,
    pub media_list_entry: Option<Box<MediaList>>,
}

#[derive(Debug)]
pub struct MediaTitle {
    pub romaji: Option<String>,
    pub english: Option<String>,
    pub native: Option<String>,
    pub user_preferred: Option<String>,
}

#[derive(Debug, Clone, Copy, PartialEq, Eq, Structural)]
pub enum MediaType {
    Anime,
    Manga,
}

impl Default for MediaType {
    fn default() -> (r: Self)
        ensures
            r == MediaType::Anime,
    {
        MediaType::Anime
    }
}

impl MediaType {
    /// The category's name.
    pub open spec fn name(self) -> Seq<char> {
        match self {
            MediaType::Anime => "Anime"@,
            MediaType::Manga => "Manga"@,
        }
    }

    /// The category's name.
    pub fn string(&self) -> (r: &str)
        ensures
            r@ == self.name(),
    {
        match self {
            MediaType::Anime => "Anime",
            MediaType::Manga => "Manga",
        }
    }
}

#[derive(Debug)]
pub struct MediaCoverImage {
    pub large: Option<String>,
}

#[derive(Debug)]
pub struct MediaConnection {
    pub edges: Option<Vec<Option<MediaEdge>>>,
}

#[derive(Debug)]
pub struct MediaEdge {
    pub node: Option<Media>,
    pub relation_type: Option<MediaRelation>,
}

#[derive(Debug, Clone, Copy, PartialEq, Eq, Structural)]
pub enum MediaRelation {
    Adaptation,
    Prequel,
    Sequel,
    Parent,
    SideStory,
    Character,
    Summary,
    Alternative,
    SpinOff,
    Other,
    Source,
    Compilation,
    Contains,
}

#[derive(Debug, Clone, Copy, PartialEq, Eq, Structural)]
pub enum MediaFormat {
    Tv,
    TvShort,
    Movie,
    Special,
    Ova,
    Ona,
    Music,
    Manga,
    Novel,
    Oneshot,
}

impl MediaFormat {
    /// The format's name, as it is shown.
    pub open spec fn name(self) -> Seq<char> {
        match self {
            MediaFormat::Tv => "TV"@,
            MediaFormat::TvShort => "TV Short"@,
            MediaFormat::Movie => "Movie"@,
            MediaFormat::Special => "Special"@,
            MediaFormat::Ova => "OVA"@,
            MediaFormat::Ona => "ONA"@,
            MediaFormat::Music => "Music"@,
            MediaFormat::Manga => "Manga"@,
            MediaFormat::Novel => "Light Novel"@,
            MediaFormat::Oneshot => "Oneshot"@,
        }
    }

    /// The format's name, as it is shown.
    pub fn str(&self) -> (r: &str)
        ensures
            r@ == self.name(),
    {
        match self {
            MediaFormat::Tv => "TV",
            MediaFormat::TvShort => "TV Short",
            MediaFormat::Movie => "Movie",
            MediaFormat::Special => "Special",
            MediaFormat::Ova => "OVA",
            MediaFormat::Ona => "ONA",
            MediaFormat::Music => "Music",
            MediaFormat::Manga => "Manga",
            MediaFormat::Novel => "Light Novel",
            MediaFormat::Oneshot => "Oneshot",
        }
    }
}

} // verus!
