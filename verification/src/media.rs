//! Plain descriptions of a title, as a display may want them.

use vstd::prelude::*;

verus! {

/// What can be said of any kind of media: how many parts it has, and how
/// long a part takes.
pub trait Media {
    fn length() -> i32;

    fn duration() -> i32;
}

/// A date with every part known.
#[derive(Clone, Default, Debug)]
pub struct FuzzyDate {
    pub year: i32,
    pub month: i32,
    pub day: i32,
}

/// The names of a title.
#[derive(Clone, Default, Debug)]
pub struct Title {
    pub romaji: String,
    pub english: String,
    pub native: String,
}

/// An anime and the dates of its run.
#[derive(Clone, Default, Debug)]
pub struct Anime {
    pub id: i32,
    pub title: Title,
    pub description: String,
    pub start_date: FuzzyDate,
    pub end_date: FuzzyDate,
}

/// A manga.
#[derive(Clone, Default, Debug)]
pub struct Manga {
}

} // verus!
