//! The recognition patterns, as they are configured.

use vstd::prelude::*;

verus! {

/// The patterns that window titles are matched against: one list for anime
/// and one for manga, each pattern a regular expression.
#[derive(Debug, Clone)]
pub struct RecognitionData {
    pub anime: Vec<String>,
    pub manga: Vec<String>,
}

impl RecognitionData {
    /// The patterns of this configuration followed by the user's own: the
    /// built-in patterns come first in each list, so they are tried first.
    pub fn with_custom(self, custom: RecognitionData) -> (r: Self)
        ensures
            r.anime@ == self.anime@ + custom.anime@,
            r.manga@ == self.manga@ + custom.manga@,
    {
        let mut anime = self.anime;
        let mut manga = self.manga;
        let mut more_anime = custom.anime;
        let mut more_manga = custom.manga;
        anime.append(&mut more_anime);
        manga.append(&mut more_manga);
        RecognitionData { anime, manga }
    }
}

impl Default for RecognitionData {
    /// No patterns.
    fn default() -> (r: Self)
        ensures
            r.anime@.len() == 0,
            r.manga@.len() == 0,
    {
        RecognitionData { anime: Vec::new(), manga: Vec::new() }
    }
}

} // verus!
