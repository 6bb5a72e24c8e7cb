//! The settings as a whole.

use vstd::prelude::*;
use super::anilist::AniListData;
use super::recognition::RecognitionData;

verus! {

/// The delay before an update is sent, in seconds, where none is configured.
pub const DEFAULT_UPDATE_DELAY: u64 = 5;

/// Everything that is configured.
#[derive(Debug, Clone)]
pub struct Settings {
    pub anilist: AniListData,
    pub recognition: RecognitionData,
    /// The seconds that an update waits in the queue before it is sent.
    pub update_delay: u64,
}

impl Default for Settings {
    /// Nobody logged in, no patterns, and the default delay.
    fn default() -> (r: Self)
        ensures
            r.anilist.token is None,
            r.recognition.anime@.len() == 0,
            r.recognition.manga@.len() == 0,
            r.update_delay == DEFAULT_UPDATE_DELAY,
    {
        Settings {
            anilist: AniListData::default(),
            recognition: RecognitionData::default(),
            update_delay: DEFAULT_UPDATE_DELAY,
        }
    }
}

} // verus!
