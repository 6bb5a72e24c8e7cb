//! The configuration that the recogniser, the reconciler and the queue are
//! handed: the account's token, the recognition patterns, and the delay
//! before an update is sent.

pub mod anilist;
pub mod recognition;
pub mod settings;

pub use anilist::AniListData;
pub use recognition::RecognitionData;
pub use settings::Settings;
