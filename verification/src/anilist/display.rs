//! The texts that a display shows of an entry and of its media.

use vstd::prelude::*;
use vstd::string::StringExecFns;
use super::copies::clone_text;
use super::models::{Media, MediaList, MediaType};
use super::views::{text, MediaListView, MediaView};
use crate::recognition::patterns::{compile, pattern_compiles, pattern_replaced, replace_all};
use crate::text::{decimal, push_decimal, replace, replaced};

verus! {

/// A count and the length that it runs up to, such as `3 / 12`: zero for a
/// count that is not known, and a question mark for a length that is not.
pub open spec fn count_of(count: Option<i32>, length: Option<i32>) -> Seq<char> {
    decimal(
        match count {
            Some(count) => count as int,
            None => 0,
        },
    ) + " / "@ + (match length {
        Some(length) => decimal(length as int),
        None => "?"@,
    })
}

impl MediaListView {
    /// The progress and the number of episodes or chapters that it runs up to.
    pub open spec fn progress_string(self) -> Seq<char> {
        match self.media {
            Some(media) => match media.media_type {
                Some(MediaType::Anime) => count_of(self.progress, media.episodes),
                Some(MediaType::Manga) => count_of(self.progress, media.chapters),
                None => count_of(self.progress, None),
            },
            None => count_of(self.progress, None),
        }
    }

    /// The finished volumes and the number of volumes that they run up to.
    /// An entry without media shows its progress instead.
    pub open spec fn progress_volumes_string(self) -> Seq<char> {
        match self.media {
            Some(media) => count_of(self.progress_volumes, media.volumes),
            None => count_of(self.progress, None),
        }
    }
}

/// The pattern of a tag of a marked-up text.
pub open spec fn tag_pattern() -> Seq<char> {
    "<.+?>"@
}

/// A marked-up text as plain text: a line break for each of the tags
/// `<br>`, `<br/>` and `<br />`, and every other tag taken out.
pub open spec fn plain_text(marked_up: Seq<char>) -> Seq<char> {
    let broken = replaced(replaced(replaced(marked_up, "<br>"@, "\n"@), "<br/>"@, "\n"@), "<br />"@, "\n"@);
    if pattern_compiles(tag_pattern()) {
        pattern_replaced(tag_pattern(), broken, ""@)
    } else {
        broken
    }
}

/// A count and the length that it runs up to.
fn count_text(count: Option<i32>, length: Option<i32>) -> (r: String)
    ensures
        r@ == count_of(count, length),
{
    let mut out = String::new();
    let shown = match count {
        Some(count) => count,
        None => 0,
    };
    push_decimal(&mut out, shown as i64);
    out.append(" / ");
    match length {
        Some(length) => {
            push_decimal(&mut out, length as i64);
        },
        None => {
            out.append("?");
        },
    }
    out
}

impl MediaList {
    /// The progress and the number of episodes or chapters that it runs up
    /// to, such as `3 / 12`, or `3 / ?` where the number is not known.
    pub fn progress_string(&self) -> (r: String)
        ensures
            r@ == self@.progress_string(),
    {
        match &self.media {
            Some(media) => match media.media_type {
                Some(MediaType::Anime) => count_text(self.progress, media.episodes),
                Some(MediaType::Manga) => count_text(self.progress, media.chapters),
                None => count_text(self.progress, None),
            },
            None => count_text(self.progress, None),
        }
    }

    /// The finished volumes and the number of volumes that they run up to.
    /// An entry without media shows its progress instead.
    pub fn progress_volumes_string(&self) -> (r: String)
        ensures
            r@ == self@.progress_volumes_string(),
    {
        match &self.media {
            Some(media) => count_text(self.progress_volumes, media.volumes),
            None => count_text(self.progress, None),
        }
    }
}

impl Media {
    /// Turns the description into plain text and returns a copy of it: a
    /// line break for each of the tags `<br>`, `<br/>` and `<br />`, and every
    /// other tag taken out.
    pub fn description(&mut self) -> (r: Option<String>)
        ensures
            final(self)@ == (MediaView {
                description: match old(self)@.description {
                    Some(marked_up) => Some(plain_text(marked_up)),
                    None => None,
                },
                ..old(self)@
            }),
            text(r) == final(self)@.description,
    {
        let marked_up = match &self.description {
            Some(marked_up) => marked_up,
            None => {
                return None;
            },
        };
        let first = replace(marked_up.as_str(), "<br>", "\n");
        let second = replace(first.as_str(), "<br/>", "\n");
        let broken = replace(second.as_str(), "<br />", "\n");
        let plain = match compile("<.+?>") {
            Ok(tags) => replace_all(&tags, broken.as_str(), ""),
            Err(_) => broken,
        };
        self.description = Some(plain);
        clone_text(&self.description)
    }
}

} // verus!
