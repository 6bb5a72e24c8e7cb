//! The mathematical view of each catalog type.
//!
//! A view mirrors its type field by field, with `Seq<char>` for a string and
//! `Seq` for a list. Two values with the same view hold the same data, which
//! is what the logic's contracts speak of.

use vstd::prelude::*;
use super::models::{
    FuzzyDate, Media, MediaConnection, MediaCoverImage, MediaEdge, MediaFormat, MediaList,
    MediaListCollection, MediaListGroup, MediaListStatus, MediaRelation, MediaTitle, MediaType,
};

verus! {

pub ghost struct MediaTitleView {
    pub romaji: Option<Seq<char>>,
    pub english: Option<Seq<char>>,
    pub native: Option<Seq<char>>,
    pub user_preferred: Option<Seq<char>>,
}

pub ghost struct MediaCoverImageView {
    pub large: Option<Seq<char>>,
}

pub ghost struct MediaView {
    pub id: i32,
    pub title: Option<MediaTitleView>,
    pub media_type: Option<MediaType>,
    pub synonyms: Option<Seq<Option<Seq<char>>>>,
    pub cover_image: Option<MediaCoverImageView>,
    pub description: Option<Seq<char>>,
    pub format: Option<MediaFormat>,
    pub is_licensed: Option<bool>,
    pub relations: Option<MediaConnectionView>,
    pub episodes: Option<i32>,
    pub chapters: Option<i32>,
    pub volumes: Option<i32>,
    pub media_list_entry: Option<Box<MediaListView>>,
}

pub ghost struct MediaConnectionView {
    pub edges: Option<Seq<Option<MediaEdgeView>>>,
}

pub ghost struct MediaEdgeView {
    pub node: Option<MediaView>,
    pub relation_type: Option<MediaRelation>,
}

pub ghost struct MediaListView {
    pub id: i32,
    pub media_id: i32,
    pub status: Option<MediaListStatus>,
    pub progress: Option<i32>,
    pub progress_volumes: Option<i32>,
    pub score_bits: Option<u64>,
    pub started_at: Option<FuzzyDate>,
    pub completed_at: Option<FuzzyDate>,
    pub media: Option<MediaView>,
}

pub ghost struct MediaListGroupView {
    pub entries: Option<Seq<Option<MediaListView>>>,
    pub name: Option<Seq<char>>,
    pub is_custom_list: Option<bool>,
    pub is_split_completed_list: Option<bool>,
    pub status: Option<MediaListStatus>,
}

pub ghost struct MediaListCollectionView {
    pub lists: Option<Seq<Option<MediaListGroupView>>>,
}

/// The characters of a string that may be absent.
pub open spec fn text(s: Option<String>) -> Option<Seq<char>> {
    match s {
        Some(s) => Some(s@),
        None => None,
    }
}

/// The characters of each string of a list in which the list and any slot may be absent.
pub open spec fn texts(list: Option<Vec<Option<String>>>) -> Option<Seq<Option<Seq<char>>>> {
    match list {
        Some(v) => Some(Seq::new(v@.len(), |i: int| text(v@[i]))),
        None => None,
    }
}

/// The view of a value that may be absent.
pub open spec fn view_opt<T: View>(o: Option<T>) -> Option<T::V> {
    match o {
        Some(x) => Some(x@),
        None => None,
    }
}

/// The views of a list's slots, where the list and any slot may be absent.
pub open spec fn view_slots<T: View>(list: Option<Vec<Option<T>>>) -> Option<Seq<Option<T::V>>> {
    match list {
        Some(v) => Some(Seq::new(v@.len(), |i: int| view_opt(v@[i]))),
        None => None,
    }
}

impl View for MediaTitle {
    type V = MediaTitleView;

    open spec fn view(&self) -> MediaTitleView {
        MediaTitleView {
            romaji: text(self.romaji),
            english: text(self.english),
            native: text(self.native),
            user_preferred: text(self.user_preferred),
        }
    }
}

impl View for MediaCoverImage {
    type V = MediaCoverImageView;

    open spec fn view(&self) -> MediaCoverImageView {
        MediaCoverImageView { large: text(self.large) }
    }
}

impl View for Media {
    type V = MediaView;

    open spec fn view(&self) -> MediaView
        decreases self,
    {
        MediaView {
            id: self.id,
            title: view_opt(self.title),
            media_type: self.media_type,
            synonyms: texts(self.synonyms),
            cover_image: view_opt(self.cover_image),
            description: text(self.description),
            format: self.format,
            is_licensed: self.is_licensed,
            relations: match self.relations {
                Some(c) => Some(c@),
                None => None,
            },
            episodes: self.episodes,
            chapters: self.chapters,
            volumes: self.volumes,
            media_list_entry: match self.media_list_entry {
                Some(e) => Some(Box::new((*e)@)),
                None => None,
            },
        }
    }
}

/// The views of the first `n` slots of a relation list.
pub open spec fn edge_views(v: Vec<Option<MediaEdge>>, n: nat) -> Seq<Option<MediaEdgeView>>
    decreases v, n,
{
    if n == 0 || n > v@.len() {
        Seq::empty()
    } else {
        edge_views(v, (n - 1) as nat).push(
            match v[n - 1] {
                Some(e) => Some(e@),
                None => None,
            },
        )
    }
}

impl View for MediaConnection {
    type V = MediaConnectionView;

    open spec fn view(&self) -> MediaConnectionView
        decreases self,
    {
        MediaConnectionView {
            edges: match self.edges {
                Some(v) => Some(edge_views(v, v@.len())),
                None => None,
            },
        }
    }
}

impl View for MediaEdge {
    type V = MediaEdgeView;

    open spec fn view(&self) -> MediaEdgeView
        decreases self,
    {
        MediaEdgeView {
            node: match self.node {
                Some(m) => Some(m@),
                None => None,
            },
            relation_type: self.relation_type,
        }
    }
}

impl View for MediaList {
    type V = MediaListView;

    open spec fn view(&self) -> MediaListView
        decreases self,
    {
        MediaListView {
            id: self.id,
            media_id: self.media_id,
            status: self.status,
            progress: self.progress,
            progress_volumes: self.progress_volumes,
            score_bits: self.score_bits,
            started_at: self.started_at,
            completed_at: self.completed_at,
            media: match self.media {
                Some(m) => Some(m@),
                None => None,
            },
        }
    }
}

impl View for MediaListGroup {
    type V = MediaListGroupView;

    open spec fn view(&self) -> MediaListGroupView {
        MediaListGroupView {
            entries: view_slots(self.entries),
            name: text(self.name),
            is_custom_list: self.is_custom_list,
            is_split_completed_list: self.is_split_completed_list,
            status: self.status,
        }
    }
}

impl View for MediaListCollection {
    type V = MediaListCollectionView;

    open spec fn view(&self) -> MediaListCollectionView {
        MediaListCollectionView { lists: view_slots(self.lists) }
    }
}

/// `edge_views` holds one slot for each of the first `n` slots of the list:
/// the view of the edge in it.
pub proof fn lemma_edge_views(v: Vec<Option<MediaEdge>>, n: nat)
    requires
        n <= v@.len(),
    ensures
        edge_views(v, n).len() == n,
        forall|i: int| 0 <= i < n ==> #[trigger] edge_views(v, n)[i] == view_opt(v@[i]),
    decreases n,
{
    if n > 0 {
        lemma_edge_views(v, (n - 1) as nat);
        assert(edge_views(v, n) == edge_views(v, (n - 1) as nat).push(
            match v[n - 1] {
                Some(e) => Some(e@),
                None => None,
            },
        ));
    }
}

/// The view of a relation list mirrors the list slot by slot.
pub proof fn lemma_connection_view(c: MediaConnection)
    ensures
        c@.edges == view_slots(c.edges),
{
    match c.edges {
        Some(v) => {
            lemma_edge_views(v, v@.len());
        },
        None => {},
    }
}

} // verus!
