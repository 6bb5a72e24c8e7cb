//! Finding the catalog entry that a recognised title names.
//!
//! A title is compared with every name of a candidate: the variants of its
//! title and its synonyms. A candidate takes part only where one of its names
//! is at least 0.85 alike, and the candidate with the most similar name wins.

use vstd::prelude::*;
use super::models::{Media, MediaFormat, MediaList, MediaListCollection};
use super::ranking::{
    are_sound, contend, first_best, is_exact_rank, leads, lemma_exact_wins, lemma_leader_is_first_best,
    lemma_winner_iff_ranked, rank_of, Leader, Rank,
};
use super::similarity::{normalized_levenshtein, similarity_of};
use super::titles::characters;
use super::views::{view_opt, MediaListCollectionView, MediaListView, MediaView};
use super::lookup::as_places;

verus! {

/// The rank that each of `names` gives for the query; none for a name that
/// is less than 0.85 alike.
pub open spec fn name_ranks(names: Seq<Seq<char>>, query: Seq<char>, licensed: bool) -> Seq<Option<Rank>> {
    Seq::new(names.len(), |i: int| rank_of(similarity_of(names[i], query), licensed))
}

impl MediaView {
    /// The rank of this title for the query: that of its most similar name,
    /// the first of them where several are equally alike. None where no name
    /// is at least 0.85 alike.
    pub open spec fn rank_for(self, query: Seq<char>, licensed: bool) -> Option<Rank> {
        let ranks = name_ranks(self.all_titles(), query, licensed);
        match first_best(ranks) {
            Some(k) => ranks[k],
            None => None,
        }
    }

    /// Whether the user tracks this title and its format is the one asked
    /// for: a one-shot where `oneshot` is set, any other known format where
    /// it is not.
    pub open spec fn is_candidate(self, oneshot: bool) -> bool {
        &&& self.media_list_entry is Some
        &&& self.format matches Some(format)
        &&& (format == MediaFormat::Oneshot) == oneshot
    }

    /// Whether the title goes exactly by this name.
    pub open spec fn is_named(self, name: Seq<char>) -> bool {
        self.all_titles().contains(name)
    }

    /// Whether one of the names of the title is at least 0.85 like the query.
    pub open spec fn is_alike(self, query: Seq<char>) -> bool {
        exists|i: int|
            0 <= i < self.all_titles().len() && similarity_of(#[trigger] self.all_titles()[i], query).is_match()
    }

    /// Whether the title is flagged as officially licensed.
    pub open spec fn licensed(self) -> bool {
        self.is_licensed == Some(true)
    }
}

/// The rank of a search result for the query; none where it is no candidate.
pub open spec fn candidate_rank(media: Option<MediaView>, query: Seq<char>, oneshot: bool) -> Option<Rank> {
    match media {
        Some(media) => if media.is_candidate(oneshot) {
            media.rank_for(query, media.licensed())
        } else {
            None
        },
        None => None,
    }
}

/// Whether a search result takes part and is at least 0.85 like the query.
pub open spec fn is_alike_candidate(media: Option<MediaView>, query: Seq<char>, oneshot: bool) -> bool {
    media matches Some(media) && media.is_candidate(oneshot) && media.is_alike(query)
}

/// The rank of each search result for the query.
pub open spec fn candidate_ranks(media: Seq<Option<MediaView>>, query: Seq<char>, oneshot: bool) -> Seq<Option<Rank>> {
    Seq::new(media.len(), |i: int| candidate_rank(media[i], query, oneshot))
}

/// The id of the search result that the query names: the candidate of the
/// highest similarity; of several such, a licensed one; of several such, the
/// first.
pub open spec fn best_id(media: Seq<Option<MediaView>>, query: Seq<char>, oneshot: bool) -> Option<i32> {
    match first_best(candidate_ranks(media, query, oneshot)) {
        Some(k) => Some(media[k]->0.id),
        None => None,
    }
}

/// The views of a list of search results.
pub open spec fn result_views(media: Seq<Option<&Media>>) -> Seq<Option<MediaView>> {
    Seq::new(media.len(), |i: int| view_opt(media[i]))
}

impl MediaListView {
    /// Whether the entry's media goes exactly by this name.
    pub open spec fn is_named(self, name: Seq<char>) -> bool {
        self.media matches Some(media) && media.is_named(name)
    }

    /// Whether one of the names of the entry's media is at least 0.85 like the query.
    pub open spec fn is_alike(self, query: Seq<char>) -> bool {
        self.media matches Some(media) && media.is_alike(query)
    }
}

/// The rank of an entry's media for the query.
pub open spec fn entry_rank(entry: MediaListView, query: Seq<char>) -> Option<Rank> {
    match entry.media {
        Some(media) => media.rank_for(query, false),
        None => None,
    }
}

/// The one-shot titles among the media of the first `n` entries, where
/// one-shots are asked for; nothing where they are not.
pub open spec fn tracked_oneshots(entries: Seq<MediaListView>, oneshot: bool, n: nat) -> Seq<Option<MediaView>>
    decreases n,
{
    if n == 0 || n > entries.len() {
        Seq::empty()
    } else {
        let earlier = tracked_oneshots(entries, oneshot, (n - 1) as nat);
        match entries[n - 1].media {
            Some(media) => if oneshot && media.format == Some(MediaFormat::Oneshot) {
                earlier.push(Some(media))
            } else {
                earlier
            },
            None => earlier,
        }
    }
}

impl MediaListCollectionView {
    /// The rank of each entry for the query.
    pub open spec fn entry_ranks(self, query: Seq<char>) -> Seq<Option<Rank>> {
        Seq::new(self.entries().len(), |k: int| entry_rank(self.entries()[k], query))
    }

    /// Whether some entry's media goes exactly by this name.
    pub open spec fn holds_named(self, name: Seq<char>) -> bool {
        exists|j: int| 0 <= j < self.entries().len() && (#[trigger] self.entries()[j]).is_named(name)
    }

    /// The index of the entry that the query names: the one whose media has
    /// the most similar name, the first of them where several are equally
    /// alike. None where no entry has a name that is at least 0.85 alike.
    pub open spec fn search(self, query: Seq<char>) -> Option<int> {
        first_best(self.entry_ranks(query))
    }
}

/// A title has a rank for a query exactly where one of its names is at
/// least 0.85 like the query, and the rank is that of one of its names.
pub proof fn lemma_rank_for_the_alike(media: MediaView, query: Seq<char>, licensed: bool)
    ensures
        media.rank_for(query, licensed) is Some <==> media.is_alike(query),
        media.rank_for(query, licensed) matches Some(rank) ==> rank.similarity.length >= 1 && rank.licensed
            == licensed,
{
    let names = media.all_titles();
    let ranks = name_ranks(names, query, licensed);
    assert forall|j: int| 0 <= j < ranks.len() implies ((#[trigger] ranks[j]) is Some <==> similarity_of(
        names[j],
        query,
    ).is_match()) by {}
    lemma_winner_iff_ranked(ranks);
    if media.is_alike(query) {
        let i = choose|i: int| 0 <= i < names.len() && similarity_of(#[trigger] names[i], query).is_match();
        assert(ranks[i] is Some);
    }
    if media.rank_for(query, licensed) is Some {
        let k = first_best(ranks)->0;
        assert(ranks[k] is Some);
        assert(similarity_of(names[k], query).is_match());
    }
}

/// A search result is named exactly where some result takes part that is at
/// least 0.85 like the query: the search comes back empty for no other reason.
pub proof fn lemma_best_id_finds_the_alike(media: Seq<Option<MediaView>>, query: Seq<char>, oneshot: bool)
    ensures
        best_id(media, query, oneshot) is Some <==> exists|i: int|
            0 <= i < media.len() && is_alike_candidate(#[trigger] media[i], query, oneshot),
{
    let ranks = candidate_ranks(media, query, oneshot);
    assert forall|j: int| 0 <= j < ranks.len() implies ((#[trigger] ranks[j]) is Some <==> is_alike_candidate(
        media[j],
        query,
        oneshot,
    )) && (ranks[j] matches Some(rank) ==> rank.similarity.length >= 1) by {
        if let Some(candidate) = media[j] {
            lemma_rank_for_the_alike(candidate, query, candidate.licensed());
        }
    }
    lemma_winner_iff_ranked(ranks);
    if exists|i: int| 0 <= i < media.len() && is_alike_candidate(#[trigger] media[i], query, oneshot) {
        let i = choose|i: int| 0 <= i < media.len() && is_alike_candidate(#[trigger] media[i], query, oneshot);
        assert(ranks[i] is Some);
    }
    if best_id(media, query, oneshot) is Some {
        let k = first_best(ranks)->0;
        assert(ranks[k] is Some);
        assert(is_alike_candidate(media[k], query, oneshot));
    }
}

/// An entry is found exactly where some entry's media has a name that is at
/// least 0.85 like the query, and the entry found is such an entry.
pub proof fn lemma_search_finds_the_alike(collection: MediaListCollectionView, query: Seq<char>)
    ensures
        collection.search(query) is Some <==> exists|j: int|
            0 <= j < collection.entries().len() && (#[trigger] collection.entries()[j]).is_alike(query),
        collection.search(query) matches Some(k) ==> 0 <= k < collection.entries().len()
            && collection.entries()[k].is_alike(query),
{
    let entries = collection.entries();
    let ranks = collection.entry_ranks(query);
    assert forall|j: int| 0 <= j < ranks.len() implies ((#[trigger] ranks[j]) is Some <==> entries[j].is_alike(
        query,
    )) && (ranks[j] matches Some(rank) ==> rank.similarity.length >= 1) by {
        if let Some(media) = entries[j].media {
            lemma_rank_for_the_alike(media, query, false);
        }
    }
    lemma_winner_iff_ranked(ranks);
    if exists|j: int| 0 <= j < entries.len() && (#[trigger] entries[j]).is_alike(query) {
        let j = choose|j: int| 0 <= j < entries.len() && (#[trigger] entries[j]).is_alike(query);
        assert(ranks[j] is Some);
    }
    if collection.search(query) is Some {
        let k = first_best(ranks)->0;
        assert(ranks[k] is Some);
    }
}

/// The winner's rank.
pub open spec fn rank_view(leader: Option<Leader>) -> Option<Rank> {
    match leader {
        Some(leader) => Some(leader.rank),
        None => None,
    }
}

/// The winner's rank.
fn rank_of_leader(leader: Option<Leader>) -> (r: Option<Rank>)
    ensures
        r == rank_view(leader),
{
    match leader {
        Some(leader) => Some(leader.rank),
        None => None,
    }
}

impl Media {
    /// The rank of this title for the query `search`: that of its most
    /// similar name. None where no name is at least 0.85 alike.
    pub fn rank_for(&self, search: &str, licensed: bool) -> (r: Option<Rank>)
        ensures
            r == self@.rank_for(search@, licensed),
            r matches Some(rank) ==> rank.similarity.length >= 1,
            self@.is_named(search@) <==> is_exact_rank(r),
            r is Some <==> self@.is_alike(search@),
    {
        let names = self.all_titles();
        let ghost titles = self@.all_titles();
        let ghost ranks = name_ranks(titles, search@, licensed);
        let mut leader: Option<Leader> = None;
        let mut i: usize = 0;
        while i < names.len()
            invariant
                i <= names.len(),
                titles == self@.all_titles(),
                characters(names@) == titles,
                ranks == name_ranks(titles, search@, licensed),
                ranks.len() == names@.len(),
                leads(leader, ranks, i as int),
                are_sound(ranks, i as int),
                forall|j: int|
                    0 <= j < i ==> (titles[j] == search@ <==> is_exact_rank(#[trigger] ranks[j])),
            decreases names.len() - i,
        {
            let similarity = normalized_levenshtein(names[i].as_str(), search);
            let rank = if similarity.at_least_threshold() {
                Some(Rank { similarity, licensed })
            } else {
                None
            };
            leader = contend(leader, i, rank, Ghost(ranks));
            i += 1;
        }
        proof {
            lemma_leader_is_first_best(leader, ranks);
            lemma_rank_for_the_alike(self@, search@, licensed);
            if self@.is_named(search@) {
                let j = choose|j: int| 0 <= j < titles.len() && titles[j] == search@;
                assert(ranks[j] is Some);
                lemma_exact_wins(ranks, ranks.len() as int, leader->0.index as int, j);
            }
        }
        rank_of_leader(leader)
    }

    /// Whether the user tracks this title and its format is the one asked for.
    pub fn is_candidate(&self, oneshot: bool) -> (r: bool)
        ensures
            r == self@.is_candidate(oneshot),
    {
        if self.media_list_entry.is_none() {
            return false;
        }
        match self.format {
            Some(format) => (format == MediaFormat::Oneshot) == oneshot,
            None => false,
        }
    }
}

impl MediaListCollection {
    /// The id of the search result that the query `search` names.
    ///
    /// Only a result that the user tracks takes part, and only one of the
    /// format asked for: a one-shot where `oneshot` is set, any other known
    /// format where it is not. Of the results that take part, the one of the
    /// highest similarity wins; of several such, a licensed one; of several
    /// such, the first. None where no result is at least 0.85 alike.
    pub fn best_id_for_search(media: &[Option<&Media>], search: &str, oneshot: bool) -> (r: Option<i32>)
        ensures
            r == best_id(result_views(media@), search@, oneshot),
            r is Some <==> exists|i: int|
                0 <= i < media@.len() && is_alike_candidate(#[trigger] result_views(media@)[i], search@, oneshot),
    {
        let ghost views = result_views(media@);
        let ghost ranks = candidate_ranks(views, search@, oneshot);
        let mut leader: Option<Leader> = None;
        let mut i: usize = 0;
        while i < media.len()
            invariant
                i <= media.len(),
                views == result_views(media@),
                ranks == candidate_ranks(views, search@, oneshot),
                ranks.len() == media@.len(),
                leads(leader, ranks, i as int),
                are_sound(ranks, i as int),
            decreases media.len() - i,
        {
            let rank = match media[i] {
                Some(candidate) => {
                    if candidate.is_candidate(oneshot) {
                        let licensed = match candidate.is_licensed {
                            Some(licensed) => licensed,
                            None => false,
                        };
                        candidate.rank_for(search, licensed)
                    } else {
                        None
                    }
                },
                None => None,
            };
            leader = contend(leader, i, rank, Ghost(ranks));
            i += 1;
        }
        proof {
            lemma_leader_is_first_best(leader, ranks);
            lemma_best_id_finds_the_alike(views, search@, oneshot);
        }
        match leader {
            Some(leader) => match media[leader.index] {
                Some(winner) => Some(winner.id),
                None => None,
            },
            None => None,
        }
    }

    /// The id of the tracked one-shot that the query `search` names. Nothing
    /// is found where one-shots are not asked for.
    pub fn collection_best_id_for_search(&self, search: &str, oneshot: bool) -> (r: Option<i32>)
        ensures
            r == best_id(
                tracked_oneshots(self@.entries(), oneshot, self@.entries().len()),
                search@,
                oneshot,
            ),
            r is Some <==> exists|i: int|
                0 <= i < tracked_oneshots(self@.entries(), oneshot, self@.entries().len()).len()
                    && is_alike_candidate(
                    #[trigger] tracked_oneshots(self@.entries(), oneshot, self@.entries().len())[i],
                    search@,
                    oneshot,
                ),
    {
        proof {
            lemma_best_id_finds_the_alike(
                tracked_oneshots(self@.entries(), oneshot, self@.entries().len()),
                search@,
                oneshot,
            );
        }
        let positions = self.positions();
        let ghost entries = self@.entries();
        let mut media: Vec<Option<&Media>> = Vec::new();
        let mut k: usize = 0;
        while k < positions.len()
            invariant
                k <= positions.len(),
                entries == self@.entries(),
                as_places(positions@) == self@.places(),
                positions@.len() == entries.len(),
                forall|j: int| 0 <= j < positions@.len() ==> self@.slot(positions@[j].0 as int, positions@[j].1 as int) is Some,
                result_views(media@) == tracked_oneshots(entries, oneshot, k as nat),
            decreases positions.len() - k,
        {
            let (g, e) = positions[k];
            let entry = self.entry_at(g, e);
            match &entry.media {
                Some(m) => {
                    let is_oneshot = match m.format {
                        Some(format) => format == MediaFormat::Oneshot,
                        None => false,
                    };
                    if oneshot && is_oneshot {
                        media.push(Some(m));
                    }
                },
                None => {},
            }
            k += 1;
        }
        Self::best_id_for_search(media.as_slice(), search, oneshot)
    }

    /// The position of the entry that the query `search` names.
    pub fn search_position(&self, search: &str) -> (r: Option<(usize, usize)>)
        ensures
            match r {
                Some((g, e)) => {
                    &&& self@.search(search@) matches Some(k)
                    &&& self@.places()[k] == (g as int, e as int)
                    &&& self@.slot(g as int, e as int) == Some(self@.entries()[k])
                },
                None => self@.search(search@) is None,
            },
            self@.holds_named(search@) ==> r is Some,
            r matches Some((g, e)) ==> (self@.holds_named(search@) ==> self@.slot(g as int, e as int)->0.is_named(
                search@,
            )),
            r is Some <==> exists|j: int|
                0 <= j < self@.entries().len() && (#[trigger] self@.entries()[j]).is_alike(search@),
    {
        let positions = self.positions();
        let ghost entries = self@.entries();
        let ghost ranks = self@.entry_ranks(search@);
        let mut leader: Option<Leader> = None;
        let mut k: usize = 0;
        while k < positions.len()
            invariant
                k <= positions.len(),
                entries == self@.entries(),
                ranks == self@.entry_ranks(search@),
                as_places(positions@) == self@.places(),
                positions@.len() == entries.len(),
                ranks.len() == entries.len(),
                forall|j: int| 0 <= j < positions@.len() ==> self@.slot(positions@[j].0 as int, positions@[j].1 as int) is Some,
                leads(leader, ranks, k as int),
                are_sound(ranks, k as int),
                forall|j: int|
                    0 <= j < k ==> (entries[j].is_named(search@) <==> is_exact_rank(#[trigger] ranks[j])),
            decreases positions.len() - k,
        {
            let (g, e) = positions[k];
            let entry = self.entry_at(g, e);
            let rank = match &entry.media {
                Some(media) => media.rank_for(search, false),
                None => None,
            };
            leader = contend(leader, k, rank, Ghost(ranks));
            k += 1;
        }
        proof {
            lemma_leader_is_first_best(leader, ranks);
            lemma_search_finds_the_alike(self@, search@);
            if self@.holds_named(search@) {
                let j = choose|j: int| 0 <= j < entries.len() && (#[trigger] entries[j]).is_named(search@);
                assert(ranks[j] is Some);
                lemma_exact_wins(ranks, ranks.len() as int, leader->0.index as int, j);
            }
        }
        match leader {
            Some(leader) => {
                let (g, e) = positions[leader.index];
                Some((g, e))
            },
            None => None,
        }
    }

    /// The entry that the query `search` names, to be changed in place: the
    /// one whose media has the most similar name, the first of them where
    /// several are equally alike. None where no entry has a name that is at
    /// least 0.85 alike. The collection changes in that one slot and nowhere
    /// else.
    pub fn search_for_title(&mut self, search: &str) -> (r: Option<&mut MediaList>)
        ensures
            match r {
                Some(entry) => {
                    &&& old(self)@.search(search@) matches Some(k)
                    &&& entry@ == old(self)@.entries()[k]
                    &&& final(self)@ == old(self)@.with_slot(
                        old(self)@.places()[k].0,
                        old(self)@.places()[k].1,
                        final(entry)@,
                    )
                },
                None => old(self)@.search(search@) is None && final(self)@ == old(self)@,
            },
            old(self)@.holds_named(search@) ==> r is Some && r->0@.is_named(search@),
            r is Some <==> exists|j: int|
                0 <= j < old(self)@.entries().len() && (#[trigger] old(self)@.entries()[j]).is_alike(search@),
            r is Some ==> r->0@.is_alike(search@),
    {
        proof {
            lemma_search_finds_the_alike(self@, search@);
        }
        match self.search_position(search) {
            Some((g, e)) => Some(self.entry_at_mut(g, e)),
            None => None,
        }
    }
}

} // verus!
