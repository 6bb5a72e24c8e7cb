//! Finding entries in the user's lists.
//!
//! A collection holds groups, a group holds entries, and a slot of either list
//! may be empty. The entries are addressed by place: the index of the group
//! and the index of the slot in it. `places` lists the places that hold an
//! entry, group by group; `entries` lists the entries in the same order.

use vstd::prelude::*;
use super::models::{MediaList, MediaListCollection, MediaListGroup};
use super::views::{view_opt, MediaListCollectionView, MediaListGroupView, MediaListView};

verus! {

/// The places of the first `n` slots of group `g` that hold an entry.
pub open spec fn places_in_slots(slots: Seq<Option<MediaListView>>, g: int, n: nat) -> Seq<(int, int)>
    decreases n,
{
    if n == 0 || n > slots.len() {
        Seq::empty()
    } else if slots[n - 1] is Some {
        places_in_slots(slots, g, (n - 1) as nat).push((g, n - 1))
    } else {
        places_in_slots(slots, g, (n - 1) as nat)
    }
}

/// The places of group `g` that hold an entry; none where the group or its list is absent.
pub open spec fn places_in_group(group: Option<MediaListGroupView>, g: int) -> Seq<(int, int)> {
    match group {
        Some(group) => match group.entries {
            Some(slots) => places_in_slots(slots, g, slots.len()),
            None => Seq::empty(),
        },
        None => Seq::empty(),
    }
}

/// The places of the first `n` groups that hold an entry.
pub open spec fn places_in_lists(lists: Seq<Option<MediaListGroupView>>, n: nat) -> Seq<(int, int)>
    decreases n,
{
    if n == 0 || n > lists.len() {
        Seq::empty()
    } else {
        places_in_lists(lists, (n - 1) as nat) + places_in_group(lists[n - 1], n - 1)
    }
}

impl MediaListCollectionView {
    /// The entry at slot `e` of group `g`, if there is one.
    pub open spec fn slot(self, g: int, e: int) -> Option<MediaListView> {
        match self.lists {
            Some(lists) => if 0 <= g < lists.len() {
                match lists[g] {
                    Some(group) => match group.entries {
                        Some(slots) => if 0 <= e < slots.len() {
                            slots[e]
                        } else {
                            None
                        },
                        None => None,
                    },
                    None => None,
                }
            } else {
                None
            },
            None => None,
        }
    }

    /// The places that hold an entry, in the order of the groups and of the slots in each.
    pub open spec fn places(self) -> Seq<(int, int)> {
        match self.lists {
            Some(lists) => places_in_lists(lists, lists.len()),
            None => Seq::empty(),
        }
    }

    /// The entries, in the order of the groups and of the slots in each.
    pub open spec fn entries(self) -> Seq<MediaListView> {
        Seq::new(self.places().len(), |k: int| self.slot(self.places()[k].0, self.places()[k].1)->0)
    }

    /// The index in `entries` of the first entry for the media `id`.
    pub open spec fn index_of(self, id: i32) -> Option<int> {
        first_for_media(self.entries(), id)
    }

    /// The first entry for the media `id`.
    pub open spec fn find(self, id: i32) -> Option<MediaListView> {
        match self.index_of(id) {
            Some(k) => Some(self.entries()[k]),
            None => None,
        }
    }

    /// The collection with the entry at slot `e` of group `g` replaced.
    pub open spec fn with_slot(self, g: int, e: int, entry: MediaListView) -> Self {
        let lists = self.lists->0;
        let group = lists[g]->0;
        let slots = group.entries->0;
        MediaListCollectionView {
            lists: Some(
                lists.update(
                    g,
                    Some(MediaListGroupView { entries: Some(slots.update(e, Some(entry))), ..group }),
                ),
            ),
        }
    }
}

/// Whether `k` is the index of the first of `entries` that is for the media `id`.
pub open spec fn is_first_for_media(entries: Seq<MediaListView>, id: i32, k: int) -> bool {
    &&& 0 <= k < entries.len()
    &&& entries[k].media_id == id
    &&& forall|j: int| 0 <= j < k ==> (#[trigger] entries[j]).media_id != id
}

/// The index of the first of `entries` that is for the media `id`.
pub open spec fn first_for_media(entries: Seq<MediaListView>, id: i32) -> Option<int> {
    if exists|k: int| is_first_for_media(entries, id, k) {
        Some(choose|k: int| is_first_for_media(entries, id, k))
    } else {
        None
    }
}

/// A collection that differs from another in one entry alone has the other's
/// view with that slot replaced.
pub proof fn lemma_slot_replaced(old: MediaListCollection, new: MediaListCollection, g: int, e: int, entry: MediaList)
    requires
        old@.slot(g, e) is Some,
        new.lists is Some,
        new.lists->0@ == old.lists->0@.update(g, new.lists->0@[g]),
        new.lists->0@[g] is Some,
        new.lists->0@[g]->0.name == old.lists->0@[g]->0.name,
        new.lists->0@[g]->0.is_custom_list == old.lists->0@[g]->0.is_custom_list,
        new.lists->0@[g]->0.is_split_completed_list == old.lists->0@[g]->0.is_split_completed_list,
        new.lists->0@[g]->0.status == old.lists->0@[g]->0.status,
        new.lists->0@[g]->0.entries is Some,
        new.lists->0@[g]->0.entries->0@ == old.lists->0@[g]->0.entries->0@.update(e, Some(entry)),
    ensures
        new@ == old@.with_slot(g, e, entry@),
{
    let expected = old@.with_slot(g, e, entry@);
    assert(new@.lists->0[g]->0.entries->0 =~= expected.lists->0[g]->0.entries->0);
    assert(new@.lists->0 =~= expected.lists->0);
}

/// Whether a place comes before another, in the order of the groups and of
/// the slots in each.
pub open spec fn comes_before(a: (int, int), b: (int, int)) -> bool {
    a.0 < b.0 || (a.0 == b.0 && a.1 < b.1)
}

/// The places of a group's slots lie in that group, each holds an entry,
/// and they go up through the slots.
pub proof fn lemma_places_in_slots(slots: Seq<Option<MediaListView>>, g: int, n: nat)
    requires
        n <= slots.len(),
    ensures
        forall|k: int|
            0 <= k < places_in_slots(slots, g, n).len() ==> {
                let place = #[trigger] places_in_slots(slots, g, n)[k];
                place.0 == g && 0 <= place.1 < n && slots[place.1] is Some
            },
        forall|a: int, b: int|
            0 <= a < b < places_in_slots(slots, g, n).len() ==> comes_before(
                #[trigger] places_in_slots(slots, g, n)[a],
                #[trigger] places_in_slots(slots, g, n)[b],
            ),
    decreases n,
{
    if n > 0 {
        lemma_places_in_slots(slots, g, (n - 1) as nat);
    }
}

/// The places of the first groups lie in those groups, each holds an
/// entry, and they go up through the groups and the slots.
pub proof fn lemma_places_in_lists(lists: Seq<Option<MediaListGroupView>>, n: nat)
    requires
        n <= lists.len(),
    ensures
        forall|k: int|
            0 <= k < places_in_lists(lists, n).len() ==> {
                let place = #[trigger] places_in_lists(lists, n)[k];
                &&& 0 <= place.0 < n
                &&& lists[place.0] matches Some(group)
                &&& group.entries matches Some(slots)
                &&& 0 <= place.1 < slots.len()
                &&& slots[place.1] is Some
            },
        forall|a: int, b: int|
            0 <= a < b < places_in_lists(lists, n).len() ==> comes_before(
                #[trigger] places_in_lists(lists, n)[a],
                #[trigger] places_in_lists(lists, n)[b],
            ),
    decreases n,
{
    if n > 0 {
        lemma_places_in_lists(lists, (n - 1) as nat);
        match lists[n - 1] {
            Some(group) => match group.entries {
                Some(slots) => {
                    lemma_places_in_slots(slots, n - 1, slots.len());
                },
                None => {},
            },
            None => {},
        }
        let all = places_in_lists(lists, n);
        assert forall|k: int| 0 <= k < all.len() implies {
            let place = #[trigger] all[k];
            &&& 0 <= place.0 < n
            &&& lists[place.0] matches Some(group)
            &&& group.entries matches Some(slots)
            &&& 0 <= place.1 < slots.len()
            &&& slots[place.1] is Some
        } by {}
    }
}

/// The places of a group's slots depend only on which slots hold an entry.
pub proof fn lemma_same_places_in_slots(
    slots: Seq<Option<MediaListView>>,
    others: Seq<Option<MediaListView>>,
    g: int,
    n: nat,
)
    requires
        slots.len() == others.len(),
        n <= slots.len(),
        forall|i: int| 0 <= i < n ==> ((#[trigger] slots[i]) is Some <==> others[i] is Some),
    ensures
        places_in_slots(slots, g, n) == places_in_slots(others, g, n),
    decreases n,
{
    if n > 0 {
        lemma_same_places_in_slots(slots, others, g, (n - 1) as nat);
    }
}

/// The places of the first groups depend only on the places of each group.
pub proof fn lemma_same_places_in_lists(
    lists: Seq<Option<MediaListGroupView>>,
    others: Seq<Option<MediaListGroupView>>,
    n: nat,
)
    requires
        lists.len() == others.len(),
        n <= lists.len(),
        forall|i: int| 0 <= i < n ==> places_in_group(#[trigger] lists[i], i) == places_in_group(others[i], i),
    ensures
        places_in_lists(lists, n) == places_in_lists(others, n),
    decreases n,
{
    if n > 0 {
        lemma_same_places_in_lists(lists, others, (n - 1) as nat);
    }
}

/// Replacing the entry at a place changes that one entry of the collection:
/// the places stay as they are, and of the entries the one at that place is
/// the new one and every other is as before.
pub proof fn lemma_with_slot_changes_one_entry(c: MediaListCollectionView, k: int, entry: MediaListView)
    requires
        0 <= k < c.places().len(),
    ensures
        c.with_slot(c.places()[k].0, c.places()[k].1, entry).places() == c.places(),
        c.with_slot(c.places()[k].0, c.places()[k].1, entry).entries() == c.entries().update(k, entry),
{
    let lists = c.lists->0;
    lemma_places_in_lists(lists, lists.len());
    let places = c.places();
    let (g, e) = places[k];
    let group = lists[g]->0;
    let slots = group.entries->0;
    let changed = c.with_slot(g, e, entry);
    let new_lists = changed.lists->0;
    let new_slots = slots.update(e, Some(entry));
    assert forall|i: int| 0 <= i < lists.len() implies places_in_group(#[trigger] lists[i], i)
        == places_in_group(new_lists[i], i) by {
        if i == g {
            lemma_same_places_in_slots(slots, new_slots, g, slots.len());
        }
    }
    lemma_same_places_in_lists(lists, new_lists, lists.len());
}

/// The places that a list of positions names.
pub open spec fn as_places(positions: Seq<(usize, usize)>) -> Seq<(int, int)> {
    Seq::new(positions.len(), |k: int| (positions[k].0 as int, positions[k].1 as int))
}

impl MediaListCollection {
    /// The entry at a position that holds one.
    pub(crate) fn entry_at(&self, g: usize, e: usize) -> (r: &MediaList)
        requires
            self@.slot(g as int, e as int) is Some,
        ensures
            Some(r@) == self@.slot(g as int, e as int),
    {
        match &self.lists {
            Some(lists) => match &lists[g] {
                Some(group) => match &group.entries {
                    Some(slots) => match &slots[e] {
                        Some(entry) => entry,
                        None => unreached(),
                    },
                    None => unreached(),
                },
                None => unreached(),
            },
            None => unreached(),
        }
    }

    /// The entry at a position that holds one, to be changed in place.
    pub(crate) fn entry_at_mut(&mut self, g: usize, e: usize) -> (r: &mut MediaList)
        requires
            old(self)@.slot(g as int, e as int) is Some,
        ensures
            Some(r@) == old(self)@.slot(g as int, e as int),
            final(self)@ == old(self)@.with_slot(g as int, e as int, final(r)@),
    {
        let ghost after = *final(self);
        match &mut self.lists {
            Some(lists) => match &mut lists[g] {
                Some(group) => match &mut group.entries {
                    Some(slots) => match &mut slots[e] {
                        Some(entry) => {
                            proof {
                                lemma_slot_replaced(*old(self), after, g as int, e as int, *final(entry));
                            }
                            entry
                        },
                        None => unreached(),
                    },
                    None => unreached(),
                },
                None => unreached(),
            },
            None => unreached(),
        }
    }

    /// The number of entries in all groups together.
    pub fn count_entries(&self) -> (n: usize)
        ensures
            n == self@.entries().len(),
    {
        let positions = self.positions();
        positions.len()
    }

    /// The first entry for the media `id`, in the order of the groups and of
    /// the entries in each.
    pub fn find_entry_by_id(&self, id: i32) -> (r: Option<&MediaList>)
        ensures
            view_opt(r) == self@.find(id),
    {
        match self.position_of(id) {
            Some((g, e)) => Some(self.entry_at(g, e)),
            None => None,
        }
    }

    /// The first entry for the media `id`, to be changed in place. The
    /// collection changes in that one slot and nowhere else.
    pub fn find_entry_by_id_mut(&mut self, id: i32) -> (r: Option<&mut MediaList>)
        ensures
            match r {
                Some(entry) => {
                    &&& old(self)@.index_of(id) matches Some(k)
                    &&& entry@ == old(self)@.entries()[k]
                    &&& final(self)@ == old(self)@.with_slot(
                        old(self)@.places()[k].0,
                        old(self)@.places()[k].1,
                        final(entry)@,
                    )
                },
                None => old(self)@.index_of(id) is None && final(self)@ == old(self)@,
            },
    {
        match self.position_of(id) {
            Some((g, e)) => Some(self.entry_at_mut(g, e)),
            None => None,
        }
    }

    /// The position of the first entry for the media `id`.
    pub fn position_of(&self, id: i32) -> (r: Option<(usize, usize)>)
        ensures
            match r {
                Some((g, e)) => {
                    &&& self@.index_of(id) matches Some(k)
                    &&& self@.places()[k] == (g as int, e as int)
                    &&& self@.slot(g as int, e as int) == Some(self@.entries()[k])
                },
                None => self@.index_of(id) is None,
            },
    {
        let positions = self.positions();
        let ghost entries = self@.entries();
        let mut k: usize = 0;
        while k < positions.len()
            invariant
                k <= positions.len(),
                entries == self@.entries(),
                as_places(positions@) == self@.places(),
                positions@.len() == entries.len(),
                forall|j: int| 0 <= j < positions@.len() ==> self@.slot(positions@[j].0 as int, positions@[j].1 as int) is Some,
                forall|j: int| 0 <= j < k ==> (#[trigger] entries[j]).media_id != id,
            decreases positions.len() - k,
        {
            let (g, e) = positions[k];
            let entry = self.entry_at(g, e);
            if entry.media_id == id {
                assert(is_first_for_media(entries, id, k as int));
                return Some((g, e));
            }
            k += 1;
        }
        None
    }

    /// The positions that hold an entry, in order.
    pub fn positions(&self) -> (r: Vec<(usize, usize)>)
        ensures
            as_places(r@) == self@.places(),
            forall|k: int| 0 <= k < r@.len() ==> self@.slot(r@[k].0 as int, r@[k].1 as int) is Some,
    {
        let mut out: Vec<(usize, usize)> = Vec::new();
        let lists = match &self.lists {
            Some(lists) => lists,
            None => {
                return out;
            },
        };
        let ghost views = self@.lists->0;
        let mut g: usize = 0;
        while g < lists.len()
            invariant
                g <= lists.len(),
                self.lists == Some(*lists),
                views == self@.lists->0,
                views.len() == lists.len(),
                as_places(out@) == places_in_lists(views, g as nat),
                forall|k: int| 0 <= k < out@.len() ==> self@.slot(out@[k].0 as int, out@[k].1 as int) is Some,
            decreases lists.len() - g,
        {
            let ghost before = out@;
            match &lists[g] {
                Some(group) => match &group.entries {
                    Some(slots) => {
                        let ghost slot_views = views[g as int]->0.entries->0;
                        let mut e: usize = 0;
                        while e < slots.len()
                            invariant
                                e <= slots.len(),
                                g < lists.len(),
                                self.lists == Some(*lists),
                                lists[g as int] == Some(*group),
                                group.entries == Some(*slots),
                                views == self@.lists->0,
                                views.len() == lists.len(),
                                slot_views == views[g as int]->0.entries->0,
                                slot_views.len() == slots.len(),
                                as_places(out@) == as_places(before) + places_in_slots(
                                    slot_views,
                                    g as int,
                                    e as nat,
                                ),
                                forall|k: int| 0 <= k < out@.len() ==> self@.slot(
                                    out@[k].0 as int,
                                    out@[k].1 as int,
                                ) is Some,
                            decreases slots.len() - e,
                        {
                            let ghost prior = out@;
                            if slots[e].is_some() {
                                out.push((g, e));
                                assert(as_places(out@) =~= as_places(prior).push((g as int, e as int)));
                            }
                            e += 1;
                        }
                    },
                    None => {},
                },
                None => {},
            }
            g += 1;
        }
        out
    }
}

} // verus!
