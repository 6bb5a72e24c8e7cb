//! The seasons next to a title: its prequel and its sequel.
//!
//! Only an edge to a TV-format title counts, and only where it is the one
//! such edge of its kind. With none or several, the chain is ambiguous and no
//! neighbour is named.

use vstd::prelude::*;
use super::models::{Media, MediaEdge, MediaFormat, MediaRelation};
use super::views::{lemma_connection_view, view_opt, MediaEdgeView, MediaView};

verus! {

/// Whether a slot holds an edge of the kind `relation` to a TV-format title.
pub open spec fn leads_to_tv(slot: Option<MediaEdgeView>, relation: MediaRelation) -> bool {
    &&& slot matches Some(edge)
    &&& edge.relation_type == Some(relation)
    &&& edge.node matches Some(node)
    &&& node.format == Some(MediaFormat::Tv)
}

/// The TV-format titles that the first `n` slots lead to by the kind `relation`, in order.
pub open spec fn tv_nodes(slots: Seq<Option<MediaEdgeView>>, relation: MediaRelation, n: nat) -> Seq<MediaView>
    decreases n,
{
    if n == 0 || n > slots.len() {
        Seq::empty()
    } else if leads_to_tv(slots[n - 1], relation) {
        tv_nodes(slots, relation, (n - 1) as nat).push(slots[n - 1]->0.node->0)
    } else {
        tv_nodes(slots, relation, (n - 1) as nat)
    }
}

impl MediaView {
    /// The TV-format titles that this one is related to by the kind `relation`, in order.
    pub open spec fn related_tv(self, relation: MediaRelation) -> Seq<MediaView> {
        match self.relations {
            Some(connection) => match connection.edges {
                Some(slots) => tv_nodes(slots, relation, slots.len()),
                None => Seq::empty(),
            },
            None => Seq::empty(),
        }
    }

    /// The one TV-format title that this one is related to by the kind
    /// `relation`; none where there is no such title or more than one.
    pub open spec fn only_tv(self, relation: MediaRelation) -> Option<MediaView> {
        if self.related_tv(relation).len() == 1 {
            Some(self.related_tv(relation)[0])
        } else {
            None
        }
    }

    /// The season that continues this one.
    pub open spec fn sequel(self) -> Option<MediaView> {
        self.only_tv(MediaRelation::Sequel)
    }

    /// The season that this one continues.
    pub open spec fn prequel(self) -> Option<MediaView> {
        self.only_tv(MediaRelation::Prequel)
    }
}

/// The TV-format title that an edge of the kind `relation` leads to.
fn tv_node<'a>(slot: &'a Option<MediaEdge>, relation: MediaRelation) -> (r: Option<&'a Media>)
    ensures
        r is Some == leads_to_tv(view_opt(*slot), relation),
        r matches Some(node) ==> node@ == view_opt(*slot)->0.node->0,
{
    match slot {
        Some(edge) => {
            let kind = match edge.relation_type {
                Some(kind) => kind == relation,
                None => false,
            };
            match &edge.node {
                Some(node) => {
                    let tv = match node.format {
                        Some(format) => format == MediaFormat::Tv,
                        None => false,
                    };
                    if kind && tv {
                        Some(node)
                    } else {
                        None
                    }
                },
                None => None,
            }
        },
        None => None,
    }
}

impl Media {
    /// The one TV-format title that this one is related to by the kind
    /// `relation`; none where there is no such title or more than one.
    pub fn find_related_tv(&self, relation: MediaRelation) -> (r: Option<&Media>)
        ensures
            view_opt(r) == self@.only_tv(relation),
    {
        let slots = match &self.relations {
            Some(connection) => {
                proof {
                    lemma_connection_view(*connection);
                }
                match &connection.edges {
                    Some(slots) => slots,
                    None => {
                        return None;
                    },
                }
            },
            None => {
                return None;
            },
        };
        let ghost views = self@.relations->0.edges->0;
        let mut found: Option<&Media> = None;
        let mut several = false;
        let mut i: usize = 0;
        while i < slots.len()
            invariant
                i <= slots.len(),
                views.len() == slots@.len(),
                forall|j: int| 0 <= j < slots@.len() ==> views[j] == view_opt(slots@[j]),
                several ==> tv_nodes(views, relation, i as nat).len() > 1,
                !several && found is None ==> tv_nodes(views, relation, i as nat).len() == 0,
                !several && found is Some ==> tv_nodes(views, relation, i as nat) == seq![found->0@],
            decreases slots.len() - i,
        {
            match tv_node(&slots[i], relation) {
                Some(node) => {
                    if found.is_some() {
                        several = true;
                    } else {
                        found = Some(node);
                    }
                },
                None => {},
            }
            i += 1;
        }
        if several {
            None
        } else {
            found
        }
    }

    /// The season that continues this one: the title behind the one `Sequel`
    /// edge to a TV-format title.
    pub fn find_anime_sequel(&self) -> (r: Option<&Media>)
        ensures
            view_opt(r) == self@.sequel(),
    {
        self.find_related_tv(MediaRelation::Sequel)
    }

    /// The season that this one continues: the title behind the one `Prequel`
    /// edge to a TV-format title.
    pub fn find_anime_prequel(&self) -> (r: Option<&Media>)
        ensures
            view_opt(r) == self@.prequel(),
    {
        self.find_related_tv(MediaRelation::Prequel)
    }
}

} // verus!
