//! An in-memory store of entry records and index of links.
//!
//! It answers what the link query engine asks of a store, so that queries
//! can be run and checked without a network.

use crate::address::{same_address, Address};
use crate::content::entry_address;
use crate::entry::{
    ChainHeader, CrudStatus, EntryWithHeaderView, EntryWithMeta, EntryWithMetaAndHeader,
    EntryWithMetaAndHeaderView, EntryWithMetaView, LinkData, LinkDataView,
};
use crate::hold::{outcome_view, StoreAction, StoreActionView};
use crate::links::{
    answered, answers_for, begin_latest_entry, fetched_view, fetches_left, get_latest_entry,
    get_link_result_workflow, is_answered, is_current, is_update_chain, latest_entry,
    lemma_no_candidates_no_links, lemma_one_answer_for_each_link, lemma_walk_comes_to_an_end,
    lemma_walk_reaches_end_of_chain, link_query_result, query_answers,
    one_entry_per_candidate, query_result_view, record_at, resolved_views, Fetched, GetLinksArgs,
    GetLinksOptions, GetLinksResult, LinkCandidate, LinkCandidateView, LinkMatch, LinkMatchView,
    LinksResultView, LinksStatusRequestKind, Resolved, ResolvedView, Timeout, WalkState, WalkStep,
    WalkStepView,
};
use crate::error::{HolochainError, HolochainErrorView};
use crate::views::seq_view;
use vstd::prelude::*;

verus! {

/// The records that a list of stored pairs holds: for each address, the
/// record that was stored at it last.
spec fn records_map(records: Seq<(Address, EntryWithMetaAndHeader)>) -> Map<
    Seq<char>,
    EntryWithMetaAndHeaderView,
>
    decreases records.len(),
{
    if records.len() == 0 {
        Map::empty()
    } else {
        records_map(records.drop_last()).insert(records.last().0@, records.last().1@)
    }
}

/// Whether a link starts at `base` and passes the filters on type and tag.
pub open spec fn link_matches(
    link: LinkDataView,
    base: Seq<char>,
    link_type: LinkMatchView,
    tag: LinkMatchView,
) -> bool {
    link.base == base && link_type.admits(link.link_type) && tag.admits(link.tag)
}

/// What a query reports of a link: where it points, and its tag.
pub open spec fn candidate_of(link: LinkDataView) -> LinkCandidateView {
    LinkCandidateView { target: link.target, tag: link.tag }
}

/// Whether some link among `links` that matches the query is reported as
/// `candidate`.
pub open spec fn is_candidate(
    links: Set<LinkDataView>,
    base: Seq<char>,
    link_type: LinkMatchView,
    tag: LinkMatchView,
    candidate: LinkCandidateView,
) -> bool {
    exists|link: LinkDataView|
        links.contains(link) && link_matches(link, base, link_type, tag) && #[trigger] candidate_of(
            link,
        ) == candidate
}

/// Whether `candidates` answers a query over `links`: it holds each
/// candidate of the query once, and nothing else, in whatever order.
pub open spec fn answers_query(
    links: Set<LinkDataView>,
    base: Seq<char>,
    link_type: LinkMatchView,
    tag: LinkMatchView,
    candidates: Seq<LinkCandidateView>,
) -> bool {
    &&& candidates.no_duplicates()
    &&& forall|candidate: LinkCandidateView|
        #[trigger] candidates.contains(candidate) <==> is_candidate(
            links,
            base,
            link_type,
            tag,
            candidate,
        )
}

/// Each candidate with the current entry of its target in `entries`.
pub open spec fn resolve_candidates(
    entries: Map<Seq<char>, EntryWithMetaAndHeaderView>,
    candidates: Seq<LinkCandidateView>,
    max_hops: nat,
) -> Seq<ResolvedView> {
    Seq::new(
        candidates.len(),
        |i: int| (candidates[i], latest_entry(entries, candidates[i].target, max_hops)),
    )
}

/// The candidates of a query over links in the order in which they were
/// added: the target and tag of each matching link, at the place of the
/// first link that has them, and not again.
pub open spec fn candidates_of(
    links: Seq<LinkDataView>,
    base: Seq<char>,
    link_type: LinkMatchView,
    tag: LinkMatchView,
) -> Seq<LinkCandidateView>
    decreases links.len(),
{
    if links.len() == 0 {
        Seq::empty()
    } else {
        let earlier = candidates_of(links.drop_last(), base, link_type, tag);
        let link = links.last();
        if link_matches(link, base, link_type, tag) && !earlier.contains(candidate_of(link)) {
            earlier.push(candidate_of(link))
        } else {
            earlier
        }
    }
}

/// The list of links after `link` was added: a link that is in the list
/// stays where it is, a new one goes to the end.
pub open spec fn added_to_list(links: Seq<LinkDataView>, link: LinkDataView) -> Seq<LinkDataView> {
    if links.contains(link) {
        links
    } else {
        links.push(link)
    }
}

/// The list of links after `link` was removed: the others, in their order.
pub open spec fn removed_from_list(links: Seq<LinkDataView>, link: LinkDataView) -> Seq<
    LinkDataView,
> {
    links.filter(|other: LinkDataView| other != link)
}

/// The record of an entry as its status or successor is changed.
pub open spec fn superseded(
    record: EntryWithMetaAndHeaderView,
    status: CrudStatus,
    successor: Seq<char>,
) -> EntryWithMetaAndHeaderView {
    EntryWithMetaAndHeaderView {
        entry_with_meta: EntryWithMetaView {
            entry: record.entry_with_meta.entry,
            crud_status: status,
            maybe_link_update_delete: Some(successor),
        },
        headers: record.headers,
    }
}

/// The record that holding an entry with a header leaves at the entry's
/// address: a live record with that header if the address held nothing,
/// else the record that was there, with the header added to its headers.
pub open spec fn held_record(
    earlier: Option<EntryWithMetaAndHeaderView>,
    held: EntryWithHeaderView,
) -> EntryWithMetaAndHeaderView {
    match earlier {
        None => EntryWithMetaAndHeaderView {
            entry_with_meta: EntryWithMetaView {
                entry: held.entry,
                crud_status: CrudStatus::Live,
                maybe_link_update_delete: None,
            },
            headers: seq![held.header],
        },
        Some(record) => EntryWithMetaAndHeaderView {
            entry_with_meta: record.entry_with_meta,
            headers: record.headers.push(held.header),
        },
    }
}

/// The error of a lookup with a filter that cannot be applied.
pub open spec fn invalid_filter() -> HolochainErrorView {
    HolochainErrorView::ErrorGeneric("Invalid regular expression in link filter"@)
}

/// The error of an action on an entry that the store does not hold.
pub open spec fn entry_not_found() -> HolochainErrorView {
    HolochainErrorView::ErrorGeneric("Could not find the entry in the store"@)
}

/// What a store action does to the records of a store, or why it fails.
pub open spec fn applied_to_entries(
    entries: Map<Seq<char>, EntryWithMetaAndHeaderView>,
    action: StoreActionView,
) -> Result<Map<Seq<char>, EntryWithMetaAndHeaderView>, HolochainErrorView> {
    match action {
        StoreActionView::HoldEntry(held) => Ok(
            entries.insert(
                entry_address(held.entry),
                held_record(record_at(entries, entry_address(held.entry)), held),
            ),
        ),
        StoreActionView::AddLink(_) => Ok(entries),
        StoreActionView::RemoveLink(_, _) => Ok(entries),
        StoreActionView::UpdateEntry { old, new } => if entries.contains_key(old) {
            Ok(entries.insert(old, superseded(entries[old], CrudStatus::Modified, new)))
        } else {
            Err(entry_not_found())
        },
        StoreActionView::RemoveEntry { deleted, deletion } => if entries.contains_key(deleted) {
            Ok(entries.insert(deleted, superseded(entries[deleted], CrudStatus::Deleted, deletion)))
        } else {
            Err(entry_not_found())
        },
    }
}

/// What a store action does to the links of an index.
pub open spec fn applied_to_links(links: Set<LinkDataView>, action: StoreActionView) -> Set<
    LinkDataView,
> {
    match action {
        StoreActionView::AddLink(link) => links.insert(link),
        StoreActionView::RemoveLink(link, _) => links.remove(link),
        _ => links,
    }
}

/// What a store action does to the list of links of an index.
pub open spec fn applied_to_list(links: Seq<LinkDataView>, action: StoreActionView) -> Seq<
    LinkDataView,
> {
    match action {
        StoreActionView::AddLink(link) => added_to_list(links, link),
        StoreActionView::RemoveLink(link, _) => removed_from_list(links, link),
        _ => links,
    }
}

/// An in-memory content store and link index.
pub struct DhtStore {
    records: Vec<(Address, EntryWithMetaAndHeader)>,
    links: Vec<LinkData>,
}

/// Whether two links are the same link: same base, target, type and tag.
pub fn same_link(a: &LinkData, b: &LinkData) -> (same: bool)
    ensures
        same == (a@ == b@),
{
    same_address(&a.base, &b.base) && same_address(&a.target, &b.target) && a.link_type
        == b.link_type && a.tag == b.tag
}

impl DhtStore {
    /// The records that the store holds, by address.
    pub closed spec fn entries(&self) -> Map<Seq<char>, EntryWithMetaAndHeaderView> {
        records_map(self.records@)
    }

    /// The links that the index holds, in the order in which they were
    /// added.
    pub closed spec fn link_list(&self) -> Seq<LinkDataView> {
        seq_view(self.links@)
    }

    /// The links that the index holds.
    pub closed spec fn links(&self) -> Set<LinkDataView> {
        seq_view(self.links@).to_set()
    }

    /// The links that the index holds are those of its list.
    pub proof fn lemma_links_are_those_listed(&self)
        ensures
            self.links() == self.link_list().to_set(),
    {
    }

    /// An empty store.
    pub fn new() -> (store: DhtStore)
        ensures
            store.entries() == Map::<Seq<char>, EntryWithMetaAndHeaderView>::empty(),
            store.links() == Set::<LinkDataView>::empty(),
            store.link_list() == Seq::<LinkDataView>::empty(),
    {
        let store = DhtStore { records: Vec::new(), links: Vec::new() };
        assert(store.link_list() =~= Seq::<LinkDataView>::empty());
        assert(store.links() =~= Set::<LinkDataView>::empty());
        store
    }

    /// Stores `record` at `address`, in place of what was there.
    pub fn put(&mut self, address: Address, record: EntryWithMetaAndHeader)
        ensures
            final(self).entries() == old(self).entries().insert(address@, record@),
            final(self).links() == old(self).links(),
            final(self).link_list() == old(self).link_list(),
    {
        let ghost before = self.records@;
        self.records.push((address, record));
        assert(self.records@.drop_last() =~= before);
    }

    /// The record at `address`, if the store holds one. Never fails.
    pub fn fetch(&self, address: &Address) -> (fetched: Fetched)
        ensures
            fetched_view(fetched) == answered(record_at(self.entries(), address@)),
    {
        let mut i: usize = self.records.len();
        assert(self.records@.take(i as int) =~= self.records@);
        while i > 0
            invariant
                i <= self.records.len(),
                record_at(self.entries(), address@) == record_at(
                    records_map(self.records@.take(i as int)),
                    address@,
                ),
            decreases i,
        {
            i -= 1;
            assert(self.records@.take(i + 1).drop_last() =~= self.records@.take(i as int));
            if same_address(&self.records[i].0, address) {
                return Ok(Some(self.records[i].1.clone()));
            }
        }
        Ok(None)
    }

    /// Records that the entry at `address` has been superseded: gives its
    /// record the status `status` and the successor `successor`. Returns
    /// whether the store holds a record at `address`; if not, nothing
    /// changes.
    pub fn supersede(&mut self, address: &Address, status: CrudStatus, successor: &Address) -> (found:
        bool)
        ensures
            found == old(self).entries().contains_key(address@),
            final(self).links() == old(self).links(),
            final(self).link_list() == old(self).link_list(),
            found ==> final(self).entries() == old(self).entries().insert(
                address@,
                superseded(old(self).entries()[address@], status, successor@),
            ),
            !found ==> final(self).entries() == old(self).entries(),
    {
        match self.fetch(address) {
            Ok(Some(record)) => {
                let updated = EntryWithMetaAndHeader {
                    entry_with_meta: EntryWithMeta {
                        entry: record.entry_with_meta.entry,
                        crud_status: status,
                        maybe_link_update_delete: Some(successor.clone()),
                    },
                    headers: record.headers,
                };
                self.put(address.clone(), updated);
                true
            },
            _ => false,
        }
    }

    /// The current entry for `address`, by a walk that follows up to
    /// `max_hops` recorded successors. The store answers at once, so the
    /// timeout of the walk is never reached.
    pub fn latest_entry(&self, address: &Address, max_hops: usize) -> (latest: Fetched)
        ensures
            fetched_view(latest) == latest_entry(self.entries(), address@, max_hops as nat),
    {
        let mut step = begin_latest_entry(address.clone(), Timeout(0), max_hops);
        loop
            invariant
                match step@ {
                    WalkStepView::Done(result) => result == latest_entry(
                        self.entries(),
                        address@,
                        max_hops as nat,
                    ),
                    WalkStepView::Fetch {
                        address: target,
                        timeout: _,
                        next: WalkState::LastHop,
                    } => answered(
                        record_at(self.entries(), target),
                    ) == latest_entry(self.entries(), address@, max_hops as nat),
                    WalkStepView::Fetch {
                        address: target,
                        timeout: _,
                        next: WalkState::Following { hops_left },
                    } => latest_entry(self.entries(), target, hops_left as nat) == latest_entry(
                        self.entries(),
                        address@,
                        max_hops as nat,
                    ),
                },
            decreases fetches_left(step@),
        {
            match step {
                WalkStep::Done(result) => {
                    return result;
                },
                WalkStep::Fetch { address: target, timeout, next } => {
                    let fetched = self.fetch(&target);
                    proof {
                        lemma_walk_comes_to_an_end(target@, timeout, next, fetched_view(fetched));
                    }
                    step = get_latest_entry(next, timeout, fetched);
                },
            }
        }
    }

    /// Whether the index holds `link`.
    pub fn has_link(&self, link: &LinkData) -> (held: bool)
        ensures
            held == self.links().contains(link@),
            held == self.link_list().contains(link@),
    {
        let mut i: usize = 0;
        while i < self.links.len()
            invariant
                i <= self.links.len(),
                forall|k: int| 0 <= k < i ==> seq_view(self.links@)[k] != link@,
            decreases self.links.len() - i,
        {
            if same_link(&self.links[i], link) {
                assert(seq_view(self.links@)[i as int] == link@);
                return true;
            }
            i += 1;
        }
        false
    }

    /// Adds `link` to the index, behind the links that it holds. A link that
    /// the index holds already is not held twice, and stays where it is.
    pub fn add_link(&mut self, link: LinkData)
        ensures
            final(self).link_list() == added_to_list(old(self).link_list(), link@),
            final(self).links() == old(self).links().insert(link@),
            final(self).entries() == old(self).entries(),
    {
        if !self.has_link(&link) {
            let ghost before = seq_view(self.links@);
            self.links.push(link);
            proof {
                assert(seq_view(self.links@) =~= before.push(link@));
                before.lemma_push_to_set_commute(link@);
            }
        } else {
            assert(self.links() =~= old(self).links().insert(link@));
        }
    }

    /// Removes `link` from the index, if it holds it. The other links keep
    /// their order.
    pub fn remove_link(&mut self, link: &LinkData)
        ensures
            final(self).link_list() == removed_from_list(old(self).link_list(), link@),
            final(self).links() == old(self).links().remove(link@),
            final(self).entries() == old(self).entries(),
    {
        let ghost list = seq_view(self.links@);
        let ghost others = |other: LinkDataView| other != link@;
        let mut kept: Vec<LinkData> = Vec::new();
        let mut i: usize = 0;
        proof {
            reveal(Seq::filter);
            assert(list.take(0).filter(others) =~= Seq::<LinkDataView>::empty());
        }
        while i < self.links.len()
            invariant
                i <= self.links.len(),
                list == seq_view(self.links@),
                others == |other: LinkDataView| other != link@,
                seq_view(kept@) == list.take(i as int).filter(others),
            decreases self.links.len() - i,
        {
            let ghost before = seq_view(kept@);
            proof {
                reveal(Seq::filter);
                assert(list.take(i + 1).drop_last() =~= list.take(i as int));
                assert(list.take(i + 1).last() == self.links@[i as int]@);
            }
            if !same_link(&self.links[i], link) {
                kept.push(self.links[i].clone());
                assert(seq_view(kept@) =~= before.push(self.links@[i as int]@));
            }
            i += 1;
        }
        proof {
            assert(list.take(self.links.len() as int) =~= list);
            let filtered = list.filter(others);
            assert forall|l: LinkDataView| filtered.to_set().contains(l) == list.to_set().remove(
                link@,
            ).contains(l) by {
                if filtered.contains(l) {
                    list.lemma_filter_contains_rev(others, l);
                    let k = choose|k: int| 0 <= k < filtered.len() && filtered[k] == l;
                    list.lemma_filter_pred(others, k);
                }
                if list.contains(l) && l != link@ {
                    let j = choose|j: int| 0 <= j < list.len() && list[j] == l;
                    list.lemma_filter_contains(others, j);
                }
            }
            assert(filtered.to_set() =~= list.to_set().remove(link@));
        }
        self.links = kept;
    }

    /// The links from `base` whose type and tag pass the filters: each
    /// target and tag once, in the order in which the first link with that
    /// target and tag was added. An index that holds no such link answers
    /// with an empty list. The lookup fails only for a filter that cannot be
    /// applied.
    pub fn get_links(&self, base: &Address, link_type: &LinkMatch, tag: &LinkMatch) -> (found:
        Result<Vec<LinkCandidate>, HolochainError>)
        ensures
            match found {
                Ok(candidates) => {
                    &&& link_type@.is_valid()
                    &&& tag@.is_valid()
                    &&& seq_view(candidates@) == candidates_of(
                        self.link_list(),
                        base@,
                        link_type@,
                        tag@,
                    )
                    &&& answers_query(self.links(), base@, link_type@, tag@, seq_view(candidates@))
                },
                Err(error) => {
                    &&& !(link_type@.is_valid() && tag@.is_valid())
                    &&& error@ == invalid_filter()
                },
            },
    {
        if !link_type.is_valid() || !tag.is_valid() {
            return Err(HolochainError::generic("Invalid regular expression in link filter"));
        }
        let ghost list = seq_view(self.links@);
        let mut candidates: Vec<LinkCandidate> = Vec::new();
        let mut i: usize = 0;
        assert(seq_view(candidates@) =~= candidates_of(list.take(0), base@, link_type@, tag@));
        while i < self.links.len()
            invariant
                i <= self.links.len(),
                list == seq_view(self.links@),
                link_type@.is_valid(),
                tag@.is_valid(),
                seq_view(candidates@) == candidates_of(
                    list.take(i as int),
                    base@,
                    link_type@,
                    tag@,
                ),
            decreases self.links.len() - i,
        {
            let link = &self.links[i];
            let ghost before = seq_view(candidates@);
            proof {
                assert(list.take(i + 1).drop_last() =~= list.take(i as int));
                assert(list.take(i + 1).last() == link@);
            }
            let type_passes = match link_type.admits(&link.link_type) {
                Some(passes) => passes,
                None => false,
            };
            let tag_passes = match tag.admits(&link.tag) {
                Some(passes) => passes,
                None => false,
            };
            if same_address(&link.base, base) && type_passes && tag_passes {
                let mut known = false;
                let mut k: usize = 0;
                while k < candidates.len()
                    invariant
                        k <= candidates.len(),
                        before == seq_view(candidates@),
                        known ==> before.contains(candidate_of(link@)),
                        !known ==> forall|m: int| 0 <= m < k ==> before[m] != candidate_of(link@),
                    decreases candidates.len() - k,
                {
                    if same_address(&candidates[k].target, &link.target) && candidates[k].tag
                        == link.tag {
                        known = true;
                        assert(before[k as int] == candidate_of(link@));
                    }
                    k += 1;
                }
                if !known {
                    candidates.push(
                        LinkCandidate { target: link.target.clone(), tag: link.tag.clone() },
                    );
                    assert(seq_view(candidates@) =~= before.push(candidate_of(link@)));
                }
            }
            i += 1;
        }
        proof {
            assert(list.take(self.links.len() as int) =~= list);
            lemma_candidates_answer_the_query(list, base@, link_type@, tag@);
        }
        Ok(candidates)
    }

    /// Persists a store action. Holding an entry and an action on the links
    /// always succeed; an update or removal fails, and changes nothing,
    /// where the entry to supersede is not held.
    pub fn apply(&mut self, action: &StoreAction) -> (outcome: Result<(), HolochainError>)
        ensures
            match applied_to_entries(old(self).entries(), action@) {
                Ok(entries) => {
                    &&& outcome is Ok
                    &&& final(self).entries() == entries
                    &&& final(self).links() == applied_to_links(old(self).links(), action@)
                    &&& final(self).link_list() == applied_to_list(old(self).link_list(), action@)
                },
                Err(error) => {
                    &&& outcome_view(outcome) == Err::<(), HolochainErrorView>(error)
                    &&& final(self).entries() == old(self).entries()
                    &&& final(self).links() == old(self).links()
                    &&& final(self).link_list() == old(self).link_list()
                },
            },
    {
        match action {
            StoreAction::HoldEntry(held) => {
                let address = held.entry.address();
                let record = match self.fetch(&address) {
                    Ok(Some(earlier)) => {
                        let mut headers = earlier.headers;
                        let ghost before = headers@;
                        headers.push(held.header.clone());
                        assert(seq_view(headers@) =~= seq_view(before).push(held.header@));
                        EntryWithMetaAndHeader { entry_with_meta: earlier.entry_with_meta, headers }
                    },
                    _ => {
                        let mut headers: Vec<ChainHeader> = Vec::new();
                        headers.push(held.header.clone());
                        assert(seq_view(headers@) =~= seq![held.header@]);
                        EntryWithMetaAndHeader {
                            entry_with_meta: EntryWithMeta {
                                entry: held.entry.clone(),
                                crud_status: CrudStatus::Live,
                                maybe_link_update_delete: None,
                            },
                            headers,
                        }
                    },
                };
                self.put(address, record);
                Ok(())
            },
            StoreAction::AddLink(link) => {
                self.add_link(link.clone());
                Ok(())
            },
            StoreAction::RemoveLink(link, _) => {
                self.remove_link(link);
                Ok(())
            },
            StoreAction::UpdateEntry { old, new } => {
                if self.supersede(old, CrudStatus::Modified, new) {
                    Ok(())
                } else {
                    Err(HolochainError::generic("Could not find the entry in the store"))
                }
            },
            StoreAction::RemoveEntry { deleted, deletion } => {
                if self.supersede(deleted, CrudStatus::Deleted, deletion) {
                    Ok(())
                } else {
                    Err(HolochainError::generic("Could not find the entry in the store"))
                }
            },
        }
    }

    /// Answers a link query against this store: looks up the candidates,
    /// resolves the current entry of each target by a walk of up to
    /// `max_hops` hops, and assembles the answer, in the order of the
    /// candidates. A failed lookup fails the query with the error of the
    /// lookup.
    pub fn get_links_result(&self, link_args: &GetLinksArgs, max_hops: usize) -> (result: Result<
        GetLinksResult,
        HolochainError,
    >)
        ensures
            link_args@.link_type.is_valid() && link_args@.tag.is_valid() ==> query_result_view(
                result,
            ) == link_query_result(
                link_args.options,
                resolve_candidates(
                    self.entries(),
                    candidates_of(
                        self.link_list(),
                        link_args@.entry_address,
                        link_args@.link_type,
                        link_args@.tag,
                    ),
                    max_hops as nat,
                ),
            ),
            !(link_args@.link_type.is_valid() && link_args@.tag.is_valid()) ==> query_result_view(
                result,
            ) == Err::<Seq<LinksResultView>, HolochainErrorView>(invalid_filter()),
    {
        let candidates = match self.get_links(
            &link_args.entry_address,
            &link_args.link_type,
            &link_args.tag,
        ) {
            Ok(candidates) => candidates,
            Err(error) => {
                return Err(error);
            },
        };
        let mut resolved: Vec<Resolved> = Vec::new();
        let mut i: usize = 0;
        while i < candidates.len()
            invariant
                i <= candidates.len(),
                resolved.len() == i,
                forall|k: int|
                    0 <= k < i ==> (#[trigger] resolved@[k]).0@ == candidates@[k]@ && fetched_view(
                        resolved@[k].1,
                    ) == latest_entry(self.entries(), candidates@[k].target@, max_hops as nat),
            decreases candidates.len() - i,
        {
            let latest = self.latest_entry(&candidates[i].target, max_hops);
            resolved.push((candidates[i].clone(), latest));
            i += 1;
        }
        assert(resolved_views(resolved@) =~= resolve_candidates(
            self.entries(),
            seq_view(candidates@),
            max_hops as nat,
        ));
        get_link_result_workflow(link_args, &resolved)
    }
}

/// The candidates of a query over a list of links answer the query over
/// the links of that list: each candidate once, and nothing else.
pub proof fn lemma_candidates_answer_the_query(
    links: Seq<LinkDataView>,
    base: Seq<char>,
    link_type: LinkMatchView,
    tag: LinkMatchView,
)
    ensures
        answers_query(
            links.to_set(),
            base,
            link_type,
            tag,
            candidates_of(links, base, link_type, tag),
        ),
    decreases links.len(),
{
    let found = candidates_of(links, base, link_type, tag);
    if links.len() == 0 {
        assert forall|candidate: LinkCandidateView| #[trigger]
            found.contains(candidate) <==> is_candidate(
                links.to_set(),
                base,
                link_type,
                tag,
                candidate,
            ) by {
            if is_candidate(links.to_set(), base, link_type, tag, candidate) {
                let link = choose|link: LinkDataView|
                    links.to_set().contains(link) && link_matches(link, base, link_type, tag)
                        && #[trigger] candidate_of(link) == candidate;
                assert(links.contains(link));
            }
        }
    } else {
        let earlier_links = links.drop_last();
        let earlier = candidates_of(earlier_links, base, link_type, tag);
        let last = links.last();
        let added = link_matches(last, base, link_type, tag) && !earlier.contains(
            candidate_of(last),
        );
        lemma_candidates_answer_the_query(earlier_links, base, link_type, tag);
        assert forall|link: LinkDataView| links.contains(link) <==> earlier_links.contains(link)
            || link == last by {
            if links.contains(link) {
                let i = choose|i: int| 0 <= i < links.len() && links[i] == link;
                if i < links.len() - 1 {
                    assert(earlier_links[i] == link);
                }
            }
            if earlier_links.contains(link) {
                let i = choose|i: int| 0 <= i < earlier_links.len() && earlier_links[i] == link;
                assert(links[i] == link);
            }
            if link == last {
                assert(links[links.len() - 1] == link);
            }
        }
        assert forall|candidate: LinkCandidateView| found.contains(candidate) <==> earlier.contains(
            candidate,
        ) || (added && candidate == candidate_of(last)) by {
            if found.contains(candidate) {
                let i = choose|i: int| 0 <= i < found.len() && found[i] == candidate;
                if i < earlier.len() {
                    assert(earlier[i] == candidate);
                }
            }
            if earlier.contains(candidate) {
                let i = choose|i: int| 0 <= i < earlier.len() && earlier[i] == candidate;
                assert(found[i] == candidate);
            }
            if added && candidate == candidate_of(last) {
                assert(found[found.len() - 1] == candidate);
            }
        }
        assert(found.no_duplicates()) by {
            assert forall|i: int, j: int|
                0 <= i < found.len() && 0 <= j < found.len() && i != j implies found[i]
                != found[j] by {
                if i < earlier.len() && j < earlier.len() {
                    assert(earlier[i] != earlier[j]);
                } else if i < earlier.len() {
                    assert(earlier.contains(earlier[i]));
                } else if j < earlier.len() {
                    assert(earlier.contains(earlier[j]));
                }
            }
        }
        assert forall|candidate: LinkCandidateView| #[trigger]
            found.contains(candidate) <==> is_candidate(
                links.to_set(),
                base,
                link_type,
                tag,
                candidate,
            ) by {
            if found.contains(candidate) {
                if earlier.contains(candidate) {
                    assert(is_candidate(earlier_links.to_set(), base, link_type, tag, candidate));
                    let link = choose|link: LinkDataView|
                        earlier_links.to_set().contains(link) && link_matches(
                            link,
                            base,
                            link_type,
                            tag,
                        ) && #[trigger] candidate_of(link) == candidate;
                    assert(links.to_set().contains(link));
                    assert(candidate_of(link) == candidate);
                } else {
                    assert(links.to_set().contains(last));
                    assert(candidate_of(last) == candidate);
                }
            }
            if is_candidate(links.to_set(), base, link_type, tag, candidate) {
                let link = choose|link: LinkDataView|
                    links.to_set().contains(link) && link_matches(link, base, link_type, tag)
                        && #[trigger] candidate_of(link) == candidate;
                if earlier_links.contains(link) {
                    assert(earlier_links.to_set().contains(link));
                    assert(candidate_of(link) == candidate);
                    assert(is_candidate(earlier_links.to_set(), base, link_type, tag, candidate));
                    assert(earlier.contains(candidate));
                }
            }
        }
    }
}

/// A link that is added behind the others and brings a target and tag that
/// no link before it had is listed last, behind all candidates that were
/// listed before; any other added link leaves the list of candidates as it
/// was.
pub proof fn lemma_candidates_come_in_the_order_added(
    links: Seq<LinkDataView>,
    link: LinkDataView,
    base: Seq<char>,
    link_type: LinkMatchView,
    tag: LinkMatchView,
)
    requires
        !links.contains(link),
    ensures
        candidates_of(added_to_list(links, link), base, link_type, tag) == if link_matches(
            link,
            base,
            link_type,
            tag,
        ) && !candidates_of(links, base, link_type, tag).contains(candidate_of(link)) {
            candidates_of(links, base, link_type, tag).push(candidate_of(link))
        } else {
            candidates_of(links, base, link_type, tag)
        },
{
    assert(links.push(link).drop_last() =~= links);
}

/// Two links that are added one after the other to an empty index, that
/// both match a query and differ in target or tag, are listed in the order
/// in which they were added.
pub proof fn lemma_two_links_are_listed_in_the_order_added(
    first: LinkDataView,
    second: LinkDataView,
    base: Seq<char>,
    link_type: LinkMatchView,
    tag: LinkMatchView,
)
    requires
        link_matches(first, base, link_type, tag),
        link_matches(second, base, link_type, tag),
        candidate_of(first) != candidate_of(second),
    ensures
        added_to_list(added_to_list(Seq::empty(), first), second) == seq![first, second],
        candidates_of(seq![first, second], base, link_type, tag) == seq![
            candidate_of(first),
            candidate_of(second),
        ],
{
    let none = Seq::<LinkDataView>::empty();
    let one = seq![first];
    let two = seq![first, second];
    assert(none.push(first) =~= one);
    assert(one.push(second) =~= two);
    assert(!one.contains(second)) by {
        if one.contains(second) {
            let i = choose|i: int| 0 <= i < one.len() && one[i] == second;
            assert(one[i] == first);
        }
    }
    assert(candidates_of(none, base, link_type, tag) =~= Seq::<LinkCandidateView>::empty());
    lemma_candidates_come_in_the_order_added(none, first, base, link_type, tag);
    let listed = candidates_of(one, base, link_type, tag);
    assert(listed =~= seq![candidate_of(first)]);
    assert(!listed.contains(candidate_of(second))) by {
        if listed.contains(candidate_of(second)) {
            let i = choose|i: int| 0 <= i < listed.len() && listed[i] == candidate_of(second);
            assert(listed[i] == candidate_of(first));
        }
    }
    lemma_candidates_come_in_the_order_added(one, second, base, link_type, tag);
    assert(listed.push(candidate_of(second)) =~= seq![candidate_of(first), candidate_of(second)]);
}

/// Whether `candidate` is listed at exactly one place of `candidates`.
pub open spec fn listed_once(candidates: Seq<LinkCandidateView>, candidate: LinkCandidateView) -> bool {
    exists|k: int|
        0 <= k < candidates.len() && #[trigger] candidates[k] == candidate && forall|m: int|
            0 <= m < candidates.len() && #[trigger] candidates[m] == candidate ==> m == k
}

/// However often a link is added, the index holds it once, and a query that
/// it matches lists its target and tag exactly once.
pub proof fn lemma_link_added_twice_is_listed_once(
    links: Set<LinkDataView>,
    link: LinkDataView,
    base: Seq<char>,
    link_type: LinkMatchView,
    tag: LinkMatchView,
    candidates: Seq<LinkCandidateView>,
)
    requires
        link_matches(link, base, link_type, tag),
        answers_query(links.insert(link).insert(link), base, link_type, tag, candidates),
    ensures
        links.insert(link).insert(link) == links.insert(link),
        listed_once(candidates, candidate_of(link)),
{
    let wanted = candidate_of(link);
    assert(candidates.contains(wanted));
}

/// Two links that differ in their tag are never merged, though they share
/// base and target: a query for any tag lists both.
pub proof fn lemma_links_with_different_tags_are_both_listed(
    links: Set<LinkDataView>,
    first: LinkDataView,
    second: LinkDataView,
    link_type: LinkMatchView,
    candidates: Seq<LinkCandidateView>,
)
    requires
        links.contains(first),
        links.contains(second),
        first.base == second.base,
        first.target == second.target,
        first.tag != second.tag,
        link_type.admits(first.link_type),
        link_type.admits(second.link_type),
        answers_query(links, first.base, link_type, LinkMatchView::Any, candidates),
    ensures
        candidates.contains(candidate_of(first)),
        candidates.contains(candidate_of(second)),
        candidate_of(first) != candidate_of(second),
{
}

/// A query lists only what matches it exactly: every candidate is the
/// target and tag of a link from the base whose type and tag pass the
/// filters, so under an exact tag filter every candidate has that tag. Where
/// no link matches, as for a type or tag that no link has, the list is
/// empty.
pub proof fn lemma_query_lists_exact_matches_only(
    links: Set<LinkDataView>,
    base: Seq<char>,
    link_type: LinkMatchView,
    tag: LinkMatchView,
    candidates: Seq<LinkCandidateView>,
)
    requires
        answers_query(links, base, link_type, tag, candidates),
    ensures
        forall|k: int|
            0 <= k < candidates.len() ==> is_candidate(
                links,
                base,
                link_type,
                tag,
                #[trigger] candidates[k],
            ),
        forall|k: int|
            0 <= k < candidates.len() ==> tag.admits((#[trigger] candidates[k]).tag),
        tag matches LinkMatchView::Exactly(wanted) ==> forall|k: int|
            0 <= k < candidates.len() ==> (#[trigger] candidates[k]).tag == wanted,
        (forall|link: LinkDataView|
            links.contains(link) ==> !#[trigger] link_matches(link, base, link_type, tag))
            ==> candidates.len() == 0,
{
    assert forall|k: int| 0 <= k < candidates.len() implies is_candidate(
        links,
        base,
        link_type,
        tag,
        #[trigger] candidates[k],
    ) && tag.admits(candidates[k].tag) by {
        assert(candidates.contains(candidates[k]));
        let link = choose|link: LinkDataView|
            links.contains(link) && link_matches(link, base, link_type, tag)
                && #[trigger] candidate_of(link) == candidates[k];
        assert(link.tag == candidates[k].tag);
    }
    if forall|link: LinkDataView|
        links.contains(link) ==> !#[trigger] link_matches(link, base, link_type, tag) {
        if candidates.len() > 0 {
            let link = choose|link: LinkDataView|
                links.contains(link) && link_matches(link, base, link_type, tag)
                    && #[trigger] candidate_of(link) == candidates[0];
        }
    }
}

/// Whether exactly one of `answers` answers for `candidate`.
pub open spec fn answered_once(answers: Seq<LinksResultView>, candidate: LinkCandidateView) -> bool {
    exists|k: int|
        0 <= k < answers.len() && answers_for(#[trigger] answers[k], candidate) && forall|m: int|
            0 <= m < answers.len() && answers_for(#[trigger] answers[m], candidate) ==> m == k
}

/// Resolving candidates keeps them as they are and in their order, so that
/// no candidate is resolved twice where none is listed twice.
proof fn lemma_candidates_are_resolved_one_by_one(
    entries: Map<Seq<char>, EntryWithMetaAndHeaderView>,
    candidates: Seq<LinkCandidateView>,
    max_hops: nat,
)
    requires
        candidates.no_duplicates(),
    ensures
        one_entry_per_candidate(resolve_candidates(entries, candidates, max_hops)),
        resolve_candidates(entries, candidates, max_hops).len() == candidates.len(),
        forall|i: int|
            0 <= i < candidates.len() ==> (#[trigger] resolve_candidates(
                entries,
                candidates,
                max_hops,
            )[i]).0 == candidates[i],
{
}

/// However often a link is added, a query for links of every status that
/// it matches, and that succeeds, answers for its target and tag exactly
/// once.
pub proof fn lemma_link_added_twice_is_answered_once(
    links: Set<LinkDataView>,
    link: LinkDataView,
    base: Seq<char>,
    link_type: LinkMatchView,
    tag: LinkMatchView,
    candidates: Seq<LinkCandidateView>,
    entries: Map<Seq<char>, EntryWithMetaAndHeaderView>,
    options: GetLinksOptions,
    max_hops: nat,
)
    requires
        link_matches(link, base, link_type, tag),
        answers_query(links.insert(link).insert(link), base, link_type, tag, candidates),
        options.status_request == LinksStatusRequestKind::All,
        link_query_result(options, resolve_candidates(entries, candidates, max_hops)) is Ok,
    ensures
        answered_once(
            query_answers(options, resolve_candidates(entries, candidates, max_hops)),
            candidate_of(link),
        ),
{
    let resolved = resolve_candidates(entries, candidates, max_hops);
    let answers = query_answers(options, resolved);
    let wanted = candidate_of(link);
    lemma_link_added_twice_is_listed_once(links, link, base, link_type, tag, candidates);
    lemma_candidates_are_resolved_one_by_one(entries, candidates, max_hops);
    lemma_one_answer_for_each_link(options, resolved);
    let k = choose|k: int|
        0 <= k < candidates.len() && #[trigger] candidates[k] == wanted && forall|m: int|
            0 <= m < candidates.len() && #[trigger] candidates[m] == wanted ==> m == k;
    assert(answers_for(answers[k], resolved[k].0));
}

/// Two links that differ in their tag only are both answered for by a
/// query for any tag and every status that succeeds.
pub proof fn lemma_links_with_different_tags_are_both_answered(
    links: Set<LinkDataView>,
    first: LinkDataView,
    second: LinkDataView,
    link_type: LinkMatchView,
    candidates: Seq<LinkCandidateView>,
    entries: Map<Seq<char>, EntryWithMetaAndHeaderView>,
    options: GetLinksOptions,
    max_hops: nat,
)
    requires
        links.contains(first),
        links.contains(second),
        first.base == second.base,
        first.target == second.target,
        first.tag != second.tag,
        link_type.admits(first.link_type),
        link_type.admits(second.link_type),
        answers_query(links, first.base, link_type, LinkMatchView::Any, candidates),
        options.status_request == LinksStatusRequestKind::All,
        link_query_result(options, resolve_candidates(entries, candidates, max_hops)) is Ok,
    ensures
        is_answered(
            query_answers(options, resolve_candidates(entries, candidates, max_hops)),
            candidate_of(first),
        ),
        is_answered(
            query_answers(options, resolve_candidates(entries, candidates, max_hops)),
            candidate_of(second),
        ),
        candidate_of(first) != candidate_of(second),
{
    let resolved = resolve_candidates(entries, candidates, max_hops);
    let answers = query_answers(options, resolved);
    lemma_links_with_different_tags_are_both_listed(links, first, second, link_type, candidates);
    lemma_candidates_are_resolved_one_by_one(entries, candidates, max_hops);
    lemma_one_answer_for_each_link(options, resolved);
    let a = choose|a: int| 0 <= a < candidates.len() && candidates[a] == candidate_of(first);
    let b = choose|b: int| 0 <= b < candidates.len() && candidates[b] == candidate_of(second);
    assert(answers_for(answers[a], resolved[a].0));
    assert(answers_for(answers[b], resolved[b].0));
}

/// A query with exact filters for a type or a tag that no link from the
/// base has is not an error: its filters can be applied, it has no
/// candidates, and it succeeds with no links.
pub proof fn lemma_unknown_filter_value_gives_no_links(
    links: Set<LinkDataView>,
    base: Seq<char>,
    link_type: LinkMatchView,
    tag: LinkMatchView,
    candidates: Seq<LinkCandidateView>,
    entries: Map<Seq<char>, EntryWithMetaAndHeaderView>,
    options: GetLinksOptions,
    max_hops: nat,
)
    requires
        !(link_type is Regex),
        !(tag is Regex),
        forall|link: LinkDataView|
            links.contains(link) ==> !#[trigger] link_matches(link, base, link_type, tag),
        answers_query(links, base, link_type, tag, candidates),
    ensures
        link_type.is_valid(),
        tag.is_valid(),
        candidates.len() == 0,
        link_query_result(options, resolve_candidates(entries, candidates, max_hops)) == Ok::<
            Seq<LinksResultView>,
            HolochainErrorView,
        >(Seq::empty()),
{
    lemma_query_lists_exact_matches_only(links, base, link_type, tag, candidates);
    lemma_no_candidates_no_links(options, resolve_candidates(entries, candidates, max_hops));
}

/// What two store actions, one after the other, do to the records of a
/// store, if both succeed.
pub open spec fn applied_twice(
    entries: Map<Seq<char>, EntryWithMetaAndHeaderView>,
    first: StoreActionView,
    second: StoreActionView,
) -> Map<Seq<char>, EntryWithMetaAndHeaderView> {
    applied_to_entries(applied_to_entries(entries, first)->Ok_0, second)->Ok_0
}

/// Once it is recorded that one entry was replaced by a second and the
/// second by a third, and the third is current, the three form a chain of
/// updates: resolving any of them gives the record of the third, unchanged.
pub proof fn lemma_recorded_updates_lead_to_the_last(
    entries: Map<Seq<char>, EntryWithMetaAndHeaderView>,
    first: Seq<char>,
    second: Seq<char>,
    third: Seq<char>,
    max_hops: nat,
)
    requires
        entries.contains_key(first),
        entries.contains_key(second),
        entries.contains_key(third),
        first != second,
        second != third,
        first != third,
        is_current(entries[third]),
        max_hops >= 2,
    ensures
        is_update_chain(
            applied_twice(
                entries,
                StoreActionView::UpdateEntry { old: first, new: second },
                StoreActionView::UpdateEntry { old: second, new: third },
            ),
            seq![first, second, third],
        ),
        forall|start: Seq<char>|
            start == first || start == second || start == third ==> #[trigger] latest_entry(
                applied_twice(
                    entries,
                    StoreActionView::UpdateEntry { old: first, new: second },
                    StoreActionView::UpdateEntry { old: second, new: third },
                ),
                start,
                max_hops,
            ) == answered(Some(entries[third])),
{
    let after = applied_twice(
        entries,
        StoreActionView::UpdateEntry { old: first, new: second },
        StoreActionView::UpdateEntry { old: second, new: third },
    );
    let chain = seq![first, second, third];
    lemma_walk_reaches_end_of_chain(after, chain, 0, max_hops);
    lemma_walk_reaches_end_of_chain(after, chain, 1, max_hops);
    lemma_walk_reaches_end_of_chain(after, chain, 2, max_hops);
}

} // verus!
