//! The link query engine: what are the links from an entry, and what is the
//! current state of the entry each one points at.
//!
//! The engine reads the store through its caller. The caller looks up the
//! candidate links and fetches records; this module decides what is to be
//! fetched next and what the answers add up to.

use crate::address::Address;
use crate::entry::{
    clone_headers, clone_optional_address, ChainHeader, ChainHeaderView, CrudStatus,
    EntryWithMetaAndHeader, EntryWithMetaAndHeaderView,
};
use crate::error::{HolochainError, HolochainErrorView};
use crate::pattern::{regex_finds, regex_is_match, regex_is_valid};
use crate::views::{opt_view, seq_view};
use vstd::prelude::*;

verus! {

/// What a fetch of one record from the store came to: the record, nothing
/// at that address, or a failure.
pub type Fetched = Result<Option<EntryWithMetaAndHeader>, HolochainError>;

/// Mathematical model of a [`Fetched`].
pub type FetchedView = Result<Option<EntryWithMetaAndHeaderView>, HolochainErrorView>;

/// The view of the outcome of a fetch.
pub open spec fn fetched_view(fetched: Fetched) -> FetchedView {
    match fetched {
        Ok(Some(record)) => Ok(Some(record@)),
        Ok(None) => Ok(None),
        Err(error) => Err(error@),
    }
}

/// How long a fetch may take, in milliseconds.
#[derive(Clone, Copy, Debug, PartialEq, Eq, Structural)]
pub struct Timeout(pub u64);

impl Default for Timeout {
    fn default() -> (timeout: Self)
        ensures
            timeout == Timeout(60000),
    {
        Timeout(60000)
    }
}

/// The number of recorded successors that a walk follows where its caller
/// has no reason to choose another.
pub const DEFAULT_MAX_HOPS: usize = 64;

/// Where a walk along an update/delete chain stands.
#[derive(Clone, Copy, Debug, PartialEq, Eq, Structural)]
pub enum WalkState {
    /// The record fetched next is examined for a successor; `hops_left`
    /// more recorded successors may be followed.
    Following { hops_left: usize },
    /// The record fetched next is the answer, whatever it holds.
    LastHop,
}

/// What a walk along an update/delete chain needs next.
#[derive(Debug, PartialEq, Eq)]
pub enum WalkStep {
    /// Fetch the record at `address`, waiting no longer than `timeout`, and
    /// hand it back in state `next`.
    Fetch { address: Address, timeout: Timeout, next: WalkState },
    /// The walk is over, with this result.
    Done(Fetched),
}

/// Mathematical model of a [`WalkStep`].
pub enum WalkStepView {
    Fetch { address: Seq<char>, timeout: Timeout, next: WalkState },
    Done(FetchedView),
}

impl View for WalkStep {
    type V = WalkStepView;

    open spec fn view(&self) -> WalkStepView {
        match self {
            WalkStep::Fetch { address, timeout, next } => WalkStepView::Fetch {
                address: address@,
                timeout: *timeout,
                next: *next,
            },
            WalkStep::Done(result) => WalkStepView::Done(fetched_view(*result)),
        }
    }
}

/// The entry that the first header of a record points at, if the record
/// has a header and that header points at one.
pub open spec fn header_pointer(record: EntryWithMetaAndHeaderView) -> Option<Seq<char>> {
    if record.headers.len() > 0 {
        record.headers[0].link_update_delete
    } else {
        None
    }
}

/// The error for a chain with more recorded successors than the walk may
/// follow.
pub open spec fn chain_too_long() -> HolochainErrorView {
    HolochainErrorView::ErrorGeneric("link update chain exceeds the hop limit"@)
}

/// The first step of a walk from `address` that may follow up to `max_hops`
/// recorded successors.
pub open spec fn first_walk_step(address: Seq<char>, timeout: Timeout, max_hops: usize)
    -> WalkStepView {
    WalkStepView::Fetch { address, timeout, next: WalkState::Following { hops_left: max_hops } }
}

/// What a walk in state `state` does with the outcome of the fetch it asked
/// for.
///
/// While following: a failed fetch fails the walk; an address that holds
/// nothing ends it with nothing; a record that names its successor sends the
/// walk there, as long as hops are left; a record whose first header points
/// at another entry sends the walk there for one last hop; any other record,
/// with or without headers, is current, and is the answer. On the last hop
/// the walk ends with whatever was fetched. Every fetch of a walk is given
/// the same timeout.
pub open spec fn latest_entry_step(state: WalkState, timeout: Timeout, fetched: FetchedView)
    -> WalkStepView {
    match state {
        WalkState::LastHop => WalkStepView::Done(fetched),
        WalkState::Following { hops_left } => match fetched {
            Err(error) => WalkStepView::Done(Err(error)),
            Ok(None) => WalkStepView::Done(Ok(None)),
            Ok(Some(record)) => match record.entry_with_meta.maybe_link_update_delete {
                Some(successor) => if hops_left == 0 {
                    WalkStepView::Done(Err(chain_too_long()))
                } else {
                    WalkStepView::Fetch {
                        address: successor,
                        timeout,
                        next: WalkState::Following { hops_left: (hops_left - 1) as usize },
                    }
                },
                None => match header_pointer(record) {
                    Some(link) => WalkStepView::Fetch {
                        address: link,
                        timeout,
                        next: WalkState::LastHop,
                    },
                    None => WalkStepView::Done(Ok(Some(record))),
                },
            },
        },
    }
}

/// The record that a store holds at `address`, if any.
pub open spec fn record_at(
    entries: Map<Seq<char>, EntryWithMetaAndHeaderView>,
    address: Seq<char>,
) -> Option<EntryWithMetaAndHeaderView> {
    if entries.contains_key(address) {
        Some(entries[address])
    } else {
        None
    }
}

/// The outcome of a fetch that did not fail.
pub open spec fn answered(record: Option<EntryWithMetaAndHeaderView>) -> FetchedView {
    Ok(record)
}

/// Whether a record is current: it names no successor, and it has no first
/// header that points at another entry.
pub open spec fn is_current(record: EntryWithMetaAndHeaderView) -> bool {
    &&& record.entry_with_meta.maybe_link_update_delete is None
    &&& header_pointer(record) is None
}

/// The current entry for `address` in a store that holds `entries` and
/// whose fetches do not fail, for a walk that may follow up to `hops_left`
/// recorded successors: where the walk of [`latest_entry_step`] ends when
/// every fetch is answered from `entries`.
pub open spec fn latest_entry(
    entries: Map<Seq<char>, EntryWithMetaAndHeaderView>,
    address: Seq<char>,
    hops_left: nat,
) -> FetchedView
    decreases hops_left,
{
    match record_at(entries, address) {
        None => Ok(None),
        Some(record) => match record.entry_with_meta.maybe_link_update_delete {
            Some(successor) => if hops_left == 0 {
                Err(chain_too_long())
            } else {
                latest_entry(entries, successor, (hops_left - 1) as nat)
            },
            None => match header_pointer(record) {
                Some(link) => answered(record_at(entries, link)),
                None => Ok(Some(record)),
            },
        },
    }
}

/// An upper bound on the fetches that a walk at `step` still asks for.
pub open spec fn fetches_left(step: WalkStepView) -> nat {
    match step {
        WalkStepView::Done(_) => 0,
        WalkStepView::Fetch { address, timeout, next: WalkState::LastHop } => 1,
        WalkStepView::Fetch { address, timeout, next: WalkState::Following { hops_left } } => (
        hops_left + 2) as nat,
    }
}

/// Every answer brings a walk closer to its end, whatever was fetched: a
/// walk that starts with `max_hops` asks for at most `max_hops + 2` fetches,
/// also on a chain of updates that runs in a circle.
pub proof fn lemma_walk_comes_to_an_end(
    address: Seq<char>,
    timeout: Timeout,
    next: WalkState,
    fetched: FetchedView,
)
    ensures
        fetches_left(latest_entry_step(next, timeout, fetched)) < fetches_left(
            WalkStepView::Fetch { address, timeout, next },
        ),
        latest_entry_step(next, timeout, fetched) matches WalkStepView::Fetch {
            timeout: passed_on,
            ..
        } ==> passed_on == timeout,
{
}

/// Where a walk ends that is at `step` and has every fetch answered from
/// `entries`, if it ends within `fuel` fetches.
pub open spec fn walk_from(
    entries: Map<Seq<char>, EntryWithMetaAndHeaderView>,
    step: WalkStepView,
    fuel: nat,
) -> Option<FetchedView>
    decreases fuel,
{
    match step {
        WalkStepView::Done(result) => Some(result),
        WalkStepView::Fetch { address, timeout, next } => if fuel == 0 {
            None
        } else {
            walk_from(
                entries,
                latest_entry_step(next, timeout, answered(record_at(entries, address))),
                (fuel - 1) as nat,
            )
        },
    }
}

/// Whether `chain` is a chain of updates in `entries`: every address in it
/// holds a record, each record but the last names the next address as its
/// successor, and the last record is current.
pub open spec fn is_update_chain(
    entries: Map<Seq<char>, EntryWithMetaAndHeaderView>,
    chain: Seq<Seq<char>>,
) -> bool {
    &&& chain.len() > 0
    &&& forall|i: int| 0 <= i < chain.len() ==> entries.contains_key(#[trigger] chain[i])
    &&& forall|i: int|
        0 <= i < chain.len() - 1 ==> entries[#[trigger] chain[i]].entry_with_meta.maybe_link_update_delete
            == Some(chain[i + 1])
    &&& is_current(entries[chain.last()])
}

/// A caller that starts a walk with [`begin_latest_entry`], answers every
/// fetch from `entries` and continues with [`get_latest_entry`] is done
/// after at most `max_hops + 2` fetches, and ends where [`latest_entry`]
/// says.
pub proof fn lemma_walk_ends_at_latest_entry(
    entries: Map<Seq<char>, EntryWithMetaAndHeaderView>,
    address: Seq<char>,
    timeout: Timeout,
    max_hops: usize,
)
    ensures
        walk_from(entries, first_walk_step(address, timeout, max_hops), (max_hops + 2) as nat)
            == Some(latest_entry(entries, address, max_hops as nat)),
    decreases max_hops,
{
    let fetched = answered(record_at(entries, address));
    let state = WalkState::Following { hops_left: max_hops };
    let step = latest_entry_step(state, timeout, fetched);
    match step {
        WalkStepView::Done(result) => {},
        WalkStepView::Fetch { address: target, timeout: _, next } => {
            match next {
                WalkState::LastHop => {
                    let last = latest_entry_step(
                        next,
                        timeout,
                        answered(record_at(entries, target)),
                    );
                    assert(walk_from(entries, step, (max_hops + 1) as nat) == walk_from(
                        entries,
                        last,
                        max_hops as nat,
                    ));
                },
                WalkState::Following { hops_left } => {
                    lemma_walk_ends_at_latest_entry(entries, target, timeout, hops_left);
                },
            }
        },
    }
}

/// Resolving any address of a chain of updates gives the record at the end
/// of the chain, with that record's own status, provided the walk may follow
/// as many successors as lie between the address and the end. No record of
/// the chain that has a successor is ever the answer.
pub proof fn lemma_walk_reaches_end_of_chain(
    entries: Map<Seq<char>, EntryWithMetaAndHeaderView>,
    chain: Seq<Seq<char>>,
    i: int,
    hops: nat,
)
    requires
        is_update_chain(entries, chain),
        0 <= i < chain.len(),
        hops >= chain.len() - 1 - i,
    ensures
        latest_entry(entries, chain[i], hops) == answered(Some(entries[chain.last()])),
        forall|j: int|
            0 <= j < chain.len() - 1 ==> latest_entry(entries, chain[i], hops) != answered(
                Some(entries[#[trigger] chain[j]]),
            ),
    decreases chain.len() - i,
{
    if i < chain.len() - 1 {
        lemma_walk_reaches_end_of_chain(entries, chain, i + 1, (hops - 1) as nat);
    }
}

/// Starts the resolution of the current entry for `address`: asks for the
/// record at that address.
pub fn begin_latest_entry(address: Address, timeout: Timeout, max_hops: usize) -> (step: WalkStep)
    ensures
        step@ == first_walk_step(address@, timeout, max_hops),
{
    WalkStep::Fetch { address, timeout, next: WalkState::Following { hops_left: max_hops } }
}

/// Continues the resolution of the current entry: given the state of the
/// walk and the outcome of the fetch it asked for, says what to fetch next,
/// or how the walk ends.
pub fn get_latest_entry(state: WalkState, timeout: Timeout, fetched: Fetched) -> (step: WalkStep)
    ensures
        step@ == latest_entry_step(state, timeout, fetched_view(fetched)),
{
    match state {
        WalkState::LastHop => WalkStep::Done(fetched),
        WalkState::Following { hops_left } => match fetched {
            Err(error) => WalkStep::Done(Err(error)),
            Ok(None) => WalkStep::Done(Ok(None)),
            Ok(Some(record)) => {
                match clone_optional_address(&record.entry_with_meta.maybe_link_update_delete) {
                    Some(successor) => {
                        if hops_left == 0 {
                            WalkStep::Done(
                                Err(
                                    HolochainError::generic(
                                        "link update chain exceeds the hop limit",
                                    ),
                                ),
                            )
                        } else {
                            WalkStep::Fetch {
                                address: successor,
                                timeout,
                                next: WalkState::Following { hops_left: hops_left - 1 },
                            }
                        }
                    },
                    None => {
                        let pointer = if record.headers.len() > 0 {
                            record.headers[0].link_update_delete()
                        } else {
                            None
                        };
                        match pointer {
                            Some(link) => WalkStep::Fetch {
                                address: link,
                                timeout,
                                next: WalkState::LastHop,
                            },
                            None => WalkStep::Done(Ok(Some(record))),
                        }
                    },
                }
            },
        },
    }
}

/// Which links a query asks for, by the status of what they point at.
#[derive(Clone, Copy, Debug, PartialEq, Eq, Structural)]
pub enum LinksStatusRequestKind {
    Live,
    Deleted,
    All,
}

impl Default for LinksStatusRequestKind {
    fn default() -> (kind: Self)
        ensures
            kind == LinksStatusRequestKind::Live,
    {
        LinksStatusRequestKind::Live
    }
}

/// Whether a query that asks for `request` wants a link whose target has
/// the given status.
pub open spec fn status_selected(request: LinksStatusRequestKind, status: CrudStatus) -> bool {
    match request {
        LinksStatusRequestKind::All => true,
        LinksStatusRequestKind::Deleted => status == CrudStatus::Deleted,
        LinksStatusRequestKind::Live => status == CrudStatus::Live,
    }
}

/// The options of a link query.
#[derive(Clone, Copy, Debug, PartialEq, Eq, Structural)]
pub struct GetLinksOptions {
    /// The timeout of every fetch that the query makes.
    pub timeout: Timeout,
    /// Which links to return, by the status of their target.
    pub status_request: LinksStatusRequestKind,
    /// Whether to return the headers of each target.
    pub headers: bool,
}

impl Default for GetLinksOptions {
    fn default() -> (options: Self)
        ensures
            options == (GetLinksOptions {
                timeout: Timeout(60000),
                status_request: LinksStatusRequestKind::Live,
                headers: false,
            }),
    {
        GetLinksOptions {
            timeout: Timeout(60000),
            status_request: LinksStatusRequestKind::Live,
            headers: false,
        }
    }
}

/// A filter on the type or on the tag of a link.
#[derive(Debug, PartialEq, Eq)]
pub enum LinkMatch {
    /// Every text passes.
    Any,
    /// Only this text passes.
    Exactly(String),
    /// The texts pass in which this regular expression matches somewhere.
    Regex(String),
}

/// Mathematical model of a [`LinkMatch`].
pub enum LinkMatchView {
    Any,
    Exactly(Seq<char>),
    Regex(Seq<char>),
}

impl View for LinkMatch {
    type V = LinkMatchView;

    open spec fn view(&self) -> LinkMatchView {
        match self {
            LinkMatch::Any => LinkMatchView::Any,
            LinkMatch::Exactly(text) => LinkMatchView::Exactly(text@),
            LinkMatch::Regex(pattern) => LinkMatchView::Regex(pattern@),
        }
    }
}

impl Clone for LinkMatch {
    fn clone(&self) -> (copy: Self)
        ensures
            copy@ == self@,
    {
        match self {
            LinkMatch::Any => LinkMatch::Any,
            LinkMatch::Exactly(text) => LinkMatch::Exactly(text.clone()),
            LinkMatch::Regex(pattern) => LinkMatch::Regex(pattern.clone()),
        }
    }
}

impl LinkMatchView {
    /// Whether the filter can be applied: a regular expression must
    /// compile.
    pub open spec fn is_valid(self) -> bool {
        match self {
            LinkMatchView::Regex(pattern) => regex_is_valid(pattern),
            _ => true,
        }
    }

    /// Whether `text` passes the filter.
    pub open spec fn admits(self, text: Seq<char>) -> bool {
        match self {
            LinkMatchView::Any => true,
            LinkMatchView::Exactly(wanted) => text == wanted,
            LinkMatchView::Regex(pattern) => regex_finds(pattern, text),
        }
    }
}

/// What applying a filter to a text comes to, given what the search for
/// the filter's regular expression in the text came to, if the filter is
/// one: whether the text passes, or `None` for a filter that cannot be
/// applied.
pub open spec fn filter_outcome(filter: LinkMatchView, text: Seq<char>, search: Option<bool>)
    -> Option<bool> {
    match filter {
        LinkMatchView::Any => Some(true),
        LinkMatchView::Exactly(wanted) => Some(text == wanted),
        LinkMatchView::Regex(_) => search,
    }
}

impl LinkMatch {
    /// Applies the filter to `text`, given the outcome of the search for the
    /// filter's regular expression in it, which is read only for a filter
    /// that is a regular expression.
    pub fn admits_given(&self, text: &String, search: Option<bool>) -> (passes: Option<bool>)
        ensures
            passes == filter_outcome(self@, text@, search),
    {
        match self {
            LinkMatch::Any => Some(true),
            LinkMatch::Exactly(wanted) => Some(*text == *wanted),
            LinkMatch::Regex(_) => search,
        }
    }

    /// Whether `text` passes the filter; `None` for a filter that cannot be
    /// applied, because its regular expression does not compile.
    pub fn admits(&self, text: &String) -> (passes: Option<bool>)
        ensures
            match passes {
                Some(admitted) => self@.is_valid() && admitted == self@.admits(text@),
                None => !self@.is_valid(),
            },
    {
        let search = match self {
            LinkMatch::Regex(pattern) => regex_is_match(pattern.as_str(), text.as_str()),
            _ => None,
        };
        self.admits_given(text, search)
    }

    /// Whether the filter can be applied.
    pub fn is_valid(&self) -> (valid: bool)
        ensures
            valid == self@.is_valid(),
    {
        match self {
            LinkMatch::Regex(pattern) => regex_is_match(pattern.as_str(), "").is_some(),
            _ => true,
        }
    }
}

/// A link query: the links from `entry_address` whose type and tag pass
/// the filters.
#[derive(Debug, PartialEq, Eq)]
pub struct GetLinksArgs {
    pub entry_address: Address,
    pub link_type: LinkMatch,
    pub tag: LinkMatch,
    pub options: GetLinksOptions,
}

/// Mathematical model of a [`GetLinksArgs`].
pub struct GetLinksArgsView {
    pub entry_address: Seq<char>,
    pub link_type: LinkMatchView,
    pub tag: LinkMatchView,
    pub options: GetLinksOptions,
}

impl View for GetLinksArgs {
    type V = GetLinksArgsView;

    open spec fn view(&self) -> GetLinksArgsView {
        GetLinksArgsView {
            entry_address: self.entry_address@,
            link_type: self.link_type@,
            tag: self.tag@,
            options: self.options,
        }
    }
}

/// A link that the index found for a query: where it points, and its tag.
#[derive(Debug, PartialEq, Eq)]
pub struct LinkCandidate {
    pub target: Address,
    pub tag: String,
}

/// Mathematical model of a [`LinkCandidate`].
pub struct LinkCandidateView {
    pub target: Seq<char>,
    pub tag: Seq<char>,
}

impl View for LinkCandidate {
    type V = LinkCandidateView;

    open spec fn view(&self) -> LinkCandidateView {
        LinkCandidateView { target: self.target@, tag: self.tag@ }
    }
}

impl Clone for LinkCandidate {
    fn clone(&self) -> (copy: Self)
        ensures
            copy@ == self@,
    {
        LinkCandidate { target: self.target.clone(), tag: self.tag.clone() }
    }
}

/// The resolved answer for one link.
#[derive(Debug, PartialEq, Eq)]
pub struct LinksResult {
    /// The address that the link points at.
    pub address: Address,
    /// The headers of the current entry, where the query asked for them.
    pub headers: Vec<ChainHeader>,
    /// The tag of the link.
    pub tag: String,
    /// The status of the current entry.
    pub status: CrudStatus,
    /// What superseded the current entry, if it records that.
    pub crud_link: Option<Address>,
}

/// Mathematical model of a [`LinksResult`].
pub struct LinksResultView {
    pub address: Seq<char>,
    pub headers: Seq<ChainHeaderView>,
    pub tag: Seq<char>,
    pub status: CrudStatus,
    pub crud_link: Option<Seq<char>>,
}

impl View for LinksResult {
    type V = LinksResultView;

    open spec fn view(&self) -> LinksResultView {
        LinksResultView {
            address: self.address@,
            headers: seq_view(self.headers@),
            tag: self.tag@,
            status: self.status,
            crud_link: opt_view(self.crud_link),
        }
    }
}

/// The answer to a link query.
#[derive(Debug, PartialEq, Eq)]
pub struct GetLinksResult {
    links: Vec<LinksResult>,
}

impl View for GetLinksResult {
    type V = Seq<LinksResultView>;

    closed spec fn view(&self) -> Seq<LinksResultView> {
        seq_view(self.links@)
    }
}

impl GetLinksResult {
    /// An answer with these links.
    pub fn new(links: Vec<LinksResult>) -> (result: GetLinksResult)
        ensures
            result@ == seq_view(links@),
    {
        GetLinksResult { links }
    }

    /// The links of the answer, in their order.
    pub fn links(&self) -> (links: &Vec<LinksResult>)
        ensures
            seq_view(links@) == self@,
    {
        &self.links
    }

    /// The addresses that the links point at, in the order of the links.
    pub fn addresses(&self) -> (addresses: Vec<Address>)
        ensures
            seq_view(addresses@) == self@.map_values(|link: LinksResultView| link.address),
    {
        let mut addresses: Vec<Address> = Vec::new();
        let mut i: usize = 0;
        while i < self.links.len()
            invariant
                i <= self.links.len(),
                addresses.len() == i,
                forall|k: int| 0 <= k < i ==> addresses@[k]@ == self.links@[k].address@,
            decreases self.links.len() - i,
        {
            addresses.push(self.links[i].address.clone());
            i += 1;
        }
        addresses
    }
}

/// The error of a candidate whose current entry could not be resolved.
pub open spec fn no_crud_information() -> HolochainErrorView {
    HolochainErrorView::ErrorGeneric("Could not crud information for link"@)
}

/// The error of a query of which some candidate could not be resolved.
pub open spec fn could_not_get_links() -> HolochainErrorView {
    HolochainErrorView::ErrorGeneric("Could not get links"@)
}

/// The answer for a candidate whose current entry is `record`.
pub open spec fn links_result_of(
    candidate: LinkCandidateView,
    record: EntryWithMetaAndHeaderView,
    headers: bool,
) -> LinksResultView {
    LinksResultView {
        address: candidate.target,
        headers: if headers {
            record.headers
        } else {
            Seq::empty()
        },
        tag: candidate.tag,
        status: record.entry_with_meta.crud_status,
        crud_link: record.entry_with_meta.maybe_link_update_delete,
    }
}

/// The answer for a candidate, given how the resolution of its current
/// entry ended: resolution that failed or found nothing is an error.
pub open spec fn link_result(candidate: LinkCandidateView, latest: FetchedView, headers: bool)
    -> Result<LinksResultView, HolochainErrorView> {
    match latest {
        Ok(Some(record)) => Ok(links_result_of(candidate, record, headers)),
        _ => Err(no_crud_information()),
    }
}

/// The view of the answer for one candidate.
pub open spec fn link_result_view(result: Result<LinksResult, HolochainError>) -> Result<
    LinksResultView,
    HolochainErrorView,
> {
    match result {
        Ok(link) => Ok(link@),
        Err(error) => Err(error@),
    }
}

/// Makes the answer for one candidate from the outcome of resolving its
/// current entry.
pub fn links_result(candidate: &LinkCandidate, latest: &Fetched, headers: bool) -> (result: Result<
    LinksResult,
    HolochainError,
>)
    ensures
        link_result_view(result) == link_result(candidate@, fetched_view(*latest), headers),
{
    match latest {
        Ok(Some(record)) => {
            let kept = if headers {
                clone_headers(&record.headers)
            } else {
                Vec::new()
            };
            assert(!headers ==> seq_view(kept@) =~= Seq::<ChainHeaderView>::empty());
            Ok(
                LinksResult {
                    address: candidate.target.clone(),
                    headers: kept,
                    tag: candidate.tag.clone(),
                    status: record.entry_with_meta.crud_status,
                    crud_link: clone_optional_address(
                        &record.entry_with_meta.maybe_link_update_delete,
                    ),
                },
            )
        },
        _ => Err(HolochainError::generic("Could not crud information for link")),
    }
}

/// A candidate with the outcome of resolving its current entry.
pub type Resolved = (LinkCandidate, Fetched);

/// Mathematical model of a [`Resolved`].
pub type ResolvedView = (LinkCandidateView, FetchedView);

/// The views of resolved candidates, in order.
pub open spec fn resolved_views(resolved: Seq<Resolved>) -> Seq<ResolvedView> {
    Seq::new(resolved.len(), |i: int| (resolved[i].0@, fetched_view(resolved[i].1)))
}

/// Whether the resolution of a candidate found its current entry.
pub open spec fn is_resolved(resolved: ResolvedView) -> bool {
    resolved.1 matches Ok(Some(_))
}

/// The answer to a query, from its candidates and the outcome of resolving
/// each: if any candidate is unresolved the query fails as a whole; else the
/// answer holds, in the order of the candidates, the result of each
/// candidate whose status the query asks for.
pub open spec fn link_query_result(
    options: GetLinksOptions,
    resolved: Seq<ResolvedView>,
) -> Result<Seq<LinksResultView>, HolochainErrorView> {
    if forall|i: int| 0 <= i < resolved.len() ==> is_resolved(#[trigger] resolved[i]) {
        Ok(
            resolved.map_values(
                |r: ResolvedView| links_result_of(r.0, r.1->Ok_0->Some_0, options.headers),
            ).filter(|link: LinksResultView| status_selected(options.status_request, link.status)),
        )
    } else {
        Err(could_not_get_links())
    }
}

/// The links that a query answers with, where it succeeds.
pub open spec fn query_answers(options: GetLinksOptions, resolved: Seq<ResolvedView>) -> Seq<
    LinksResultView,
> {
    link_query_result(options, resolved)->Ok_0
}

/// The view of the answer to a query.
pub open spec fn query_result_view(result: Result<GetLinksResult, HolochainError>) -> Result<
    Seq<LinksResultView>,
    HolochainErrorView,
> {
    match result {
        Ok(links) => Ok(links@),
        Err(error) => Err(error@),
    }
}

/// Whether a query that asks for `request` wants a link whose target has
/// the given status.
pub fn wants_status(request: LinksStatusRequestKind, status: CrudStatus) -> (wanted: bool)
    ensures
        wanted == status_selected(request, status),
{
    match request {
        LinksStatusRequestKind::All => true,
        LinksStatusRequestKind::Deleted => status == CrudStatus::Deleted,
        LinksStatusRequestKind::Live => status == CrudStatus::Live,
    }
}

/// Answers a link query from its candidates and the outcome of resolving
/// the current entry of each.
pub fn get_link_result_workflow(link_args: &GetLinksArgs, resolved: &Vec<Resolved>) -> (result:
    Result<GetLinksResult, HolochainError>)
    ensures
        query_result_view(result) == link_query_result(
            link_args.options,
            resolved_views(resolved@),
        ),
{
    let ghost views = resolved_views(resolved@);
    let ghost made = |r: ResolvedView|
        links_result_of(r.0, r.1->Ok_0->Some_0, link_args.options.headers);
    let ghost wanted = |link: LinksResultView|
        status_selected(link_args.options.status_request, link.status);
    let mut links: Vec<LinksResult> = Vec::new();
    let mut i: usize = 0;
    while i < resolved.len()
        invariant
            i <= resolved.len(),
            views == resolved_views(resolved@),
            made == |r: ResolvedView|
                links_result_of(r.0, r.1->Ok_0->Some_0, link_args.options.headers),
            wanted == |link: LinksResultView|
                status_selected(link_args.options.status_request, link.status),
            forall|k: int| 0 <= k < i ==> is_resolved(#[trigger] views[k]),
            seq_view(links@) == views.map_values(made).take(i as int).filter(wanted),
        decreases resolved.len() - i,
    {
        let result = links_result(&resolved[i].0, &resolved[i].1, link_args.options.headers);
        match result {
            Ok(link) => {
                proof {
                    let mapped = views.map_values(made);
                    assert(is_resolved(views[i as int]));
                    assert(mapped.take(i + 1).drop_last() =~= mapped.take(i as int));
                    reveal(Seq::filter);
                }
                if wants_status(link_args.options.status_request, link.status) {
                    links.push(link);
                }
            },
            Err(_) => {
                return Err(HolochainError::generic("Could not get links"));
            },
        }
        i += 1;
    }
    proof {
        let mapped = views.map_values(made);
        assert(mapped.take(resolved.len() as int) =~= mapped);
    }
    Ok(GetLinksResult::new(links))
}

/// Whether two answers are for the same link: same target, same tag.
pub open spec fn same_link_answered(a: LinksResultView, b: LinksResultView) -> bool {
    a.address == b.address && a.tag == b.tag
}

/// Whether no two of the answers are for the same link.
pub open spec fn one_answer_per_link(answers: Seq<LinksResultView>) -> bool {
    forall|i: int, j: int|
        0 <= i < j < answers.len() ==> !same_link_answered(
            #[trigger] answers[i],
            #[trigger] answers[j],
        )
}

/// Whether no two of the resolved candidates are the same candidate.
pub open spec fn one_entry_per_candidate(resolved: Seq<ResolvedView>) -> bool {
    forall|i: int, j: int|
        0 <= i < j < resolved.len() ==> (#[trigger] resolved[i]).0 != (#[trigger] resolved[j]).0
}

/// Whether `answer` answers for `candidate`.
pub open spec fn answers_for(answer: LinksResultView, candidate: LinkCandidateView) -> bool {
    answer.address == candidate.target && answer.tag == candidate.tag
}

/// Whether one of `answers` answers for `candidate`.
pub open spec fn is_answered(answers: Seq<LinksResultView>, candidate: LinkCandidateView) -> bool {
    exists|k: int| 0 <= k < answers.len() && answers_for(#[trigger] answers[k], candidate)
}

/// Whether `answer` answers for one of the resolved candidates.
pub open spec fn is_for_a_candidate(answer: LinksResultView, resolved: Seq<ResolvedView>) -> bool {
    exists|i: int| 0 <= i < resolved.len() && answers_for(answer, (#[trigger] resolved[i]).0)
}

/// Whether `answer` is one of the first `n` of `answers`.
pub open spec fn among_first(answers: Seq<LinksResultView>, n: int, answer: LinksResultView) -> bool {
    exists|i: int| 0 <= i < n && 0 <= i < answers.len() && #[trigger] answers[i] == answer
}

/// Selecting among answers keeps them apart: no two of the selected are for
/// the same link where no two of all were, each selected answer was among
/// all, each wanted answer is selected, and where all are wanted all are
/// selected.
proof fn lemma_selection_keeps_one_answer_per_link(
    answers: Seq<LinksResultView>,
    wanted: spec_fn(LinksResultView) -> bool,
)
    requires
        one_answer_per_link(answers),
    ensures
        one_answer_per_link(answers.filter(wanted)),
        forall|k: int|
            0 <= k < answers.filter(wanted).len() ==> wanted(#[trigger] answers.filter(wanted)[k])
                && among_first(answers, answers.len() as int, answers.filter(wanted)[k]),
        forall|i: int|
            0 <= i < answers.len() && wanted(#[trigger] answers[i]) ==> among_first(
                answers.filter(wanted),
                answers.filter(wanted).len() as int,
                answers[i],
            ),
        (forall|i: int| 0 <= i < answers.len() ==> wanted(#[trigger] answers[i]))
            ==> answers.filter(wanted) == answers,
    decreases answers.len(),
{
    reveal(Seq::filter);
    let kept = answers.filter(wanted);
    if answers.len() > 0 {
        let earlier = answers.drop_last();
        let kept_earlier = earlier.filter(wanted);
        lemma_selection_keeps_one_answer_per_link(earlier, wanted);
        assert forall|i: int| 0 <= i < answers.len() && wanted(#[trigger] answers[i]) implies among_first(
            kept,
            kept.len() as int,
            answers[i],
        ) by {
            if i < earlier.len() {
                assert(earlier[i] == answers[i]);
                let k = choose|k: int|
                    0 <= k < kept_earlier.len()
                        && #[trigger] kept_earlier[k] == earlier[i];
                assert(kept[k] == answers[i]);
            } else {
                assert(kept[kept.len() - 1] == answers[i]);
            }
        }
    }
}

/// A query that succeeds answers once for a link and never twice: given
/// candidates of which no two are the same, no two answers are for the same
/// link, and every answer is for one of the candidates. A query for every
/// status answers for each candidate, in the order of the candidates.
pub proof fn lemma_one_answer_for_each_link(options: GetLinksOptions, resolved: Seq<ResolvedView>)
    requires
        one_entry_per_candidate(resolved),
        link_query_result(options, resolved) is Ok,
    ensures
        one_answer_per_link(query_answers(options, resolved)),
        forall|k: int|
            0 <= k < query_answers(options, resolved).len() ==> is_for_a_candidate(
                #[trigger] query_answers(options, resolved)[k],
                resolved,
            ),
        options.status_request == LinksStatusRequestKind::All ==> {
            &&& query_answers(options, resolved).len() == resolved.len()
            &&& forall|i: int|
                0 <= i < resolved.len() ==> answers_for(
                    #[trigger] query_answers(options, resolved)[i],
                    resolved[i].0,
                )
        },
{
    let made = |r: ResolvedView| links_result_of(r.0, r.1->Ok_0->Some_0, options.headers);
    let wanted = |link: LinksResultView| status_selected(options.status_request, link.status);
    let all = resolved.map_values(made);
    lemma_selection_keeps_one_answer_per_link(all, wanted);
}

/// A query answers only with links whose current entry has a status that
/// the query asks for: deleted ones for `Deleted`, live ones for `Live`.
/// And it leaves out no candidate whose current entry has such a status.
pub proof fn lemma_answers_have_the_status_asked_for(
    options: GetLinksOptions,
    resolved: Seq<ResolvedView>,
)
    requires
        link_query_result(options, resolved) is Ok,
    ensures
        forall|k: int|
            0 <= k < query_answers(options, resolved).len() ==> status_selected(
                options.status_request,
                (#[trigger] query_answers(options, resolved)[k]).status,
            ),
        options.status_request == LinksStatusRequestKind::Deleted ==> forall|k: int|
            0 <= k < query_answers(options, resolved).len() ==> (#[trigger] query_answers(
                options,
                resolved,
            )[k]).status == CrudStatus::Deleted,
        options.status_request == LinksStatusRequestKind::Live ==> forall|k: int|
            0 <= k < query_answers(options, resolved).len() ==> (#[trigger] query_answers(
                options,
                resolved,
            )[k]).status == CrudStatus::Live,
        forall|i: int|
            0 <= i < resolved.len() && status_selected(
                options.status_request,
                (#[trigger] resolved[i]).1->Ok_0->Some_0.entry_with_meta.crud_status,
            ) ==> is_answered(query_answers(options, resolved), resolved[i].0),
{
    let made = |r: ResolvedView| links_result_of(r.0, r.1->Ok_0->Some_0, options.headers);
    let wanted = |link: LinksResultView| status_selected(options.status_request, link.status);
    let all = resolved.map_values(made);
    let answers = query_answers(options, resolved);
    assert forall|i: int|
        0 <= i < resolved.len() && status_selected(
            options.status_request,
            (#[trigger] resolved[i]).1->Ok_0->Some_0.entry_with_meta.crud_status,
        ) implies is_answered(answers, resolved[i].0) by {
        assert(wanted(all[i]));
        all.lemma_filter_contains(wanted, i);
        let k = choose|k: int| 0 <= k < answers.len() && answers[k] == all[i];
        assert(answers_for(answers[k], resolved[i].0));
    }
}

/// A query without candidates succeeds, with no links.
pub proof fn lemma_no_candidates_no_links(options: GetLinksOptions, resolved: Seq<ResolvedView>)
    requires
        resolved.len() == 0,
    ensures
        link_query_result(options, resolved) == Ok::<Seq<LinksResultView>, HolochainErrorView>(
            Seq::empty(),
        ),
{
    reveal(Seq::filter);
    let made = |r: ResolvedView| links_result_of(r.0, r.1->Ok_0->Some_0, options.headers);
    let wanted = |link: LinksResultView| status_selected(options.status_request, link.status);
    assert(resolved.map_values(made).filter(wanted) =~= Seq::<LinksResultView>::empty());
}

/// A query fails as a whole as soon as the current entry of one candidate
/// could not be resolved, whatever became of the others.
pub proof fn lemma_one_unresolved_candidate_fails_the_query(
    options: GetLinksOptions,
    resolved: Seq<ResolvedView>,
    i: int,
)
    requires
        0 <= i < resolved.len(),
        !is_resolved(resolved[i]),
    ensures
        link_query_result(options, resolved) == Err::<Seq<LinksResultView>, HolochainErrorView>(
            could_not_get_links(),
        ),
{
}

} // verus!
