//! The dispatcher for aspects that the network asks this node to hold.
//!
//! The dispatcher checks an aspect's structure and names the hold workflow
//! that is to validate and persist it. It launches nothing itself: whoever
//! calls it runs the workflow, and logs what was turned away.

use crate::address::same_address;
use crate::aspect::{EntryAspect, EntryAspectView};
use crate::content::entry_address;
use crate::entry::{DeletionEntry, Entry, EntryView, EntryWithHeader, EntryWithHeaderView};
use crate::error::{HolochainError, HolochainErrorView};
use crate::views::{opt_view, seq_view};
use vstd::prelude::*;

verus! {

/// The workflows that hold an aspect, one for each kind that can be held.
#[derive(Clone, Copy, Debug, PartialEq, Eq, Structural)]
pub enum HoldWorkflow {
    /// Holds the content of an entry.
    HoldEntry,
    /// Holds the addition of a link.
    HoldLink,
    /// Holds the removal of a link.
    RemoveLink,
    /// Holds the replacement of an entry.
    HoldUpdate,
    /// Holds the deletion of an entry.
    HoldRemove,
}

/// Why an aspect was turned away without a workflow being launched.
#[derive(Clone, Copy, Debug, PartialEq, Eq, Structural)]
pub enum StoreRejection {
    /// The payload could not be decoded as an aspect.
    UnparseableAspect,
    /// The aspect is a bare header, which no workflow holds.
    UnimplementedHeaderAspect,
    /// The address of the link addition that the aspect's link data implies
    /// is not the entry address that its header records.
    LinkAddAddressMismatch,
    /// The header of a deletion aspect does not say what is deleted.
    DeletionWithoutLink,
    /// The queue of workflows to launch is full.
    QueueFull,
}

/// The error that stands for a rejection: "not implemented" for an aspect
/// of a kind that no workflow holds, else a generic error that says what
/// was wrong.
pub open spec fn rejection_error(rejection: StoreRejection) -> HolochainErrorView {
    match rejection {
        StoreRejection::UnparseableAspect => HolochainErrorView::ErrorGeneric(
            "Unable to parse entry aspect"@,
        ),
        StoreRejection::UnimplementedHeaderAspect => HolochainErrorView::NotImplemented(
            "unimplemented store aspect Header"@,
        ),
        StoreRejection::LinkAddAddressMismatch => HolochainErrorView::ErrorGeneric(
            "Got EntryAspect::LinkAdd with non-matching LinkData and ChainHeader! Hash of content in header does not match content! Ignoring."@,
        ),
        StoreRejection::DeletionWithoutLink => HolochainErrorView::ErrorGeneric(
            "Got EntryAspect::Deletion with header that has no deletion link! Ignoring."@,
        ),
        StoreRejection::QueueFull => HolochainErrorView::ErrorGeneric(
            "Too many aspects are waiting to be held. Ignoring."@,
        ),
    }
}

impl StoreRejection {
    /// The error that stands for the rejection.
    pub fn to_error(self) -> (error: HolochainError)
        ensures
            error@ == rejection_error(self),
    {
        match self {
            StoreRejection::UnparseableAspect => HolochainError::generic(
                "Unable to parse entry aspect",
            ),
            StoreRejection::UnimplementedHeaderAspect => HolochainError::NotImplemented(
                "unimplemented store aspect Header".to_owned(),
            ),
            StoreRejection::LinkAddAddressMismatch => HolochainError::generic(
                "Got EntryAspect::LinkAdd with non-matching LinkData and ChainHeader! Hash of content in header does not match content! Ignoring.",
            ),
            StoreRejection::DeletionWithoutLink => HolochainError::generic(
                "Got EntryAspect::Deletion with header that has no deletion link! Ignoring.",
            ),
            StoreRejection::QueueFull => HolochainError::generic(
                "Too many aspects are waiting to be held. Ignoring.",
            ),
        }
    }
}

/// A hold workflow to launch, with the entry and header it is to work on.
#[derive(Debug, PartialEq, Eq)]
pub struct HoldRequest {
    pub workflow: HoldWorkflow,
    pub entry_with_header: EntryWithHeader,
}

/// Mathematical model of a [`HoldRequest`].
pub struct HoldRequestView {
    pub workflow: HoldWorkflow,
    pub entry_with_header: EntryWithHeaderView,
}

impl View for HoldRequest {
    type V = HoldRequestView;

    open spec fn view(&self) -> HoldRequestView {
        HoldRequestView { workflow: self.workflow, entry_with_header: self.entry_with_header@ }
    }
}

/// The view of a dispatcher's answer.
pub open spec fn decision_view(decision: Result<HoldRequest, StoreRejection>) -> Result<
    HoldRequestView,
    StoreRejection,
> {
    match decision {
        Ok(request) => Ok(request@),
        Err(rejection) => Err(rejection),
    }
}

/// What the dispatcher does with a decoded aspect, or with a payload that
/// could not be decoded (`None`).
pub open spec fn store_decision(decoded: Option<EntryAspectView>) -> Result<
    HoldRequestView,
    StoreRejection,
> {
    match decoded {
        None => Err(StoreRejection::UnparseableAspect),
        Some(EntryAspectView::Content(entry, header)) => Ok(
            HoldRequestView {
                workflow: HoldWorkflow::HoldEntry,
                entry_with_header: EntryWithHeaderView { entry, header },
            },
        ),
        Some(EntryAspectView::Header(_)) => Err(StoreRejection::UnimplementedHeaderAspect),
        Some(EntryAspectView::LinkAdd(link, header)) => {
            let entry = EntryView::LinkAdd(link);
            if entry_address(entry) == header.entry_address {
                Ok(
                    HoldRequestView {
                        workflow: HoldWorkflow::HoldLink,
                        entry_with_header: EntryWithHeaderView { entry, header },
                    },
                )
            } else {
                Err(StoreRejection::LinkAddAddressMismatch)
            }
        },
        Some(EntryAspectView::LinkRemove(link, removed, header)) => Ok(
            HoldRequestView {
                workflow: HoldWorkflow::RemoveLink,
                entry_with_header: EntryWithHeaderView {
                    entry: EntryView::LinkRemove(link, removed),
                    header,
                },
            },
        ),
        Some(EntryAspectView::Update(entry, header)) => Ok(
            HoldRequestView {
                workflow: HoldWorkflow::HoldUpdate,
                entry_with_header: EntryWithHeaderView { entry, header },
            },
        ),
        Some(EntryAspectView::Deletion(header)) => match header.link_update_delete {
            None => Err(StoreRejection::DeletionWithoutLink),
            Some(deleted) => Ok(
                HoldRequestView {
                    workflow: HoldWorkflow::HoldRemove,
                    entry_with_header: EntryWithHeaderView {
                        entry: EntryView::Deletion(deleted),
                        header,
                    },
                },
            ),
        },
    }
}

/// The network asks this node to hold the given aspect: decides which hold
/// workflow is to be launched on which entry and header, or why the aspect
/// is turned away. `None` stands for a payload that could not be decoded.
pub fn handle_store(decoded: Option<EntryAspect>) -> (decision: Result<HoldRequest, StoreRejection>)
    ensures
        decision_view(decision) == store_decision(opt_view(decoded)),
{
    match decoded {
        None => Err(StoreRejection::UnparseableAspect),
        Some(EntryAspect::Content(entry, header)) => Ok(
            HoldRequest {
                workflow: HoldWorkflow::HoldEntry,
                entry_with_header: EntryWithHeader { entry, header },
            },
        ),
        Some(EntryAspect::Header(_)) => Err(StoreRejection::UnimplementedHeaderAspect),
        Some(EntryAspect::LinkAdd(link_data, header)) => {
            let entry = Entry::LinkAdd(link_data);
            if !same_address(&entry.address(), header.entry_address()) {
                return Err(StoreRejection::LinkAddAddressMismatch);
            }
            Ok(
                HoldRequest {
                    workflow: HoldWorkflow::HoldLink,
                    entry_with_header: EntryWithHeader { entry, header },
                },
            )
        },
        Some(EntryAspect::LinkRemove((link_data, links_to_remove), header)) => {
            let entry = Entry::LinkRemove((link_data, links_to_remove));
            Ok(
                HoldRequest {
                    workflow: HoldWorkflow::RemoveLink,
                    entry_with_header: EntryWithHeader { entry, header },
                },
            )
        },
        Some(EntryAspect::Update(entry, header)) => Ok(
            HoldRequest {
                workflow: HoldWorkflow::HoldUpdate,
                entry_with_header: EntryWithHeader { entry, header },
            },
        ),
        Some(EntryAspect::Deletion(header)) => {
            let deleted_entry_address = match header.link_update_delete() {
                None => {
                    return Err(StoreRejection::DeletionWithoutLink);
                },
                Some(address) => address,
            };
            let entry = Entry::Deletion(DeletionEntry::new(deleted_entry_address));
            Ok(
                HoldRequest {
                    workflow: HoldWorkflow::HoldRemove,
                    entry_with_header: EntryWithHeader { entry, header },
                },
            )
        },
    }
}

/// A link addition is held only if the address of the entry that its link
/// data implies is the entry address that its header records: a link
/// addition whose header does not account for its content reaches no
/// workflow.
pub proof fn lemma_link_add_needs_matching_address(decoded: Option<EntryAspectView>)
    requires
        decoded matches Some(EntryAspectView::LinkAdd(link, header)) && entry_address(
            EntryView::LinkAdd(link),
        ) != header.entry_address,
    ensures
        store_decision(decoded) == Err::<HoldRequestView, StoreRejection>(
            StoreRejection::LinkAddAddressMismatch,
        ),
{
}

/// Whatever aspect arrives, a request to hold a link carries a link addition
/// whose address is the one its header records, and a request to hold a
/// deletion carries the marker for the address its header points at.
pub proof fn lemma_hold_requests_are_accounted_for(decoded: Option<EntryAspectView>)
    ensures
        store_decision(decoded) matches Ok(request) ==> {
            &&& decoded matches Some(aspect) && request.entry_with_header.header == aspect.header()
            &&& request.workflow == HoldWorkflow::HoldLink ==> {
                &&& request.entry_with_header.entry is LinkAdd
                &&& entry_address(request.entry_with_header.entry)
                    == request.entry_with_header.header.entry_address
            }
            &&& request.workflow == HoldWorkflow::HoldRemove ==> {
                &&& request.entry_with_header.entry matches EntryView::Deletion(deleted)
                &&& request.entry_with_header.header.link_update_delete == Some(deleted)
            }
            &&& request.workflow == HoldWorkflow::RemoveLink
                ==> request.entry_with_header.entry is LinkRemove
        },
{
}

/// The hold requests that wait for their workflow to be launched, first
/// come first served, and never more of them than a set capacity. The
/// dispatcher puts requests in; whoever launches workflows takes them out.
pub struct HoldQueue {
    capacity: usize,
    waiting: Vec<HoldRequest>,
}

impl View for HoldQueue {
    type V = Seq<HoldRequestView>;

    /// The requests that wait, the one that waits longest first.
    closed spec fn view(&self) -> Seq<HoldRequestView> {
        seq_view(self.waiting@)
    }
}

/// What the dispatcher does with a decoded aspect when `waiting` requests
/// wait in a queue that holds up to `capacity`: what [`store_decision`]
/// says, but that a request for which the queue has no room is turned away.
pub open spec fn queued_decision(decoded: Option<EntryAspectView>, waiting: nat, capacity: nat)
    -> Result<HoldRequestView, StoreRejection> {
    match store_decision(decoded) {
        Ok(request) => if waiting < capacity {
            Ok(request)
        } else {
            Err(StoreRejection::QueueFull)
        },
        Err(rejection) => Err(rejection),
    }
}

impl HoldQueue {
    /// The number of requests that the queue holds at most.
    pub closed spec fn spec_capacity(&self) -> nat {
        self.capacity as nat
    }

    /// Whether the queue is within its capacity. Every queue made by
    /// [`HoldQueue::new`] is, and every method keeps it so.
    pub open spec fn well_formed(&self) -> bool {
        self@.len() <= self.spec_capacity()
    }

    /// An empty queue that holds up to `capacity` requests.
    pub fn new(capacity: usize) -> (queue: HoldQueue)
        ensures
            queue@ == Seq::<HoldRequestView>::empty(),
            queue.spec_capacity() == capacity,
            queue.well_formed(),
    {
        let queue = HoldQueue { capacity, waiting: Vec::new() };
        queue
    }

    /// The number of requests that the queue holds at most.
    pub fn capacity(&self) -> (capacity: usize)
        ensures
            capacity == self.spec_capacity(),
    {
        self.capacity
    }

    /// The number of requests that wait.
    pub fn len(&self) -> (len: usize)
        ensures
            len == self@.len(),
    {
        self.waiting.len()
    }

    /// Puts a request at the end of the queue, or hands it back if the
    /// queue is full.
    pub fn submit(&mut self, request: HoldRequest) -> (refused: Option<HoldRequest>)
        requires
            old(self).well_formed(),
        ensures
            final(self).well_formed(),
            final(self).spec_capacity() == old(self).spec_capacity(),
            old(self)@.len() < old(self).spec_capacity() ==> {
                &&& refused is None
                &&& final(self)@ == old(self)@.push(request@)
            },
            old(self)@.len() >= old(self).spec_capacity() ==> {
                &&& refused == Some(request)
                &&& final(self)@ == old(self)@
            },
    {
        if self.waiting.len() < self.capacity {
            self.waiting.push(request);
            None
        } else {
            Some(request)
        }
    }

    /// Takes the request that has waited longest out of the queue.
    pub fn take_next(&mut self) -> (next: Option<HoldRequest>)
        requires
            old(self).well_formed(),
        ensures
            final(self).well_formed(),
            final(self).spec_capacity() == old(self).spec_capacity(),
            match next {
                Some(request) => {
                    &&& old(self)@.len() > 0
                    &&& request@ == old(self)@[0]
                    &&& final(self)@ == old(self)@.drop_first()
                },
                None => old(self)@.len() == 0 && final(self)@ == old(self)@,
            },
    {
        if self.waiting.len() == 0 {
            None
        } else {
            let request = self.waiting.remove(0);
            Some(request)
        }
    }

    /// The network asks this node to hold the given aspect: decides as
    /// [`handle_store`] does, and queues the workflow to launch. Nothing is
    /// launched here and nothing waited for; the answer says only what to
    /// log.
    pub fn dispatch(&mut self, decoded: Option<EntryAspect>) -> (outcome: Result<
        (),
        StoreRejection,
    >)
        requires
            old(self).well_formed(),
        ensures
            final(self).well_formed(),
            final(self).spec_capacity() == old(self).spec_capacity(),
            match queued_decision(opt_view(decoded), old(self)@.len(), old(self).spec_capacity()) {
                Ok(request) => outcome is Ok && final(self)@ == old(self)@.push(request),
                Err(rejection) => {
                    &&& outcome == Err::<(), StoreRejection>(rejection)
                    &&& final(self)@ == old(self)@
                },
            },
    {
        match handle_store(decoded) {
            Ok(request) => match self.submit(request) {
                None => Ok(()),
                Some(_) => Err(StoreRejection::QueueFull),
            },
            Err(rejection) => Err(rejection),
        }
    }
}

/// A queue is never over its capacity, whatever is dispatched to it: the
/// workflows that wait to be launched are bounded.
pub proof fn lemma_queue_stays_within_capacity(
    decoded: Option<EntryAspectView>,
    waiting: nat,
    capacity: nat,
)
    requires
        waiting <= capacity,
    ensures
        queued_decision(decoded, waiting, capacity) is Ok ==> waiting + 1 <= capacity,
        queued_decision(decoded, waiting, capacity) is Ok ==> store_decision(decoded)
            == queued_decision(decoded, waiting, capacity),
{
}

} // verus!
