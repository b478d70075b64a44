//! Entry aspects: the units of data that the network asks a node to hold.

use crate::address::Address;
use crate::entry::{ChainHeader, ChainHeaderView, Entry, EntryView, LinkData, LinkDataView};
use crate::views::seq_view;
use vstd::prelude::*;

verus! {

/// One replicated fact about an entry, paired with the header that
/// authorises it.
#[derive(Debug, PartialEq, Eq)]
pub enum EntryAspect {
    /// The content of an entry.
    Content(Entry, ChainHeader),
    /// A header on its own.
    Header(ChainHeader),
    /// A link from the entry to another.
    LinkAdd(LinkData, ChainHeader),
    /// The removal of a link, with the addresses of the link additions that
    /// it withdraws.
    LinkRemove((LinkData, Vec<Address>), ChainHeader),
    /// An entry that replaces an earlier one.
    Update(Entry, ChainHeader),
    /// The deletion of an entry; the header points at what is deleted.
    Deletion(ChainHeader),
}

/// Mathematical model of an [`EntryAspect`].
pub enum EntryAspectView {
    Content(EntryView, ChainHeaderView),
    Header(ChainHeaderView),
    LinkAdd(LinkDataView, ChainHeaderView),
    LinkRemove(LinkDataView, Seq<Seq<char>>, ChainHeaderView),
    Update(EntryView, ChainHeaderView),
    Deletion(ChainHeaderView),
}

impl View for EntryAspect {
    type V = EntryAspectView;

    open spec fn view(&self) -> EntryAspectView {
        match self {
            EntryAspect::Content(entry, header) => EntryAspectView::Content(entry@, header@),
            EntryAspect::Header(header) => EntryAspectView::Header(header@),
            EntryAspect::LinkAdd(link, header) => EntryAspectView::LinkAdd(link@, header@),
            EntryAspect::LinkRemove((link, removed), header) => EntryAspectView::LinkRemove(
                link@,
                seq_view(removed@),
                header@,
            ),
            EntryAspect::Update(entry, header) => EntryAspectView::Update(entry@, header@),
            EntryAspect::Deletion(header) => EntryAspectView::Deletion(header@),
        }
    }
}

impl EntryAspectView {
    /// The header that authorises the aspect.
    pub open spec fn header(self) -> ChainHeaderView {
        match self {
            EntryAspectView::Content(_, header) => header,
            EntryAspectView::Header(header) => header,
            EntryAspectView::LinkAdd(_, header) => header,
            EntryAspectView::LinkRemove(_, _, header) => header,
            EntryAspectView::Update(_, header) => header,
            EntryAspectView::Deletion(header) => header,
        }
    }
}

impl EntryAspect {
    /// The header that authorises the aspect.
    pub fn header(&self) -> (header: &ChainHeader)
        ensures
            header@ == self@.header(),
    {
        match self {
            EntryAspect::Content(_, header) => header,
            EntryAspect::Header(header) => header,
            EntryAspect::LinkAdd(_, header) => header,
            EntryAspect::LinkRemove(_, header) => header,
            EntryAspect::Update(_, header) => header,
            EntryAspect::Deletion(header) => header,
        }
    }
}

} // verus!
