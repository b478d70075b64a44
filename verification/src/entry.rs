//! Entries, the links between them, and the headers that authorise them.

use crate::address::Address;
use crate::views::{opt_view, seq_view};
use vstd::prelude::*;

verus! {

/// Lifecycle position of an entry as seen through its update/delete chain.
#[derive(Clone, Copy, Debug, PartialEq, Eq, Structural)]
pub enum CrudStatus {
    Live,
    Modified,
    Deleted,
}

/// The name of a status, as it is written in answers.
pub open spec fn status_text(status: CrudStatus) -> Seq<char> {
    match status {
        CrudStatus::Live => "live"@,
        CrudStatus::Modified => "modified"@,
        CrudStatus::Deleted => "deleted"@,
    }
}

impl CrudStatus {
    /// The name of the status, as it is written in answers.
    pub fn as_str(&self) -> (text: &'static str)
        ensures
            text@ == status_text(*self),
    {
        match self {
            CrudStatus::Live => "live",
            CrudStatus::Modified => "modified",
            CrudStatus::Deleted => "deleted",
        }
    }
}

/// A link from a base entry to a target entry, with its type and tag.
#[derive(Debug, PartialEq, Eq)]
pub struct LinkData {
    pub base: Address,
    pub target: Address,
    pub link_type: String,
    pub tag: String,
}

/// Mathematical model of a [`LinkData`].
pub struct LinkDataView {
    pub base: Seq<char>,
    pub target: Seq<char>,
    pub link_type: Seq<char>,
    pub tag: Seq<char>,
}

impl View for LinkData {
    type V = LinkDataView;

    open spec fn view(&self) -> LinkDataView {
        LinkDataView {
            base: self.base@,
            target: self.target@,
            link_type: self.link_type@,
            tag: self.tag@,
        }
    }
}

impl Clone for LinkData {
    fn clone(&self) -> (copy: Self)
        ensures
            copy@ == self@,
    {
        LinkData {
            base: self.base.clone(),
            target: self.target.clone(),
            link_type: self.link_type.clone(),
            tag: self.tag.clone(),
        }
    }
}

impl LinkData {
    /// The link from `base` to `target` with the given type and tag.
    pub fn new(base: &str, target: &str, link_type: &str, tag: &str) -> (link: LinkData)
        ensures
            link@ == (LinkDataView { base: base@, target: target@, link_type: link_type@, tag: tag@ }),
    {
        LinkData {
            base: base.to_owned(),
            target: target.to_owned(),
            link_type: link_type.to_owned(),
            tag: tag.to_owned(),
        }
    }
}

/// The marker that an entry has been deleted.
#[derive(Debug, PartialEq, Eq)]
pub struct DeletionEntry {
    deleted_entry_address: Address,
}

impl View for DeletionEntry {
    type V = Seq<char>;

    /// The address of the deleted entry.
    closed spec fn view(&self) -> Seq<char> {
        self.deleted_entry_address@
    }
}

impl Clone for DeletionEntry {
    fn clone(&self) -> (copy: Self)
        ensures
            copy@ == self@,
    {
        DeletionEntry { deleted_entry_address: self.deleted_entry_address.clone() }
    }
}

impl DeletionEntry {
    /// The marker that the entry at `deleted_entry_address` has been deleted.
    pub fn new(deleted_entry_address: Address) -> (deletion: DeletionEntry)
        ensures
            deletion@ == deleted_entry_address@,
    {
        DeletionEntry { deleted_entry_address }
    }

    /// The address of the deleted entry.
    pub fn deleted_entry_address(&self) -> (address: &Address)
        ensures
            address@ == self@,
    {
        &self.deleted_entry_address
    }
}

/// What a source chain holds at one address.
#[derive(Debug, PartialEq, Eq)]
pub enum Entry {
    /// Application content: the name of its entry type and its value as JSON
    /// text.
    App(String, String),
    /// The addition of a link.
    LinkAdd(LinkData),
    /// The removal of a link, with the addresses of the link additions that
    /// it withdraws.
    LinkRemove((LinkData, Vec<Address>)),
    /// The marker that an entry has been deleted.
    Deletion(DeletionEntry),
}

/// Mathematical model of an [`Entry`].
pub enum EntryView {
    App(Seq<char>, Seq<char>),
    LinkAdd(LinkDataView),
    LinkRemove(LinkDataView, Seq<Seq<char>>),
    Deletion(Seq<char>),
}

impl View for Entry {
    type V = EntryView;

    open spec fn view(&self) -> EntryView {
        match self {
            Entry::App(entry_type, value) => EntryView::App(entry_type@, value@),
            Entry::LinkAdd(link) => EntryView::LinkAdd(link@),
            Entry::LinkRemove((link, removed)) => EntryView::LinkRemove(link@, seq_view(removed@)),
            Entry::Deletion(deletion) => EntryView::Deletion(deletion@),
        }
    }
}

/// Copies a list of addresses.
pub fn clone_addresses(addresses: &Vec<Address>) -> (copy: Vec<Address>)
    ensures
        seq_view(copy@) == seq_view(addresses@),
{
    let mut copy: Vec<Address> = Vec::new();
    let mut i: usize = 0;
    while i < addresses.len()
        invariant
            i <= addresses.len(),
            copy.len() == i,
            forall|k: int| 0 <= k < i ==> copy@[k]@ == addresses@[k]@,
        decreases addresses.len() - i,
    {
        copy.push(addresses[i].clone());
        i += 1;
    }
    copy
}

impl Clone for Entry {
    fn clone(&self) -> (copy: Self)
        ensures
            copy@ == self@,
    {
        match self {
            Entry::App(entry_type, value) => Entry::App(entry_type.clone(), value.clone()),
            Entry::LinkAdd(link) => Entry::LinkAdd(link.clone()),
            Entry::LinkRemove((link, removed)) => Entry::LinkRemove(
                (link.clone(), clone_addresses(removed)),
            ),
            Entry::Deletion(deletion) => Entry::Deletion(deletion.clone()),
        }
    }
}

/// The metadata that accompanies an entry on its author's chain.
#[derive(Debug, PartialEq, Eq)]
pub struct ChainHeader {
    /// The address of the entry that this header accounts for.
    pub entry_address: Address,
    /// The address of the agent that authored the entry.
    pub author: Address,
    /// When the entry was committed.
    pub timestamp: String,
    /// The address of the entry that this header's entry supersedes or
    /// removes, if any.
    pub link_update_delete: Option<Address>,
}

/// Mathematical model of a [`ChainHeader`].
pub struct ChainHeaderView {
    pub entry_address: Seq<char>,
    pub author: Seq<char>,
    pub timestamp: Seq<char>,
    pub link_update_delete: Option<Seq<char>>,
}

impl View for ChainHeader {
    type V = ChainHeaderView;

    open spec fn view(&self) -> ChainHeaderView {
        ChainHeaderView {
            entry_address: self.entry_address@,
            author: self.author@,
            timestamp: self.timestamp@,
            link_update_delete: opt_view(self.link_update_delete),
        }
    }
}

/// Copies an optional address.
pub fn clone_optional_address(address: &Option<Address>) -> (copy: Option<Address>)
    ensures
        opt_view(copy) == opt_view(*address),
{
    match address {
        Some(a) => Some(a.clone()),
        None => None,
    }
}

impl Clone for ChainHeader {
    fn clone(&self) -> (copy: Self)
        ensures
            copy@ == self@,
    {
        ChainHeader {
            entry_address: self.entry_address.clone(),
            author: self.author.clone(),
            timestamp: self.timestamp.clone(),
            link_update_delete: clone_optional_address(&self.link_update_delete),
        }
    }
}

impl ChainHeader {
    /// The address of the entry that this header accounts for.
    pub fn entry_address(&self) -> (address: &Address)
        ensures
            address@ == self@.entry_address,
    {
        &self.entry_address
    }

    /// The address of the entry that this header's entry supersedes or
    /// removes, if any.
    pub fn link_update_delete(&self) -> (address: Option<Address>)
        ensures
            opt_view(address) == self@.link_update_delete,
    {
        clone_optional_address(&self.link_update_delete)
    }
}

/// An entry together with the header that authorises it.
#[derive(Debug, PartialEq, Eq)]
pub struct EntryWithHeader {
    pub entry: Entry,
    pub header: ChainHeader,
}

/// Mathematical model of an [`EntryWithHeader`].
pub struct EntryWithHeaderView {
    pub entry: EntryView,
    pub header: ChainHeaderView,
}

impl View for EntryWithHeader {
    type V = EntryWithHeaderView;

    open spec fn view(&self) -> EntryWithHeaderView {
        EntryWithHeaderView { entry: self.entry@, header: self.header@ }
    }
}

impl Clone for EntryWithHeader {
    fn clone(&self) -> (copy: Self)
        ensures
            copy@ == self@,
    {
        EntryWithHeader { entry: self.entry.clone(), header: self.header.clone() }
    }
}

/// An entry as the store holds it: with its lifecycle status and, where it
/// has been superseded or removed, the address of what superseded it.
#[derive(Debug, PartialEq, Eq)]
pub struct EntryWithMeta {
    pub entry: Entry,
    pub crud_status: CrudStatus,
    pub maybe_link_update_delete: Option<Address>,
}

/// Mathematical model of an [`EntryWithMeta`].
pub struct EntryWithMetaView {
    pub entry: EntryView,
    pub crud_status: CrudStatus,
    pub maybe_link_update_delete: Option<Seq<char>>,
}

impl View for EntryWithMeta {
    type V = EntryWithMetaView;

    open spec fn view(&self) -> EntryWithMetaView {
        EntryWithMetaView {
            entry: self.entry@,
            crud_status: self.crud_status,
            maybe_link_update_delete: opt_view(self.maybe_link_update_delete),
        }
    }
}

impl Clone for EntryWithMeta {
    fn clone(&self) -> (copy: Self)
        ensures
            copy@ == self@,
    {
        EntryWithMeta {
            entry: self.entry.clone(),
            crud_status: self.crud_status,
            maybe_link_update_delete: clone_optional_address(&self.maybe_link_update_delete),
        }
    }
}

/// Copies a list of headers.
pub fn clone_headers(headers: &Vec<ChainHeader>) -> (copy: Vec<ChainHeader>)
    ensures
        seq_view(copy@) == seq_view(headers@),
{
    let mut copy: Vec<ChainHeader> = Vec::new();
    let mut i: usize = 0;
    while i < headers.len()
        invariant
            i <= headers.len(),
            copy.len() == i,
            forall|k: int| 0 <= k < i ==> copy@[k]@ == headers@[k]@,
        decreases headers.len() - i,
    {
        copy.push(headers[i].clone());
        i += 1;
    }
    copy
}

/// A stored entry with the headers of those who committed it.
#[derive(Debug, PartialEq, Eq)]
pub struct EntryWithMetaAndHeader {
    pub entry_with_meta: EntryWithMeta,
    pub headers: Vec<ChainHeader>,
}

/// Mathematical model of an [`EntryWithMetaAndHeader`].
pub struct EntryWithMetaAndHeaderView {
    pub entry_with_meta: EntryWithMetaView,
    pub headers: Seq<ChainHeaderView>,
}

impl View for EntryWithMetaAndHeader {
    type V = EntryWithMetaAndHeaderView;

    open spec fn view(&self) -> EntryWithMetaAndHeaderView {
        EntryWithMetaAndHeaderView {
            entry_with_meta: self.entry_with_meta@,
            headers: seq_view(self.headers@),
        }
    }
}

impl Clone for EntryWithMetaAndHeader {
    fn clone(&self) -> (copy: Self)
        ensures
            copy@ == self@,
    {
        EntryWithMetaAndHeader {
            entry_with_meta: self.entry_with_meta.clone(),
            headers: clone_headers(&self.headers),
        }
    }
}

} // verus!
