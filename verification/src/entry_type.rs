//! The kinds of entry a source chain can hold, and their textual names.
//!
//! System entry types have reserved names that start with `%`; every other
//! name denotes an application-defined entry type.

use vstd::prelude::*;

verus! {

/// The kind of an entry: one of the system kinds, or an application kind
/// identified by its name.
#[derive(Debug, PartialEq, Eq, Hash)]
pub enum EntryType {
    App(String),
    AgentId,
    Deletion,
    Dna,
    ChainHeader,
    Key,
    Link,
    LinkList,
    Migration,
}

/// Mathematical model of an [`EntryType`].
pub enum EntryTypeView {
    App(Seq<char>),
    AgentId,
    Deletion,
    Dna,
    ChainHeader,
    Key,
    Link,
    LinkList,
    Migration,
}

impl View for EntryType {
    type V = EntryTypeView;

    open spec fn view(&self) -> EntryTypeView {
        match self {
            EntryType::App(name) => EntryTypeView::App(name@),
            EntryType::AgentId => EntryTypeView::AgentId,
            EntryType::Deletion => EntryTypeView::Deletion,
            EntryType::Dna => EntryTypeView::Dna,
            EntryType::ChainHeader => EntryTypeView::ChainHeader,
            EntryType::Key => EntryTypeView::Key,
            EntryType::Link => EntryTypeView::Link,
            EntryType::LinkList => EntryTypeView::LinkList,
            EntryType::Migration => EntryTypeView::Migration,
        }
    }
}

impl Clone for EntryType {
    fn clone(&self) -> (copy: Self)
        ensures
            copy@ == self@,
    {
        match self {
            EntryType::App(name) => EntryType::App(name.clone()),
            EntryType::AgentId => EntryType::AgentId,
            EntryType::Deletion => EntryType::Deletion,
            EntryType::Dna => EntryType::Dna,
            EntryType::ChainHeader => EntryType::ChainHeader,
            EntryType::Key => EntryType::Key,
            EntryType::Link => EntryType::Link,
            EntryType::LinkList => EntryType::LinkList,
            EntryType::Migration => EntryType::Migration,
        }
    }
}

impl EntryTypeView {
    /// The textual name of the entry type.
    pub open spec fn name(self) -> Seq<char> {
        match self {
            EntryTypeView::App(name) => name,
            EntryTypeView::AgentId => "%agent_id"@,
            EntryTypeView::Deletion => "%deletion"@,
            EntryTypeView::Dna => "%dna"@,
            EntryTypeView::ChainHeader => "%chain_header"@,
            EntryTypeView::Key => "%key"@,
            EntryTypeView::Link => "%link"@,
            EntryTypeView::LinkList => "%link_list"@,
            EntryTypeView::Migration => "%migration"@,
        }
    }

    /// The entry type that a textual name denotes: the system type with that
    /// reserved name, or else the application type of that name.
    pub open spec fn parse(name: Seq<char>) -> EntryTypeView {
        if name == "%agent_id"@ {
            EntryTypeView::AgentId
        } else if name == "%deletion"@ {
            EntryTypeView::Deletion
        } else if name == "%dna"@ {
            EntryTypeView::Dna
        } else if name == "%chain_header"@ {
            EntryTypeView::ChainHeader
        } else if name == "%key"@ {
            EntryTypeView::Key
        } else if name == "%link"@ {
            EntryTypeView::Link
        } else if name == "%link_list"@ {
            EntryTypeView::LinkList
        } else if name == "%migration"@ {
            EntryTypeView::Migration
        } else {
            EntryTypeView::App(name)
        }
    }
}

/// Whether `name` is acceptable as the name of an application entry type:
/// it is not empty and does not start with the system prefix `%`.
pub open spec fn valid_app_name(name: Seq<char>) -> bool {
    name.len() > 0 && name[0] != '%'
}

/// Whether two string slices hold the same text.
fn same_text(a: &str, b: &str) -> (same: bool)
    ensures
        same == (a@ == b@),
{
    a.to_owned() == b.to_owned()
}

impl EntryType {
    /// Whether this is an application entry type.
    pub fn is_app(self) -> (b: bool)
        ensures
            b == (self@ is App),
    {
        match self {
            EntryType::App(_) => true,
            _ => false,
        }
    }

    /// Whether this is a system entry type.
    pub fn is_sys(self) -> (b: bool)
        ensures
            b == !(self@ is App),
    {
        !self.is_app()
    }

    /// Every entry type but the DNA may be published to the network.
    pub fn can_publish(self) -> (b: bool)
        ensures
            b == !(self@ is Dna),
    {
        match self {
            EntryType::Dna => false,
            _ => true,
        }
    }

    /// Checks that `entry_type_name` may name an application entry type.
    pub fn has_valid_app_name(entry_type_name: &str) -> (b: bool)
        ensures
            b == valid_app_name(entry_type_name@),
    {
        !entry_type_name.is_empty() && entry_type_name.get_char(0) != '%'
    }

    /// Reads an entry type from its name. Never fails: a name that is not
    /// reserved for a system type denotes an application type.
    pub fn from_str(s: &str) -> (r: Result<EntryType, usize>)
        ensures
            r matches Ok(t) && t@ == EntryTypeView::parse(s@),
    {
        if same_text(s, "%agent_id") {
            Ok(EntryType::AgentId)
        } else if same_text(s, "%deletion") {
            Ok(EntryType::Deletion)
        } else if same_text(s, "%dna") {
            Ok(EntryType::Dna)
        } else if same_text(s, "%chain_header") {
            Ok(EntryType::ChainHeader)
        } else if same_text(s, "%key") {
            Ok(EntryType::Key)
        } else if same_text(s, "%link") {
            Ok(EntryType::Link)
        } else if same_text(s, "%link_list") {
            Ok(EntryType::LinkList)
        } else if same_text(s, "%migration") {
            Ok(EntryType::Migration)
        } else {
            Ok(EntryType::App(s.to_owned()))
        }
    }

    /// The name of the entry type, as an owned string.
    pub fn to_string(&self) -> (r: String)
        ensures
            r@ == self@.name(),
    {
        self.as_str().to_owned()
    }

    /// The name of the entry type.
    pub fn as_str(&self) -> (r: &str)
        ensures
            r@ == self@.name(),
    {
        match self {
            EntryType::App(s) => s.as_str(),
            EntryType::AgentId => "%agent_id",
            EntryType::Deletion => "%deletion",
            EntryType::Dna => "%dna",
            EntryType::ChainHeader => "%chain_header",
            EntryType::Key => "%key",
            EntryType::Link => "%link",
            EntryType::LinkList => "%link_list",
            EntryType::Migration => "%migration",
        }
    }
}

impl std::str::FromStr for EntryType {
    type Err = usize;

    /// Reads an entry type from its name, as [`EntryType::from_str`] does.
    fn from_str(s: &str) -> (r: Result<Self, usize>)
        ensures
            r matches Ok(t) && t@ == EntryTypeView::parse(s@),
    {
        EntryType::from_str(s)
    }
}

/// The reserved names differ from one another, and each starts with `%`.
proof fn lemma_reserved_names()
    ensures
        "%agent_id"@.len() == 9 && "%agent_id"@[0] == '%' && "%agent_id"@[1] == 'a',
        "%deletion"@.len() == 9 && "%deletion"@[0] == '%' && "%deletion"@[1] == 'd',
        "%dna"@.len() == 4 && "%dna"@[0] == '%' && "%dna"@[1] == 'd',
        "%chain_header"@.len() == 13 && "%chain_header"@[0] == '%',
        "%key"@.len() == 4 && "%key"@[0] == '%' && "%key"@[1] == 'k',
        "%link"@.len() == 5 && "%link"@[0] == '%',
        "%link_list"@.len() == 10 && "%link_list"@[0] == '%' && "%link_list"@[1] == 'l',
        "%migration"@.len() == 10 && "%migration"@[0] == '%' && "%migration"@[1] == 'm',
{
    reveal_strlit("%agent_id");
    reveal_strlit("%deletion");
    reveal_strlit("%dna");
    reveal_strlit("%chain_header");
    reveal_strlit("%key");
    reveal_strlit("%link");
    reveal_strlit("%link_list");
    reveal_strlit("%migration");
}

/// A system entry type is read back from its own name.
pub proof fn lemma_system_name_round_trip(t: EntryTypeView)
    requires
        !(t is App),
    ensures
        EntryTypeView::parse(t.name()) == t,
{
    lemma_reserved_names();
}

/// The name of an entry type denotes that entry type again, unless it is an
/// application type that took a name reserved for a system type.
pub proof fn lemma_name_round_trip(t: EntryTypeView)
    requires
        t matches EntryTypeView::App(name) ==> valid_app_name(name),
    ensures
        EntryTypeView::parse(t.name()) == t,
{
    lemma_reserved_names();
}

/// No system entry type has a name that is valid for an application type.
pub proof fn lemma_system_names_are_reserved(t: EntryTypeView)
    requires
        !(t is App),
    ensures
        !valid_app_name(t.name()),
{
    lemma_reserved_names();
}

} // verus!
