//! The content text of an entry, and the address that follows from it.
//!
//! An entry's content is a JSON object with one member, named after the kind
//! of entry. Its address is the address of that text, so two entries with
//! the same content have the same address.

use crate::address::{address_of_content, content_address, Address};
use crate::entry::{Entry, EntryView, LinkData, LinkDataView};
use crate::json::{json_quote, json_string_literal};
use crate::views::seq_view;
use vstd::prelude::*;

verus! {

/// The JSON object of a link whose four fields are given as JSON literals.
pub open spec fn link_json(quoted: LinkDataView) -> Seq<char> {
    "{\"base\":"@ + quoted.base + ",\"target\":"@ + quoted.target + ",\"link_type\":"@
        + quoted.link_type + ",\"tag\":"@ + quoted.tag + "}"@
}

/// The texts of `parts`, separated by commas.
pub open spec fn comma_separated(parts: Seq<Seq<char>>) -> Seq<char>
    decreases parts.len(),
{
    if parts.len() == 0 {
        Seq::empty()
    } else if parts.len() == 1 {
        parts[0]
    } else {
        comma_separated(parts.drop_last()) + ","@ + parts.last()
    }
}

/// The content of an application entry whose type name and value are given
/// as JSON literals.
pub open spec fn app_content(quoted_type: Seq<char>, quoted_value: Seq<char>) -> Seq<char> {
    "{\"App\":["@ + quoted_type + ","@ + quoted_value + "]}"@
}

/// The content of a link addition whose link is given as a JSON object.
pub open spec fn link_add_content(link: Seq<char>) -> Seq<char> {
    "{\"LinkAdd\":"@ + link + "}"@
}

/// The content of a link removal whose link is given as a JSON object and
/// whose removed addresses are given as JSON literals.
pub open spec fn link_remove_content(link: Seq<char>, quoted_removed: Seq<Seq<char>>) -> Seq<
    char,
> {
    "{\"LinkRemove\":["@ + link + ",["@ + comma_separated(quoted_removed) + "]]}"@
}

/// The content of a deletion marker whose deleted address is given as a JSON
/// literal.
pub open spec fn deletion_content(quoted_address: Seq<char>) -> Seq<char> {
    "{\"Deletion\":{\"deleted_entry_address\":"@ + quoted_address + "}}"@
}

/// The four fields of a link as JSON literals.
pub open spec fn quoted_link(link: LinkDataView) -> LinkDataView {
    LinkDataView {
        base: json_string_literal(link.base),
        target: json_string_literal(link.target),
        link_type: json_string_literal(link.link_type),
        tag: json_string_literal(link.tag),
    }
}

/// The JSON literals of the texts, in order.
pub open spec fn quoted_all(texts: Seq<Seq<char>>) -> Seq<Seq<char>> {
    Seq::new(texts.len(), |i: int| json_string_literal(texts[i]))
}

/// The content text of an entry: a JSON object with one member, named after
/// the kind of entry, in which every text is a JSON literal.
pub open spec fn entry_content(entry: EntryView) -> Seq<char> {
    match entry {
        EntryView::App(entry_type, value) => app_content(
            json_string_literal(entry_type),
            json_string_literal(value),
        ),
        EntryView::LinkAdd(link) => link_add_content(link_json(quoted_link(link))),
        EntryView::LinkRemove(link, removed) => link_remove_content(
            link_json(quoted_link(link)),
            quoted_all(removed),
        ),
        EntryView::Deletion(address) => deletion_content(json_string_literal(address)),
    }
}

/// The address of an entry: the address of its content text.
pub open spec fn entry_address(entry: EntryView) -> Seq<char> {
    content_address(entry_content(entry))
}

/// Writes the JSON object of a link from the JSON literals of its fields.
pub fn write_link_json(base: &str, target: &str, link_type: &str, tag: &str) -> (json: String)
    ensures
        json@ == link_json(
            LinkDataView { base: base@, target: target@, link_type: link_type@, tag: tag@ },
        ),
{
    let mut json = String::from_str("{\"base\":");
    json.append(base);
    json.append(",\"target\":");
    json.append(target);
    json.append(",\"link_type\":");
    json.append(link_type);
    json.append(",\"tag\":");
    json.append(tag);
    json.append("}");
    json
}

/// Writes the given texts, separated by commas.
pub fn write_comma_separated(parts: &Vec<String>) -> (text: String)
    ensures
        text@ == comma_separated(seq_view(parts@)),
{
    let mut text = String::new();
    let mut i: usize = 0;
    while i < parts.len()
        invariant
            i <= parts.len(),
            text@ == comma_separated(seq_view(parts@).take(i as int)),
        decreases parts.len() - i,
    {
        let ghost before = seq_view(parts@).take(i as int);
        let ghost after = seq_view(parts@).take(i + 1);
        if i > 0 {
            text.append(",");
        }
        text.append(parts[i].as_str());
        proof {
            assert(after.drop_last() =~= before);
        }
        i += 1;
    }
    assert(seq_view(parts@).take(parts.len() as int) =~= seq_view(parts@));
    text
}

/// Writes the content of an application entry from the JSON literals of its
/// type name and value.
pub fn write_app_content(quoted_type: &str, quoted_value: &str) -> (content: String)
    ensures
        content@ == app_content(quoted_type@, quoted_value@),
{
    let mut content = String::from_str("{\"App\":[");
    content.append(quoted_type);
    content.append(",");
    content.append(quoted_value);
    content.append("]}");
    content
}

/// Writes the content of a link addition around the JSON object of its link.
pub fn write_link_add_content(link: &str) -> (content: String)
    ensures
        content@ == link_add_content(link@),
{
    let mut content = String::from_str("{\"LinkAdd\":");
    content.append(link);
    content.append("}");
    content
}

/// Writes the content of a link removal from the JSON object of its link and
/// the JSON literals of the addresses it removes.
pub fn write_link_remove_content(link: &str, quoted_removed: &Vec<String>) -> (content: String)
    ensures
        content@ == link_remove_content(link@, seq_view(quoted_removed@)),
{
    let mut content = String::from_str("{\"LinkRemove\":[");
    content.append(link);
    content.append(",[");
    let list = write_comma_separated(quoted_removed);
    content.append(list.as_str());
    content.append("]]}");
    content
}

/// Writes the content of a deletion marker from the JSON literal of the
/// deleted address.
pub fn write_deletion_content(quoted_address: &str) -> (content: String)
    ensures
        content@ == deletion_content(quoted_address@),
{
    let mut content = String::from_str("{\"Deletion\":{\"deleted_entry_address\":");
    content.append(quoted_address);
    content.append("}}");
    content
}

/// The JSON object of a link.
pub fn link_to_json(link: &LinkData) -> (json: String)
    ensures
        json@ == link_json(quoted_link(link@)),
{
    let base = json_quote(link.base.as_str());
    let target = json_quote(link.target.as_str());
    let link_type = json_quote(link.link_type.as_str());
    let tag = json_quote(link.tag.as_str());
    write_link_json(base.as_str(), target.as_str(), link_type.as_str(), tag.as_str())
}

/// The JSON literals of the given texts, in order.
pub fn quote_all(texts: &Vec<String>) -> (quoted: Vec<String>)
    ensures
        seq_view(quoted@) == quoted_all(seq_view(texts@)),
{
    let mut quoted: Vec<String> = Vec::new();
    let mut i: usize = 0;
    while i < texts.len()
        invariant
            i <= texts.len(),
            quoted.len() == i,
            forall|k: int| 0 <= k < i ==> quoted@[k]@ == json_string_literal(texts@[k]@),
        decreases texts.len() - i,
    {
        quoted.push(json_quote(texts[i].as_str()));
        i += 1;
    }
    assert(seq_view(quoted@) =~= quoted_all(seq_view(texts@)));
    quoted
}

impl Entry {
    /// The content text of the entry.
    pub fn content(&self) -> (content: String)
        ensures
            content@ == entry_content(self@),
    {
        match self {
            Entry::App(entry_type, value) => {
                let quoted_type = json_quote(entry_type.as_str());
                let quoted_value = json_quote(value.as_str());
                write_app_content(quoted_type.as_str(), quoted_value.as_str())
            },
            Entry::LinkAdd(link) => {
                let json = link_to_json(link);
                write_link_add_content(json.as_str())
            },
            Entry::LinkRemove((link, removed)) => {
                let json = link_to_json(link);
                let quoted_removed = quote_all(removed);
                write_link_remove_content(json.as_str(), &quoted_removed)
            },
            Entry::Deletion(deletion) => {
                let quoted = json_quote(deletion.deleted_entry_address().as_str());
                write_deletion_content(quoted.as_str())
            },
        }
    }

    /// The address of the entry: the address of its content text.
    pub fn address(&self) -> (address: Address)
        ensures
            address@ == entry_address(self@),
    {
        let content = self.content();
        address_of_content(content.as_str())
    }
}

} // verus!
