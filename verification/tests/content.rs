use holochain_core::address::address_of_content;
use holochain_core::content::{
    write_app_content, write_comma_separated, write_deletion_content, write_link_add_content,
    write_link_json, write_link_remove_content,
};
use holochain_core::entry::{DeletionEntry, Entry, LinkData};

#[test]
fn address_of_known_content() {
    assert_eq!(
        address_of_content("test data"),
        String::from("QmY8Mzg9F69e5P9AoQPYat655HEhc1TVGs11tmfNSzkqh2")
    );
}

#[test]
fn address_depends_on_content() {
    assert_ne!(address_of_content("a"), address_of_content("b"));
    assert_eq!(address_of_content(""), address_of_content(""));
    assert_ne!(address_of_content(""), String::new());
}

#[test]
fn link_json_is_assembled_from_literals() {
    assert_eq!(
        write_link_json("\"b\"", "\"t\"", "\"ty\"", "\"g\""),
        "{\"base\":\"b\",\"target\":\"t\",\"link_type\":\"ty\",\"tag\":\"g\"}"
    );
}

#[test]
fn comma_separated_texts() {
    assert_eq!(write_comma_separated(&vec![]), "");
    assert_eq!(write_comma_separated(&vec![String::from("1")]), "1");
    assert_eq!(
        write_comma_separated(&vec![String::from("1"), String::from("2"), String::from("3")]),
        "1,2,3"
    );
}

#[test]
fn contents_are_assembled_from_literals() {
    assert_eq!(write_app_content("\"post\"", "\"{}\""), "{\"App\":[\"post\",\"{}\"]}");
    assert_eq!(write_link_add_content("{}"), "{\"LinkAdd\":{}}");
    assert_eq!(
        write_link_remove_content("{}", &vec![String::from("\"a\""), String::from("\"b\"")]),
        "{\"LinkRemove\":[{},[\"a\",\"b\"]]}"
    );
    assert_eq!(
        write_deletion_content("\"a\""),
        "{\"Deletion\":{\"deleted_entry_address\":\"a\"}}"
    );
}

#[test]
fn entry_content_quotes_every_text() {
    let entry = Entry::App(String::from("post"), String::from("{\"body\":\"hi\"}"));
    assert_eq!(
        entry.content(),
        String::from("{\"App\":[\"post\",\"{\\\"body\\\":\\\"hi\\\"}\"]}")
    );
    let link = LinkData::new("base", "target", "ty\"pe", "tag\n");
    assert_eq!(
        Entry::LinkAdd(link.clone()).content(),
        String::from(
            "{\"LinkAdd\":{\"base\":\"base\",\"target\":\"target\",\"link_type\":\"ty\\\"pe\",\"tag\":\"tag\\n\"}}"
        )
    );
    assert_eq!(
        Entry::LinkRemove((link, vec![String::from("x"), String::from("y")])).content(),
        String::from(
            "{\"LinkRemove\":[{\"base\":\"base\",\"target\":\"target\",\"link_type\":\"ty\\\"pe\",\"tag\":\"tag\\n\"},[\"x\",\"y\"]]}"
        )
    );
    assert_eq!(
        Entry::Deletion(DeletionEntry::new(String::from("gone"))).content(),
        String::from("{\"Deletion\":{\"deleted_entry_address\":\"gone\"}}")
    );
}

#[test]
fn entry_address_is_address_of_content() {
    let entry = Entry::Deletion(DeletionEntry::new(String::from("gone")));
    assert_eq!(
        entry.address(),
        address_of_content("{\"Deletion\":{\"deleted_entry_address\":\"gone\"}}")
    );
    assert!(!entry.address().is_empty());
    let other = Entry::Deletion(DeletionEntry::new(String::from("gone too")));
    assert_ne!(entry.address(), other.address());
}

#[test]
fn json_literals_escape_by_the_table() {
    let content_of = |text: &str| Entry::Deletion(DeletionEntry::new(String::from(text))).content();
    let expected = |literal: &str| {
        String::from("{\"Deletion\":{\"deleted_entry_address\":") + literal + "}}"
    };
    assert_eq!(content_of(""), expected("\"\""));
    assert_eq!(content_of("plain / text"), expected("\"plain / text\""));
    assert_eq!(content_of("a\"b"), expected("\"a\\\"b\""));
    assert_eq!(content_of("a\\b"), expected("\"a\\\\b\""));
    assert_eq!(
        content_of("\u{8}\t\n\u{c}\r"),
        expected("\"\\b\\t\\n\\f\\r\"")
    );
    assert_eq!(
        content_of("\u{0}\u{1}\u{b}\u{e}\u{1a}\u{1f}"),
        expected("\"\\u0000\\u0001\\u000b\\u000e\\u001a\\u001f\"")
    );
    assert_eq!(content_of(" \u{7f}\u{e9}\u{20ac}"), expected("\" \u{7f}\u{e9}\u{20ac}\""));
}
