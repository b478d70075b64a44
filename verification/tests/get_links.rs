use holochain_core::dht::DhtStore;
use holochain_core::entry::{
    ChainHeader, CrudStatus, Entry, EntryWithMeta, EntryWithMetaAndHeader, LinkData,
};
use holochain_core::links::{GetLinksArgs, GetLinksOptions, LinkMatch};
use holochain_core::response::store_result;

const MAX_HOPS: usize = 16;

fn test_chain_header(entry_address: &str) -> ChainHeader {
    ChainHeader {
        entry_address: String::from(entry_address),
        author: String::from("HcScIkRaAaaaaaaaaaAaaaAAAAaaaaaaaaAaaaaAaaaaaaaaAaaAAAAatzu4aqa"),
        timestamp: String::from("2018-10-11T03:23:38+00:00"),
        link_update_delete: None,
    }
}

fn add_test_entries(store: &mut DhtStore) -> Vec<String> {
    let mut entry_addresses: Vec<String> = Vec::new();
    for i in 0..3 {
        let entry = Entry::App(
            String::from("testEntryType"),
            format!("\"entry{} value\"", i),
        );
        let address = entry.address();
        let record = EntryWithMetaAndHeader {
            entry_with_meta: EntryWithMeta {
                entry,
                crud_status: CrudStatus::Live,
                maybe_link_update_delete: None,
            },
            headers: vec![test_chain_header(&address)],
        };
        store.put(address.clone(), record);
        entry_addresses.push(address);
    }
    entry_addresses
}

fn add_links(store: &mut DhtStore, links: Vec<LinkData>) {
    for link in links {
        store.add_link(link);
    }
}

fn get_links(store: &DhtStore, base: &String, link_type: LinkMatch, tag: LinkMatch) -> String {
    let args = GetLinksArgs {
        entry_address: base.clone(),
        link_type,
        tag,
        options: GetLinksOptions::default(),
    };
    let result = store.get_links_result(&args, MAX_HOPS);
    store_result(&result) + "\u{0}"
}

#[test]
fn returns_list_of_links() {
    let mut store = DhtStore::new();
    let entry_addresses = add_test_entries(&mut store);
    let links = vec![
        LinkData::new(&entry_addresses[0], &entry_addresses[1], "test-type", "test-tag"),
        LinkData::new(&entry_addresses[0], &entry_addresses[2], "test-type", "test-tag"),
    ];
    add_links(&mut store, links);

    let call_result = get_links(
        &store,
        &entry_addresses[0],
        LinkMatch::Exactly("test-type".into()),
        LinkMatch::Exactly("test-tag".into()),
    );
    let expected_1 = format!(
        r#"{{"ok":true,"value":"{{\"links\":[{{\"address\":\"{}\",\"headers\":[],\"tag\":\"{}\",\"status\":\"live\"}},{{\"address\":\"{}\",\"headers\":[],\"tag\":\"{}\",\"status\":\"live\"}}]}}","error":"null"}}"#,
        entry_addresses[1], "test-tag", entry_addresses[2], "test-tag",
    ) + "\u{0}";
    let expected_2 = format!(
        r#"{{"ok":true,"value":"{{\"links\":[{{\"address\":\"{}\",\"headers\":[],\"tag\":\"{}\",\"status\":\"live\"}},{{\"address\":\"{}\",\"headers\":[],\"tag\":\"{}\",\"status\":\"live\"}}]}}","error":"null"}}"#,
        entry_addresses[2], "test-tag", entry_addresses[1], "test-tag",
    ) + "\u{0}";
    assert!(
        call_result == expected_1 || call_result == expected_2,
        "\n call_result = '{:?}'\n   ordering1 = '{:?}'\n   ordering2 = '{:?}'",
        call_result,
        expected_1,
        expected_2,
    );
}

#[test]
fn get_links_with_non_existent_type_returns_nothing() {
    let mut store = DhtStore::new();
    let entry_addresses = add_test_entries(&mut store);
    let links = vec![
        LinkData::new(&entry_addresses[0], &entry_addresses[1], "test-type", "test-tag"),
        LinkData::new(&entry_addresses[0], &entry_addresses[2], "test-type", "test-tag"),
    ];
    add_links(&mut store, links);

    let call_result = get_links(
        &store,
        &entry_addresses[0],
        LinkMatch::Exactly("other-type".into()),
        LinkMatch::Exactly("test-tag".into()),
    );
    assert_eq!(
        call_result,
        String::from(r#"{"ok":true,"value":"{\"links\":[]}","error":"null"}"#,) + "\u{0}",
    );
}

#[test]
fn get_links_with_non_existent_tag_returns_nothing() {
    let mut store = DhtStore::new();
    let entry_addresses = add_test_entries(&mut store);
    let links = vec![
        LinkData::new(&entry_addresses[0], &entry_addresses[1], "test-type", "test-tag"),
        LinkData::new(&entry_addresses[0], &entry_addresses[2], "test-type", "test-tag"),
    ];
    add_links(&mut store, links);

    let call_result = get_links(
        &store,
        &entry_addresses[0],
        LinkMatch::Exactly("test-type".into()),
        LinkMatch::Exactly("other-tag".into()),
    );
    assert_eq!(
        call_result,
        String::from(r#"{"ok":true,"value":"{\"links\":[]}","error":"null"}"#,) + "\u{0}",
    );
}

#[test]
fn can_get_all_links_of_any_tag_or_type() {
    let mut store = DhtStore::new();
    let entry_addresses = add_test_entries(&mut store);
    let links = vec![
        LinkData::new(&entry_addresses[0], &entry_addresses[1], "test-type1", "test-tag1"),
        LinkData::new(&entry_addresses[0], &entry_addresses[2], "test-type2", "test-tag2"),
    ];
    add_links(&mut store, links);

    let call_result = get_links(&store, &entry_addresses[0], LinkMatch::Any, LinkMatch::Any);
    let expected_1 = format!(
        r#"{{"ok":true,"value":"{{\"links\":[{{\"address\":\"{}\",\"headers\":[],\"tag\":\"{}\",\"status\":\"live\"}},{{\"address\":\"{}\",\"headers\":[],\"tag\":\"{}\",\"status\":\"live\"}}]}}","error":"null"}}"#,
        entry_addresses[1], "test-tag1", entry_addresses[2], "test-tag2",
    ) + "\u{0}";
    let expected_2 = format!(
        r#"{{"ok":true,"value":"{{\"links\":[{{\"address\":\"{}\",\"headers\":[],\"tag\":\"{}\",\"status\":\"live\"}},{{\"address\":\"{}\",\"headers\":[],\"tag\":\"{}\",\"status\":\"live\"}}]}}","error":"null"}}"#,
        entry_addresses[2], "test-tag2", entry_addresses[1], "test-tag1",
    ) + "\u{0}";
    assert!(
        call_result == expected_1 || call_result == expected_2,
        "\n call_result = '{:?}'\n   ordering1 = '{:?}'\n   ordering2 = '{:?}'",
        call_result,
        expected_1,
        expected_2,
    );
}

#[test]
fn get_links_with_exact_tag_match_returns_only_that_link() {
    let mut store = DhtStore::new();
    let entry_addresses = add_test_entries(&mut store);
    let links = vec![
        LinkData::new(&entry_addresses[0], &entry_addresses[1], "test-type", "test-tag1"),
        LinkData::new(&entry_addresses[0], &entry_addresses[1], "test-type", "test-tag2"),
    ];
    add_links(&mut store, links);

    let call_result = get_links(
        &store,
        &entry_addresses[0],
        LinkMatch::Exactly("test-type".into()),
        LinkMatch::Exactly("test-tag1".into()),
    );
    let expected = format!(
        r#"{{"ok":true,"value":"{{\"links\":[{{\"address\":\"{}\",\"headers\":[],\"tag\":\"{}\",\"status\":\"live\"}}]}}","error":"null"}}"#,
        entry_addresses[1], "test-tag1",
    ) + "\u{0}";
    assert_eq!(call_result, expected,);
}

#[test]
fn test_with_same_target_and_tag_dedup() {
    let mut store = DhtStore::new();
    let entry_addresses = add_test_entries(&mut store);
    // links have same tag, same base and same tag. Are the same
    let links = vec![
        LinkData::new(&entry_addresses[0], &entry_addresses[1], "test-type", "test-tag"),
        LinkData::new(&entry_addresses[0], &entry_addresses[1], "test-type", "test-tag"),
    ];
    add_links(&mut store, links);
    let call_result = get_links(
        &store,
        &entry_addresses[0],
        LinkMatch::Exactly("test-type".into()),
        LinkMatch::Exactly("test-tag".into()),
    );
    let expected = format!(
        r#"{{"ok":true,"value":"{{\"links\":[{{\"address\":\"{}\",\"headers\":[],\"tag\":\"{}\",\"status\":\"live\"}}]}}","error":"null"}}"#,
        entry_addresses[1], "test-tag",
    ) + "\u{0}";
    assert_eq!(call_result, expected,);
}

#[test]
fn test_with_same_target_different_tag_dont_dedup() {
    let mut store = DhtStore::new();
    let entry_addresses = add_test_entries(&mut store);
    // same target and type, different tag
    let links = vec![
        LinkData::new(&entry_addresses[0], &entry_addresses[1], "test-type", "test-tag1"),
        LinkData::new(&entry_addresses[0], &entry_addresses[1], "test-type", "test-tag2"),
    ];
    add_links(&mut store, links);
    let call_result = get_links(
        &store,
        &entry_addresses[0],
        LinkMatch::Exactly("test-type".into()),
        LinkMatch::Any,
    );
    let expected = format!(
        r#"{{"ok":true,"value":"{{\"links\":[{{\"address\":\"{}\",\"headers\":[],\"tag\":\"{}\",\"status\":\"live\"}},{{\"address\":\"{}\",\"headers\":[],\"tag\":\"{}\",\"status\":\"live\"}}]}}","error":"null"}}"#,
        entry_addresses[1], "test-tag1", entry_addresses[1], "test-tag2",
    ) + "\u{0}";
    assert_eq!(call_result, expected,);
}

#[test]
fn links_added_once_each_then_again() {
    let mut store = DhtStore::new();
    let entry_addresses = add_test_entries(&mut store);
    let b = &entry_addresses[0];
    let x = &entry_addresses[1];
    let y = &entry_addresses[2];
    store.add_link(LinkData::new(b, x, "t", "g"));
    store.add_link(LinkData::new(b, y, "t", "g"));
    let query = |store: &DhtStore, tag: &str| {
        let args = GetLinksArgs {
            entry_address: b.clone(),
            link_type: LinkMatch::Exactly("t".into()),
            tag: LinkMatch::Exactly(tag.into()),
            options: GetLinksOptions::default(),
        };
        store.get_links_result(&args, MAX_HOPS)
    };
    let mut found = query(&store, "g").unwrap().addresses();
    found.sort();
    let mut expected = vec![x.clone(), y.clone()];
    expected.sort();
    assert_eq!(found, expected);

    store.add_link(LinkData::new(b, x, "t", "g"));
    let again = query(&store, "g").unwrap().addresses();
    assert_eq!(again.len(), 2);
    assert_eq!(again.iter().filter(|address| *address == x).count(), 1);

    let other = query(&store, "other").unwrap();
    assert!(other.links().is_empty());
}
