use holochain_core::entry_type::EntryType;

fn test_types() -> Vec<EntryType> {
    vec![
        EntryType::AgentId,
        EntryType::Deletion,
        EntryType::App(String::from("foo")),
        EntryType::Dna,
        EntryType::ChainHeader,
        EntryType::Key,
        EntryType::Link,
        EntryType::Migration,
        EntryType::LinkList,
    ]
}

#[test]
fn entry_type_kind() {
    assert!(EntryType::App(String::new()).is_app());
    assert!(!EntryType::App(String::new()).is_sys());
    assert!(EntryType::AgentId.is_sys());
    assert!(!EntryType::AgentId.is_app());
}

#[test]
fn entry_type_valid_app_name() {
    assert!(EntryType::has_valid_app_name("agent_id"));
    assert!(!EntryType::has_valid_app_name("%agent_id"));
    assert!(!EntryType::has_valid_app_name(EntryType::AgentId.as_str()));
    assert!(!EntryType::has_valid_app_name(&String::new()));
    assert!(EntryType::has_valid_app_name("toto"));
    assert!(!EntryType::has_valid_app_name("%%"));
}

#[test]
fn entry_type_as_str() {
    for (type_str, variant) in vec![
        ("%agent_id", EntryType::AgentId),
        ("%deletion", EntryType::Deletion),
        ("%dna", EntryType::Dna),
        ("%chain_header", EntryType::ChainHeader),
        ("%key", EntryType::Key),
        ("%link", EntryType::Link),
        ("%migration", EntryType::Migration),
    ] {
        assert_eq!(
            variant,
            EntryType::from_str(type_str).expect("could not convert str to EntryType")
        );

        assert_eq!(type_str, variant.as_str(),);
    }
}

#[test]
fn can_publish_test() {
    for t in test_types() {
        match t {
            EntryType::Dna => assert!(!t.can_publish()),
            _ => assert!(t.can_publish()),
        }
    }
}

#[test]
fn entry_type_link_list_round_trip() {
    assert_eq!(EntryType::from_str("%link_list"), Ok(EntryType::LinkList));
    assert_eq!(EntryType::LinkList.as_str(), "%link_list");
}

#[test]
fn entry_type_unreserved_name_is_app() {
    assert_eq!(
        EntryType::from_str("post"),
        Ok(EntryType::App(String::from("post")))
    );
    assert_eq!(EntryType::from_str(""), Ok(EntryType::App(String::new())));
    assert_eq!(EntryType::from_str("dna"), Ok(EntryType::App(String::from("dna"))));
    assert_eq!(EntryType::App(String::from("post")).as_str(), "post");
}

#[test]
fn entry_type_valid_app_name_multibyte_first_char() {
    assert!(EntryType::has_valid_app_name("\u{e9}t\u{e9}"));
}

#[test]
fn entry_type_parses_and_prints() {
    assert_eq!("%key".parse::<EntryType>(), Ok(EntryType::Key));
    assert_eq!("note".parse::<EntryType>(), Ok(EntryType::App(String::from("note"))));
    assert_eq!(EntryType::Migration.to_string(), "%migration");
    assert_eq!(EntryType::App(String::from("note")).to_string(), "note");
    assert_eq!(EntryType::ChainHeader.clone(), EntryType::ChainHeader);
}
