use holochain_core::entry::{ChainHeader, CrudStatus};
use holochain_core::error::HolochainError;
use holochain_core::links::{GetLinksResult, LinksResult};
use holochain_core::response::{
    header_json_of, store_result, write_call_result_json, write_header_json,
    write_link_answer_json, write_links_json,
};

fn header(link_update_delete: Option<&str>) -> ChainHeader {
    ChainHeader {
        entry_address: String::from("entry"),
        author: String::from("alice"),
        timestamp: String::from("2019-07-01T12:00:00+00:00"),
        link_update_delete: link_update_delete.map(String::from),
    }
}

#[test]
fn status_names() {
    assert_eq!(CrudStatus::Live.as_str(), "live");
    assert_eq!(CrudStatus::Modified.as_str(), "modified");
    assert_eq!(CrudStatus::Deleted.as_str(), "deleted");
}

#[test]
fn header_json_has_null_for_no_pointer() {
    assert_eq!(
        write_header_json("1", "2", "3", None),
        "{\"entry_address\":1,\"author\":2,\"timestamp\":3,\"link_update_delete\":null}"
    );
    assert_eq!(
        write_header_json("1", "2", "3", Some("4")),
        "{\"entry_address\":1,\"author\":2,\"timestamp\":3,\"link_update_delete\":4}"
    );
    assert_eq!(
        header_json_of(&header(Some("old"))),
        String::from(
            "{\"entry_address\":\"entry\",\"author\":\"alice\",\"timestamp\":\"2019-07-01T12:00:00+00:00\",\"link_update_delete\":\"old\"}"
        )
    );
}

#[test]
fn answer_json_is_assembled_from_its_parts() {
    assert_eq!(
        write_link_answer_json("A", &vec![String::from("H1"), String::from("H2")], "T", CrudStatus::Deleted),
        "{\"address\":A,\"headers\":[H1,H2],\"tag\":T,\"status\":\"deleted\"}"
    );
    assert_eq!(write_links_json(&vec![]), "{\"links\":[]}");
    assert_eq!(
        write_links_json(&vec![String::from("1"), String::from("2")]),
        "{\"links\":[1,2]}"
    );
    assert_eq!(
        write_call_result_json(true, "V", "E"),
        "{\"ok\":true,\"value\":V,\"error\":E}"
    );
    assert_eq!(
        write_call_result_json(false, "V", "E"),
        "{\"ok\":false,\"value\":V,\"error\":E}"
    );
}

#[test]
fn answer_with_headers_as_json() {
    let result = GetLinksResult::new(vec![LinksResult {
        address: String::from("target"),
        headers: vec![header(None)],
        tag: String::from("a \"tag\""),
        status: CrudStatus::Modified,
        crud_link: Some(String::from("next")),
    }]);
    assert_eq!(
        result.to_json(),
        String::from(
            "{\"links\":[{\"address\":\"target\",\"headers\":[{\"entry_address\":\"entry\",\"author\":\"alice\",\"timestamp\":\"2019-07-01T12:00:00+00:00\",\"link_update_delete\":null}],\"tag\":\"a \\\"tag\\\"\",\"status\":\"modified\"}]}"
        )
    );
}

#[test]
fn failed_query_as_response() {
    assert_eq!(
        store_result(&Err(HolochainError::ErrorGeneric(String::from("Could not get links")))),
        String::from(
            "{\"ok\":false,\"value\":\"null\",\"error\":\"{\\\"ErrorGeneric\\\":\\\"Could not get links\\\"}\"}"
        )
    );
    assert_eq!(
        store_result(&Err(HolochainError::Timeout)),
        String::from("{\"ok\":false,\"value\":\"null\",\"error\":\"\\\"Timeout\\\"\"}")
    );
    assert_eq!(HolochainError::Timeout.message(), "timeout");
    assert_eq!(
        HolochainError::NotImplemented(String::from("x")).to_json(),
        String::from("{\"NotImplemented\":\"x\"}")
    );
    assert_eq!(
        HolochainError::ValidationFailed(String::from("x")).to_json(),
        String::from("{\"ValidationFailed\":\"x\"}")
    );
}

#[test]
fn empty_answer_as_response() {
    assert_eq!(
        store_result(&Ok(GetLinksResult::new(vec![]))),
        String::from("{\"ok\":true,\"value\":\"{\\\"links\\\":[]}\",\"error\":\"null\"}")
    );
}
