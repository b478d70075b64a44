use holochain_core::aspect::EntryAspect;
use holochain_core::entry::{ChainHeader, DeletionEntry, Entry, EntryWithHeader, LinkData};
use holochain_core::error::HolochainError;
use holochain_core::store::{handle_store, HoldQueue, HoldRequest, HoldWorkflow, StoreRejection};

fn header_for(entry_address: &str, link_update_delete: Option<&str>) -> ChainHeader {
    ChainHeader {
        entry_address: String::from(entry_address),
        author: String::from("alice"),
        timestamp: String::from("2019-07-01T12:00:00+00:00"),
        link_update_delete: link_update_delete.map(String::from),
    }
}

fn app_entry() -> Entry {
    Entry::App(String::from("post"), String::from("\"hello\""))
}

#[test]
fn store_unparseable_aspect_is_discarded() {
    assert_eq!(handle_store(None), Err(StoreRejection::UnparseableAspect));
}

#[test]
fn store_content_goes_to_hold_entry() {
    let entry = app_entry();
    let header = header_for(&entry.address(), None);
    assert_eq!(
        handle_store(Some(EntryAspect::Content(entry.clone(), header.clone()))),
        Ok(HoldRequest {
            workflow: HoldWorkflow::HoldEntry,
            entry_with_header: EntryWithHeader { entry, header },
        })
    );
}

#[test]
fn store_header_aspect_is_not_implemented() {
    assert_eq!(
        handle_store(Some(EntryAspect::Header(header_for("whatever", None)))),
        Err(StoreRejection::UnimplementedHeaderAspect)
    );
}

#[test]
fn store_link_add_with_matching_header_goes_to_hold_link() {
    let link = LinkData::new("base", "target", "type", "tag");
    let entry = Entry::LinkAdd(link.clone());
    let header = header_for(&entry.address(), None);
    assert_eq!(
        handle_store(Some(EntryAspect::LinkAdd(link, header.clone()))),
        Ok(HoldRequest {
            workflow: HoldWorkflow::HoldLink,
            entry_with_header: EntryWithHeader { entry, header },
        })
    );
}

#[test]
fn store_link_add_with_other_header_is_discarded() {
    let link = LinkData::new("base", "target", "type", "tag");
    let other = Entry::LinkAdd(LinkData::new("base", "target", "type", "other tag"));
    let header = header_for(&other.address(), None);
    assert_eq!(
        handle_store(Some(EntryAspect::LinkAdd(link.clone(), header))),
        Err(StoreRejection::LinkAddAddressMismatch)
    );
    assert_eq!(
        handle_store(Some(EntryAspect::LinkAdd(link, header_for("", None)))),
        Err(StoreRejection::LinkAddAddressMismatch)
    );
}

#[test]
fn store_link_remove_goes_to_remove_link() {
    let link = LinkData::new("base", "target", "type", "tag");
    let removed = vec![String::from("link add address")];
    let header = header_for("not checked here", None);
    assert_eq!(
        handle_store(Some(EntryAspect::LinkRemove(
            (link.clone(), removed.clone()),
            header.clone()
        ))),
        Ok(HoldRequest {
            workflow: HoldWorkflow::RemoveLink,
            entry_with_header: EntryWithHeader { entry: Entry::LinkRemove((link, removed)), header },
        })
    );
}

#[test]
fn store_update_goes_to_hold_update() {
    let entry = app_entry();
    let header = header_for(&entry.address(), Some("old address"));
    assert_eq!(
        handle_store(Some(EntryAspect::Update(entry.clone(), header.clone()))),
        Ok(HoldRequest {
            workflow: HoldWorkflow::HoldUpdate,
            entry_with_header: EntryWithHeader { entry, header },
        })
    );
}

#[test]
fn store_deletion_reconstructs_the_deletion_entry() {
    let header = header_for("deletion address", Some("deleted address"));
    assert_eq!(
        handle_store(Some(EntryAspect::Deletion(header.clone()))),
        Ok(HoldRequest {
            workflow: HoldWorkflow::HoldRemove,
            entry_with_header: EntryWithHeader {
                entry: Entry::Deletion(DeletionEntry::new(String::from("deleted address"))),
                header,
            },
        })
    );
}

#[test]
fn store_deletion_without_link_is_discarded() {
    assert_eq!(
        handle_store(Some(EntryAspect::Deletion(header_for("deletion address", None)))),
        Err(StoreRejection::DeletionWithoutLink)
    );
}

#[test]
fn rejections_as_errors() {
    assert_eq!(
        StoreRejection::UnimplementedHeaderAspect.to_error(),
        HolochainError::NotImplemented(String::from("unimplemented store aspect Header"))
    );
    assert_eq!(
        StoreRejection::UnparseableAspect.to_error(),
        HolochainError::ErrorGeneric(String::from("Unable to parse entry aspect"))
    );
    assert_eq!(
        StoreRejection::LinkAddAddressMismatch.to_error(),
        HolochainError::ErrorGeneric(String::from(
            "Got EntryAspect::LinkAdd with non-matching LinkData and ChainHeader! Hash of content in header does not match content! Ignoring."
        ))
    );
    assert_eq!(
        StoreRejection::DeletionWithoutLink.to_error(),
        HolochainError::ErrorGeneric(String::from(
            "Got EntryAspect::Deletion with header that has no deletion link! Ignoring."
        ))
    );
    assert_eq!(
        StoreRejection::QueueFull.to_error(),
        HolochainError::ErrorGeneric(String::from(
            "Too many aspects are waiting to be held. Ignoring."
        ))
    );
}

#[test]
fn queue_serves_requests_in_order_of_arrival() {
    let mut queue = HoldQueue::new(2);
    assert_eq!((queue.capacity(), queue.len()), (2, 0));
    assert_eq!(queue.take_next(), None);

    let first = EntryAspect::Update(app_entry(), header_for("first", Some("old")));
    let second = EntryAspect::Deletion(header_for("second", Some("deleted")));
    let third = EntryAspect::Content(app_entry(), header_for("third", None));
    assert_eq!(queue.dispatch(Some(first)), Ok(()));
    assert_eq!(queue.dispatch(Some(second)), Ok(()));
    assert_eq!(queue.len(), 2);
    assert_eq!(queue.dispatch(Some(third)), Err(StoreRejection::QueueFull));
    assert_eq!(queue.len(), 2);

    let next = queue.take_next().unwrap();
    assert_eq!(next.workflow, HoldWorkflow::HoldUpdate);
    assert_eq!(next.entry_with_header.header, header_for("first", Some("old")));
    assert_eq!(queue.len(), 1);
    let next = queue.take_next().unwrap();
    assert_eq!(next.workflow, HoldWorkflow::HoldRemove);
    assert_eq!(queue.take_next(), None);
}

#[test]
fn queue_takes_no_rejected_aspect() {
    let mut queue = HoldQueue::new(4);
    assert_eq!(queue.dispatch(None), Err(StoreRejection::UnparseableAspect));
    assert_eq!(
        queue.dispatch(Some(EntryAspect::Header(header_for("x", None)))),
        Err(StoreRejection::UnimplementedHeaderAspect)
    );
    assert_eq!(
        queue.dispatch(Some(EntryAspect::LinkAdd(
            LinkData::new("base", "target", "type", "tag"),
            header_for("not the address", None)
        ))),
        Err(StoreRejection::LinkAddAddressMismatch)
    );
    assert_eq!(
        queue.dispatch(Some(EntryAspect::Deletion(header_for("x", None)))),
        Err(StoreRejection::DeletionWithoutLink)
    );
    assert_eq!(queue.len(), 0);
}

#[test]
fn queue_without_room_turns_everything_away() {
    let mut queue = HoldQueue::new(0);
    let request = HoldRequest {
        workflow: HoldWorkflow::HoldEntry,
        entry_with_header: EntryWithHeader { entry: app_entry(), header: header_for("x", None) },
    };
    let refused = queue.submit(request);
    assert!(refused.is_some());
    assert_eq!(queue.len(), 0);
    assert_eq!(
        queue.dispatch(Some(EntryAspect::Content(app_entry(), header_for("x", None)))),
        Err(StoreRejection::QueueFull)
    );
    assert_eq!(queue.dispatch(None), Err(StoreRejection::UnparseableAspect));
}
