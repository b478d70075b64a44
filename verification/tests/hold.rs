use holochain_core::entry::{ChainHeader, DeletionEntry, Entry, EntryWithHeader, LinkData};
use holochain_core::error::HolochainError;
use holochain_core::hold::{
    hold_workflow, plan_store_action, remove_link_workflow, EntryLifecycle, HoldCommand,
    HoldEvent, HoldState, StoreAction, ValidationData,
};
use holochain_core::store::HoldWorkflow;

fn header(entry_address: &str, link_update_delete: Option<&str>) -> ChainHeader {
    ChainHeader {
        entry_address: String::from(entry_address),
        author: String::from("alice"),
        timestamp: String::from("2019-07-01T12:00:00+00:00"),
        link_update_delete: link_update_delete.map(String::from),
    }
}

fn link() -> LinkData {
    LinkData::new("base", "target", "type", "tag")
}

fn link_remove() -> EntryWithHeader {
    EntryWithHeader {
        entry: Entry::LinkRemove((link(), vec![String::from("link add")])),
        header: header("removal", None),
    }
}

fn generic(message: &str) -> HolochainError {
    HolochainError::ErrorGeneric(String::from(message))
}

#[test]
fn remove_link_runs_to_success() {
    let held = link_remove();
    let action = StoreAction::RemoveLink(link(), vec![String::from("link add")]);

    let (state, command) = remove_link_workflow::<u8>(&held, HoldState::Start, HoldEvent::Started);
    assert_eq!(state, HoldState::AwaitingPackage(action.clone()));
    assert_eq!(command, HoldCommand::FetchValidationPackage);

    let (state, command) =
        remove_link_workflow::<u8>(&held, state, HoldEvent::PackageFetched(Ok(Some(7u8))));
    assert_eq!(state, HoldState::AwaitingValidation(action.clone()));
    assert_eq!(
        command,
        HoldCommand::Validate(ValidationData { package: 7u8, lifecycle: EntryLifecycle::Meta })
    );

    let (state, command) = remove_link_workflow::<u8>(&held, state, HoldEvent::Validated(Ok(())));
    assert_eq!(state, HoldState::AwaitingStore);
    assert_eq!(command, HoldCommand::Store(action));

    let (state, command) = remove_link_workflow::<u8>(&held, state, HoldEvent::Stored(Ok(())));
    assert_eq!(state, HoldState::Finished);
    assert_eq!(command, HoldCommand::Finish(Ok(())));
}

#[test]
fn remove_link_expects_a_link_removal() {
    let held = EntryWithHeader { entry: Entry::LinkAdd(link()), header: header("add", None) };
    let (state, command) = remove_link_workflow::<u8>(&held, HoldState::Start, HoldEvent::Started);
    assert_eq!(state, HoldState::Finished);
    assert_eq!(
        command,
        HoldCommand::Finish(Err(generic(
            "remove_link_workflow expects entry to be an Entry::LinkRemove"
        )))
    );
}

#[test]
fn hold_fails_without_validation_package() {
    let held = link_remove();
    let (state, _) = remove_link_workflow::<u8>(&held, HoldState::Start, HoldEvent::Started);
    let (state, command) = remove_link_workflow::<u8>(&held, state, HoldEvent::PackageFetched(Ok(None)));
    assert_eq!(state, HoldState::Finished);
    assert_eq!(
        command,
        HoldCommand::Finish(Err(generic("Could not get validation package from source")))
    );

    let (state, _) = remove_link_workflow::<u8>(&held, HoldState::Start, HoldEvent::Started);
    let (state, command) = remove_link_workflow::<u8>(
        &held,
        state,
        HoldEvent::PackageFetched(Err(HolochainError::Timeout)),
    );
    assert_eq!(state, HoldState::Finished);
    assert_eq!(command, HoldCommand::Finish(Err(HolochainError::Timeout)));
}

#[test]
fn hold_stores_nothing_when_validation_rejects() {
    let held = link_remove();
    let (state, _) = remove_link_workflow::<u8>(&held, HoldState::Start, HoldEvent::Started);
    let (state, _) = remove_link_workflow::<u8>(&held, state, HoldEvent::PackageFetched(Ok(Some(1u8))));
    let rejected = HolochainError::ValidationFailed(String::from("not allowed"));
    let (state, command) =
        remove_link_workflow::<u8>(&held, state, HoldEvent::Validated(Err(rejected.clone())));
    assert_eq!(state, HoldState::Finished);
    assert_eq!(command, HoldCommand::Finish(Err(rejected)));
    let (state, command) = remove_link_workflow::<u8>(&held, state, HoldEvent::Stored(Ok(())));
    assert_eq!(state, HoldState::Finished);
    assert_eq!(command, HoldCommand::Finish(Err(generic("unexpected event in hold workflow"))));
}

#[test]
fn hold_reports_the_error_of_the_store() {
    let held = link_remove();
    let failure = generic("disk full");
    let (state, command) = remove_link_workflow::<u8>(
        &held,
        HoldState::AwaitingStore,
        HoldEvent::Stored(Err(failure.clone())),
    );
    assert_eq!(state, HoldState::Finished);
    assert_eq!(command, HoldCommand::Finish(Err(failure)));
}

#[test]
fn hold_turns_away_answers_it_did_not_ask_for() {
    let held = link_remove();
    let unexpected =
        || HoldCommand::Finish(Err(generic("unexpected event in hold workflow")));
    let (state, command) =
        remove_link_workflow::<u8>(&held, HoldState::Start, HoldEvent::Validated(Ok(())));
    assert_eq!((state, command), (HoldState::Finished, unexpected()));
    let (state, command) =
        remove_link_workflow::<u8>(&held, HoldState::Start, HoldEvent::Stored(Ok(())));
    assert_eq!((state, command), (HoldState::Finished, unexpected()));
    let (state, command) =
        remove_link_workflow::<u8>(&held, HoldState::Finished, HoldEvent::Started);
    assert_eq!((state, command), (HoldState::Finished, unexpected()));
}

#[test]
fn hold_entry_is_validated_as_chain_content() {
    let entry = Entry::App(String::from("post"), String::from("\"hello\""));
    let held = EntryWithHeader { entry, header: header("post address", None) };
    let (state, command) =
        hold_workflow::<u8>(HoldWorkflow::HoldEntry, &held, HoldState::Start, HoldEvent::Started);
    assert_eq!(state, HoldState::AwaitingPackage(StoreAction::HoldEntry(held.clone())));
    assert_eq!(command, HoldCommand::FetchValidationPackage);
    let (_, command) = hold_workflow::<u8>(
        HoldWorkflow::HoldEntry,
        &held,
        state,
        HoldEvent::PackageFetched(Ok(Some(3u8))),
    );
    assert_eq!(
        command,
        HoldCommand::Validate(ValidationData { package: 3u8, lifecycle: EntryLifecycle::Chain })
    );
}

#[test]
fn store_action_of_each_workflow() {
    let update = EntryWithHeader {
        entry: Entry::App(String::from("post"), String::from("\"second\"")),
        header: header("second address", Some("first address")),
    };
    assert_eq!(
        plan_store_action(HoldWorkflow::HoldUpdate, &update),
        Ok(StoreAction::UpdateEntry {
            old: String::from("first address"),
            new: update.entry.address(),
        })
    );
    let no_pointer = EntryWithHeader {
        entry: Entry::App(String::from("post"), String::from("\"second\"")),
        header: header("second address", None),
    };
    assert_eq!(
        plan_store_action(HoldWorkflow::HoldUpdate, &no_pointer),
        Err(generic("Could not get link update from header"))
    );

    let deletion = EntryWithHeader {
        entry: Entry::Deletion(DeletionEntry::new(String::from("first address"))),
        header: header("deletion address", Some("first address")),
    };
    assert_eq!(
        plan_store_action(HoldWorkflow::HoldRemove, &deletion),
        Ok(StoreAction::RemoveEntry {
            deleted: String::from("first address"),
            deletion: deletion.entry.address(),
        })
    );
    assert_eq!(
        plan_store_action(HoldWorkflow::HoldRemove, &update),
        Err(generic("hold_remove_workflow expects entry to be an Entry::Deletion"))
    );

    let add = EntryWithHeader { entry: Entry::LinkAdd(link()), header: header("add", None) };
    assert_eq!(plan_store_action(HoldWorkflow::HoldLink, &add), Ok(StoreAction::AddLink(link())));
    assert_eq!(
        plan_store_action(HoldWorkflow::HoldLink, &update),
        Err(generic("hold_link_workflow expects entry to be an Entry::LinkAdd"))
    );
    assert_eq!(
        plan_store_action(HoldWorkflow::RemoveLink, &link_remove()),
        Ok(StoreAction::RemoveLink(link(), vec![String::from("link add")]))
    );
}
