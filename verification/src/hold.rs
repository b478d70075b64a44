//! The hold workflows: validate an aspect, then persist it.
//!
//! A workflow neither fetches, validates nor stores anything itself. It is
//! a state machine: its caller starts it, carries out each command it gives
//! and hands back what came of it; the workflow answers with the next
//! command. All five workflows share one skeleton: obtain a validation
//! package, validate against it, persist, and only then report success.

use crate::address::Address;
use crate::aspect::EntryAspectView;
use crate::content::entry_address;
use crate::entry::{
    clone_addresses, Entry, EntryView, EntryWithHeader, EntryWithHeaderView, LinkData,
    LinkDataView,
};
use crate::error::{HolochainError, HolochainErrorView};
use crate::store::{store_decision, HoldWorkflow};
use crate::views::seq_view;
use vstd::prelude::*;

verus! {

/// The stage of an entry's life at which it is validated.
#[derive(Clone, Copy, Debug, PartialEq, Eq, Structural)]
pub enum EntryLifecycle {
    /// The entry is validated as content of its author's chain.
    Chain,
    /// The entry is validated as metadata of another entry.
    Meta,
}

/// What an entry is validated against: a validation package, and the stage
/// of the entry's life. The package is whatever the provider of validation
/// packages supplies; the workflow passes it on unread.
#[derive(Debug, PartialEq, Eq)]
pub struct ValidationData<P> {
    pub package: P,
    pub lifecycle: EntryLifecycle,
}

/// What a workflow persists once its entry is valid.
#[derive(Debug, PartialEq, Eq)]
pub enum StoreAction {
    /// Commit the content of the entry.
    HoldEntry(EntryWithHeader),
    /// Register a link in the index.
    AddLink(LinkData),
    /// Withdraw a link from the index, with the addresses of the link
    /// additions withdrawn.
    RemoveLink(LinkData, Vec<Address>),
    /// Record that the entry at `old` has been replaced by the one at `new`.
    UpdateEntry { old: Address, new: Address },
    /// Record that the entry at `deleted` has been deleted by the marker at
    /// `deletion`.
    RemoveEntry { deleted: Address, deletion: Address },
}

/// Mathematical model of a [`StoreAction`].
pub enum StoreActionView {
    HoldEntry(EntryWithHeaderView),
    AddLink(LinkDataView),
    RemoveLink(LinkDataView, Seq<Seq<char>>),
    UpdateEntry { old: Seq<char>, new: Seq<char> },
    RemoveEntry { deleted: Seq<char>, deletion: Seq<char> },
}

impl View for StoreAction {
    type V = StoreActionView;

    open spec fn view(&self) -> StoreActionView {
        match self {
            StoreAction::HoldEntry(entry_with_header) => StoreActionView::HoldEntry(
                entry_with_header@,
            ),
            StoreAction::AddLink(link) => StoreActionView::AddLink(link@),
            StoreAction::RemoveLink(link, removed) => StoreActionView::RemoveLink(
                link@,
                seq_view(removed@),
            ),
            StoreAction::UpdateEntry { old, new } => StoreActionView::UpdateEntry {
                old: old@,
                new: new@,
            },
            StoreAction::RemoveEntry { deleted, deletion } => StoreActionView::RemoveEntry {
                deleted: deleted@,
                deletion: deletion@,
            },
        }
    }
}

impl Clone for StoreAction {
    fn clone(&self) -> (copy: Self)
        ensures
            copy@ == self@,
    {
        match self {
            StoreAction::HoldEntry(entry_with_header) => StoreAction::HoldEntry(
                entry_with_header.clone(),
            ),
            StoreAction::AddLink(link) => StoreAction::AddLink(link.clone()),
            StoreAction::RemoveLink(link, removed) => StoreAction::RemoveLink(
                link.clone(),
                clone_addresses(removed),
            ),
            StoreAction::UpdateEntry { old, new } => StoreAction::UpdateEntry {
                old: old.clone(),
                new: new.clone(),
            },
            StoreAction::RemoveEntry { deleted, deletion } => StoreAction::RemoveEntry {
                deleted: deleted.clone(),
                deletion: deletion.clone(),
            },
        }
    }
}

/// How far a workflow has come.
#[derive(Debug, PartialEq, Eq)]
pub enum HoldState {
    /// Nothing has been asked for yet.
    Start,
    /// A validation package has been asked for.
    AwaitingPackage(StoreAction),
    /// The entry is being validated.
    AwaitingValidation(StoreAction),
    /// The entry is being persisted.
    AwaitingStore,
    /// The workflow is over.
    Finished,
}

/// Mathematical model of a [`HoldState`].
pub enum HoldStateView {
    Start,
    AwaitingPackage(StoreActionView),
    AwaitingValidation(StoreActionView),
    AwaitingStore,
    Finished,
}

impl View for HoldState {
    type V = HoldStateView;

    open spec fn view(&self) -> HoldStateView {
        match self {
            HoldState::Start => HoldStateView::Start,
            HoldState::AwaitingPackage(action) => HoldStateView::AwaitingPackage(action@),
            HoldState::AwaitingValidation(action) => HoldStateView::AwaitingValidation(action@),
            HoldState::AwaitingStore => HoldStateView::AwaitingStore,
            HoldState::Finished => HoldStateView::Finished,
        }
    }
}

/// What came of the command that a workflow gave last.
#[derive(Debug, PartialEq, Eq)]
pub enum HoldEvent<P> {
    /// The workflow is started.
    Started,
    /// The provider of validation packages answered: with a package, with
    /// none, or not at all.
    PackageFetched(Result<Option<P>, HolochainError>),
    /// The validator accepted or rejected the entry.
    Validated(Result<(), HolochainError>),
    /// The store persisted the action, or failed to.
    Stored(Result<(), HolochainError>),
}

/// Mathematical model of a [`HoldEvent`].
pub enum HoldEventView<P> {
    Started,
    PackageFetched(Result<Option<P>, HolochainErrorView>),
    Validated(Result<(), HolochainErrorView>),
    Stored(Result<(), HolochainErrorView>),
}

/// The view of a collaborator's answer that carries no value.
pub open spec fn outcome_view(outcome: Result<(), HolochainError>) -> Result<
    (),
    HolochainErrorView,
> {
    match outcome {
        Ok(_) => Ok(()),
        Err(error) => Err(error@),
    }
}

impl<P> View for HoldEvent<P> {
    type V = HoldEventView<P>;

    open spec fn view(&self) -> HoldEventView<P> {
        match self {
            HoldEvent::Started => HoldEventView::Started,
            HoldEvent::PackageFetched(Ok(package)) => HoldEventView::PackageFetched(Ok(*package)),
            HoldEvent::PackageFetched(Err(error)) => HoldEventView::PackageFetched(Err(error@)),
            HoldEvent::Validated(outcome) => HoldEventView::Validated(outcome_view(*outcome)),
            HoldEvent::Stored(outcome) => HoldEventView::Stored(outcome_view(*outcome)),
        }
    }
}

/// What a workflow asks its caller to do next.
#[derive(Debug, PartialEq, Eq)]
pub enum HoldCommand<P> {
    /// Ask the provider for a validation package for the entry and its
    /// header.
    FetchValidationPackage,
    /// Validate the entry against this data.
    Validate(ValidationData<P>),
    /// Persist this action.
    Store(StoreAction),
    /// Stop: the workflow is over, with this result.
    Finish(Result<(), HolochainError>),
}

/// Mathematical model of a [`HoldCommand`].
pub enum HoldCommandView<P> {
    FetchValidationPackage,
    Validate(ValidationData<P>),
    Store(StoreActionView),
    Finish(Result<(), HolochainErrorView>),
}

impl<P> View for HoldCommand<P> {
    type V = HoldCommandView<P>;

    open spec fn view(&self) -> HoldCommandView<P> {
        match self {
            HoldCommand::FetchValidationPackage => HoldCommandView::FetchValidationPackage,
            HoldCommand::Validate(data) => HoldCommandView::Validate(*data),
            HoldCommand::Store(action) => HoldCommandView::Store(action@),
            HoldCommand::Finish(outcome) => HoldCommandView::Finish(outcome_view(*outcome)),
        }
    }
}

/// The stage of life at which a workflow has its entry validated: primary
/// content as part of a chain, links and changes of status as metadata.
pub open spec fn lifecycle_of(workflow: HoldWorkflow) -> EntryLifecycle {
    match workflow {
        HoldWorkflow::HoldEntry => EntryLifecycle::Chain,
        _ => EntryLifecycle::Meta,
    }
}

/// The error of a workflow that was given an entry of another kind than
/// the one it holds.
pub open spec fn wrong_entry(workflow: HoldWorkflow) -> HolochainErrorView {
    HolochainErrorView::ErrorGeneric(
        match workflow {
            HoldWorkflow::HoldLink => "hold_link_workflow expects entry to be an Entry::LinkAdd"@,
            HoldWorkflow::RemoveLink =>
                "remove_link_workflow expects entry to be an Entry::LinkRemove"@,
            _ => "hold_remove_workflow expects entry to be an Entry::Deletion"@,
        },
    )
}

/// The error of an update whose header does not say what it replaces.
pub open spec fn no_link_update() -> HolochainErrorView {
    HolochainErrorView::ErrorGeneric("Could not get link update from header"@)
}

/// The error of a workflow for which no validation package could be had.
pub open spec fn no_validation_package() -> HolochainErrorView {
    HolochainErrorView::ErrorGeneric("Could not get validation package from source"@)
}

/// The error of a workflow that was handed an answer it had not asked for.
pub open spec fn unexpected_event() -> HolochainErrorView {
    HolochainErrorView::ErrorGeneric("unexpected event in hold workflow"@)
}

/// What a workflow persists for an entry and its header once the entry is
/// valid, or why the workflow cannot hold that entry.
pub open spec fn store_action(workflow: HoldWorkflow, held: EntryWithHeaderView) -> Result<
    StoreActionView,
    HolochainErrorView,
> {
    match workflow {
        HoldWorkflow::HoldEntry => Ok(StoreActionView::HoldEntry(held)),
        HoldWorkflow::HoldLink => match held.entry {
            EntryView::LinkAdd(link) => Ok(StoreActionView::AddLink(link)),
            _ => Err(wrong_entry(workflow)),
        },
        HoldWorkflow::RemoveLink => match held.entry {
            EntryView::LinkRemove(link, removed) => Ok(StoreActionView::RemoveLink(link, removed)),
            _ => Err(wrong_entry(workflow)),
        },
        HoldWorkflow::HoldUpdate => match held.header.link_update_delete {
            None => Err(no_link_update()),
            Some(old) => Ok(StoreActionView::UpdateEntry { old, new: entry_address(held.entry) }),
        },
        HoldWorkflow::HoldRemove => match held.entry {
            EntryView::Deletion(deleted) => Ok(
                StoreActionView::RemoveEntry { deleted, deletion: entry_address(held.entry) },
            ),
            _ => Err(wrong_entry(workflow)),
        },
    }
}

/// The view of a planned store action.
pub open spec fn plan_view(plan: Result<StoreAction, HolochainError>) -> Result<
    StoreActionView,
    HolochainErrorView,
> {
    match plan {
        Ok(action) => Ok(action@),
        Err(error) => Err(error@),
    }
}

/// Works out what a workflow persists for an entry and its header, or why
/// it cannot hold that entry.
pub fn plan_store_action(workflow: HoldWorkflow, held: &EntryWithHeader) -> (plan: Result<
    StoreAction,
    HolochainError,
>)
    ensures
        plan_view(plan) == store_action(workflow, held@),
{
    match workflow {
        HoldWorkflow::HoldEntry => Ok(StoreAction::HoldEntry(held.clone())),
        HoldWorkflow::HoldLink => match &held.entry {
            Entry::LinkAdd(link) => Ok(StoreAction::AddLink(link.clone())),
            _ => Err(
                HolochainError::generic("hold_link_workflow expects entry to be an Entry::LinkAdd"),
            ),
        },
        HoldWorkflow::RemoveLink => match &held.entry {
            Entry::LinkRemove((link, removed)) => Ok(
                StoreAction::RemoveLink(link.clone(), clone_addresses(removed)),
            ),
            _ => Err(
                HolochainError::generic(
                    "remove_link_workflow expects entry to be an Entry::LinkRemove",
                ),
            ),
        },
        HoldWorkflow::HoldUpdate => match held.header.link_update_delete() {
            None => Err(HolochainError::generic("Could not get link update from header")),
            Some(old) => Ok(StoreAction::UpdateEntry { old, new: held.entry.address() }),
        },
        HoldWorkflow::HoldRemove => match &held.entry {
            Entry::Deletion(deletion_entry) => Ok(
                StoreAction::RemoveEntry {
                    deleted: deletion_entry.deleted_entry_address().clone(),
                    deletion: held.entry.address(),
                },
            ),
            _ => Err(
                HolochainError::generic(
                    "hold_remove_workflow expects entry to be an Entry::Deletion",
                ),
            ),
        },
    }
}

/// The next state and command of a workflow, from its state and the answer
/// to its last command.
///
/// A started workflow asks for a validation package, unless it cannot hold
/// the entry. With a package it asks for validation; with none, or with a
/// failure, it ends in an error. Once the entry is accepted it asks for the
/// store action; a rejection ends it in the validator's error. Once the
/// action is persisted it ends in success; a failure to persist ends it in
/// the store's error. An answer that was not asked for ends it in an error.
pub open spec fn hold_step<P>(
    workflow: HoldWorkflow,
    held: EntryWithHeaderView,
    state: HoldStateView,
    event: HoldEventView<P>,
) -> (HoldStateView, HoldCommandView<P>) {
    match (state, event) {
        (HoldStateView::Start, HoldEventView::Started) => match store_action(workflow, held) {
            Ok(action) => (
                HoldStateView::AwaitingPackage(action),
                HoldCommandView::FetchValidationPackage,
            ),
            Err(error) => (HoldStateView::Finished, HoldCommandView::Finish(Err(error))),
        },
        (HoldStateView::AwaitingPackage(action), HoldEventView::PackageFetched(Ok(Some(package)))) => (
            HoldStateView::AwaitingValidation(action),
            HoldCommandView::Validate(ValidationData { package, lifecycle: lifecycle_of(workflow) }),
        ),
        (HoldStateView::AwaitingPackage(_), HoldEventView::PackageFetched(Ok(None))) => (
            HoldStateView::Finished,
            HoldCommandView::Finish(Err(no_validation_package())),
        ),
        (HoldStateView::AwaitingPackage(_), HoldEventView::PackageFetched(Err(error))) => (
            HoldStateView::Finished,
            HoldCommandView::Finish(Err(error)),
        ),
        (HoldStateView::AwaitingValidation(action), HoldEventView::Validated(Ok(_))) => (
            HoldStateView::AwaitingStore,
            HoldCommandView::Store(action),
        ),
        (HoldStateView::AwaitingValidation(_), HoldEventView::Validated(Err(error))) => (
            HoldStateView::Finished,
            HoldCommandView::Finish(Err(error)),
        ),
        (HoldStateView::AwaitingStore, HoldEventView::Stored(outcome)) => (
            HoldStateView::Finished,
            HoldCommandView::Finish(outcome),
        ),
        _ => (HoldStateView::Finished, HoldCommandView::Finish(Err(unexpected_event()))),
    }
}

/// Takes one step of a hold workflow: from the state of the workflow and
/// the answer to its last command, gives the next state and command.
pub fn hold_workflow<P>(
    workflow: HoldWorkflow,
    entry_with_header: &EntryWithHeader,
    state: HoldState,
    event: HoldEvent<P>,
) -> (next: (HoldState, HoldCommand<P>))
    ensures
        (next.0@, next.1@) == hold_step(workflow, entry_with_header@, state@, event@),
{
    match (state, event) {
        (HoldState::Start, HoldEvent::Started) => match plan_store_action(
            workflow,
            entry_with_header,
        ) {
            Ok(action) => (HoldState::AwaitingPackage(action), HoldCommand::FetchValidationPackage),
            Err(error) => (HoldState::Finished, HoldCommand::Finish(Err(error))),
        },
        (HoldState::AwaitingPackage(action), HoldEvent::PackageFetched(Ok(Some(package)))) => {
            let lifecycle = match workflow {
                HoldWorkflow::HoldEntry => EntryLifecycle::Chain,
                _ => EntryLifecycle::Meta,
            };
            (
                HoldState::AwaitingValidation(action),
                HoldCommand::Validate(ValidationData { package, lifecycle }),
            )
        },
        (HoldState::AwaitingPackage(_), HoldEvent::PackageFetched(Ok(None))) => (
            HoldState::Finished,
            HoldCommand::Finish(
                Err(HolochainError::generic("Could not get validation package from source")),
            ),
        ),
        (HoldState::AwaitingPackage(_), HoldEvent::PackageFetched(Err(error))) => (
            HoldState::Finished,
            HoldCommand::Finish(Err(error)),
        ),
        (HoldState::AwaitingValidation(action), HoldEvent::Validated(Ok(_))) => (
            HoldState::AwaitingStore,
            HoldCommand::Store(action),
        ),
        (HoldState::AwaitingValidation(_), HoldEvent::Validated(Err(error))) => (
            HoldState::Finished,
            HoldCommand::Finish(Err(error)),
        ),
        (HoldState::AwaitingStore, HoldEvent::Stored(outcome)) => (
            HoldState::Finished,
            HoldCommand::Finish(outcome),
        ),
        _ => (
            HoldState::Finished,
            HoldCommand::Finish(Err(HolochainError::generic("unexpected event in hold workflow"))),
        ),
    }
}

/// Takes one step of the workflow that holds the removal of a link: it
/// expects a link removal, validates it as metadata, and then withdraws the
/// link from the index.
pub fn remove_link_workflow<P>(
    entry_with_header: &EntryWithHeader,
    state: HoldState,
    event: HoldEvent<P>,
) -> (next: (HoldState, HoldCommand<P>))
    ensures
        (next.0@, next.1@) == hold_step(
            HoldWorkflow::RemoveLink,
            entry_with_header@,
            state@,
            event@,
        ),
{
    hold_workflow(HoldWorkflow::RemoveLink, entry_with_header, state, event)
}

/// The commands that a workflow gives, one for each event, when it is in
/// `state` and is handed `events` in turn.
pub open spec fn hold_run<P>(
    workflow: HoldWorkflow,
    held: EntryWithHeaderView,
    state: HoldStateView,
    events: Seq<HoldEventView<P>>,
) -> Seq<HoldCommandView<P>>
    decreases events.len(),
{
    if events.len() == 0 {
        Seq::empty()
    } else {
        let next = hold_step(workflow, held, state, events[0]);
        seq![next.1] + hold_run(workflow, held, next.0, events.drop_first())
    }
}

/// The command that reports success.
pub open spec fn finish_ok<P>() -> HoldCommandView<P> {
    HoldCommandView::Finish(Ok(()))
}

/// Whether an event brings a validation package.
pub open spec fn brings_package<P>(event: HoldEventView<P>) -> bool {
    event matches HoldEventView::PackageFetched(Ok(Some(_)))
}

/// Whether an event says that the validator accepted the entry.
pub open spec fn accepts<P>(event: HoldEventView<P>) -> bool {
    event matches HoldEventView::Validated(Ok(_))
}

/// Whether an event says that the store persisted the action.
pub open spec fn persisted<P>(event: HoldEventView<P>) -> bool {
    event matches HoldEventView::Stored(Ok(_))
}

/// A workflow gives one command for each event.
proof fn lemma_run_length<P>(
    workflow: HoldWorkflow,
    held: EntryWithHeaderView,
    state: HoldStateView,
    events: Seq<HoldEventView<P>>,
)
    ensures
        hold_run(workflow, held, state, events).len() == events.len(),
    decreases events.len(),
{
    if events.len() > 0 {
        let next = hold_step(workflow, held, state, events[0]);
        lemma_run_length(workflow, held, next.0, events.drop_first());
    }
}

/// A workflow that is over turns every further answer away.
proof fn lemma_run_when_finished<P>(
    workflow: HoldWorkflow,
    held: EntryWithHeaderView,
    events: Seq<HoldEventView<P>>,
    i: int,
)
    requires
        0 <= i < events.len(),
    ensures
        hold_run(workflow, held, HoldStateView::Finished, events)[i] == HoldCommandView::<
            P,
        >::Finish(Err(unexpected_event())),
    decreases events.len(),
{
    let rest = events.drop_first();
    lemma_run_length(workflow, held, HoldStateView::Finished, rest);
    if i > 0 {
        lemma_run_when_finished(workflow, held, rest, i - 1);
    }
}

/// A workflow that waits for the store asks for nothing more to be
/// persisted, and reports success only at once, on the store's success.
proof fn lemma_run_when_storing<P>(
    workflow: HoldWorkflow,
    held: EntryWithHeaderView,
    events: Seq<HoldEventView<P>>,
    i: int,
)
    requires
        0 <= i < events.len(),
    ensures
        !(hold_run(workflow, held, HoldStateView::AwaitingStore, events)[i] is Store),
        hold_run(workflow, held, HoldStateView::AwaitingStore, events)[i] == finish_ok::<P>() ==> i
            == 0 && persisted(events[0]),
{
    let rest = events.drop_first();
    let next = hold_step(workflow, held, HoldStateView::AwaitingStore, events[0]);
    lemma_run_length(workflow, held, next.0, rest);
    if i > 0 {
        lemma_run_when_finished(workflow, held, rest, i - 1);
    }
}

/// A workflow that waits for the validator asks for its action to be
/// persisted only at once, on acceptance, and reports success only after
/// that action was persisted.
proof fn lemma_run_when_validating<P>(
    workflow: HoldWorkflow,
    held: EntryWithHeaderView,
    action: StoreActionView,
    events: Seq<HoldEventView<P>>,
    i: int,
)
    requires
        0 <= i < events.len(),
    ensures
        hold_run(workflow, held, HoldStateView::AwaitingValidation(action), events)[i] is Store
            ==> i == 0 && accepts(events[0]) && hold_run(
            workflow,
            held,
            HoldStateView::AwaitingValidation(action),
            events,
        )[i] == HoldCommandView::<P>::Store(action),
        hold_run(workflow, held, HoldStateView::AwaitingValidation(action), events)[i]
            == finish_ok::<P>() ==> i == 1 && accepts(events[0]) && persisted(events[1]),
{
    let rest = events.drop_first();
    let next = hold_step(workflow, held, HoldStateView::AwaitingValidation(action), events[0]);
    lemma_run_length(workflow, held, next.0, rest);
    if i > 0 {
        if next.0 is Finished {
            lemma_run_when_finished(workflow, held, rest, i - 1);
        } else {
            lemma_run_when_storing(workflow, held, rest, i - 1);
        }
    }
}

/// A workflow that waits for a validation package asks for its action to be
/// persisted only after a package came and the entry was accepted, and
/// reports success only after that action was persisted.
proof fn lemma_run_when_fetching<P>(
    workflow: HoldWorkflow,
    held: EntryWithHeaderView,
    action: StoreActionView,
    events: Seq<HoldEventView<P>>,
    i: int,
)
    requires
        0 <= i < events.len(),
    ensures
        hold_run(workflow, held, HoldStateView::AwaitingPackage(action), events)[i] is Store ==> i
            == 1 && brings_package(events[0]) && accepts(events[1]) && hold_run(
            workflow,
            held,
            HoldStateView::AwaitingPackage(action),
            events,
        )[i] == HoldCommandView::<P>::Store(action),
        hold_run(workflow, held, HoldStateView::AwaitingPackage(action), events)[i] == finish_ok::<
            P,
        >() ==> i == 2 && brings_package(events[0]) && accepts(events[1]) && persisted(events[2]),
{
    let rest = events.drop_first();
    let next = hold_step(workflow, held, HoldStateView::AwaitingPackage(action), events[0]);
    lemma_run_length(workflow, held, next.0, rest);
    if i > 0 {
        if next.0 is Finished {
            lemma_run_when_finished(workflow, held, rest, i - 1);
        } else {
            lemma_run_when_validating(workflow, held, action, rest, i - 1);
        }
    }
}

/// However a workflow is driven from its start, it gives one command for
/// each event, and:
/// - it asks for an action to be persisted only as its third command, after
///   a validation package was brought and the validator accepted the entry,
///   and the action is the one that belongs to the entry;
/// - it reports success only as its fourth command, after the store
///   persisted that action.
///
/// So an entry that was not validated leaves no trace, and no success is
/// reported before the action is persisted.
pub proof fn lemma_hold_validates_before_it_stores<P>(
    workflow: HoldWorkflow,
    held: EntryWithHeaderView,
    events: Seq<HoldEventView<P>>,
    i: int,
)
    requires
        0 <= i < events.len(),
    ensures
        hold_run(workflow, held, HoldStateView::Start, events).len() == events.len(),
        hold_run(workflow, held, HoldStateView::Start, events)[i] is Store ==> {
            &&& i == 2
            &&& events[0] is Started
            &&& brings_package(events[1])
            &&& accepts(events[2])
            &&& store_action(workflow, held) is Ok
            &&& hold_run(workflow, held, HoldStateView::Start, events)[i] == HoldCommandView::<
                P,
            >::Store(store_action(workflow, held)->Ok_0)
        },
        hold_run(workflow, held, HoldStateView::Start, events)[i] == finish_ok::<P>() ==> {
            &&& i == 3
            &&& events[0] is Started
            &&& brings_package(events[1])
            &&& accepts(events[2])
            &&& persisted(events[3])
            &&& hold_run(workflow, held, HoldStateView::Start, events)[2] is Store
        },
{
    let rest = events.drop_first();
    let next = hold_step(workflow, held, HoldStateView::Start, events[0]);
    lemma_run_length(workflow, held, HoldStateView::Start, events);
    lemma_run_length(workflow, held, next.0, rest);
    if i > 0 {
        match next.0 {
            HoldStateView::AwaitingPackage(action) => {
                lemma_run_when_fetching(workflow, held, action, rest, i - 1);
                if i == 3 {
                    lemma_run_when_fetching(workflow, held, action, rest, 1);
                    let second = hold_step(workflow, held, next.0, rest[0]);
                    let third = hold_step(workflow, held, second.0, rest.drop_first()[0]);
                    lemma_run_length(workflow, held, second.0, rest.drop_first());
                    lemma_run_length(
                        workflow,
                        held,
                        third.0,
                        rest.drop_first().drop_first(),
                    );
                }
            },
            _ => {
                lemma_run_when_finished(workflow, held, rest, i - 1);
            },
        }
    }
}

/// The state that a workflow is in after it was in `state` and was handed
/// `events` in turn.
pub open spec fn hold_state_after<P>(
    workflow: HoldWorkflow,
    held: EntryWithHeaderView,
    state: HoldStateView,
    events: Seq<HoldEventView<P>>,
) -> HoldStateView
    decreases events.len(),
{
    if events.len() == 0 {
        state
    } else {
        hold_state_after(
            workflow,
            held,
            hold_step(workflow, held, state, events[0]).0,
            events.drop_first(),
        )
    }
}

/// How many answers a workflow in `state` takes at most before it is over.
pub open spec fn answers_until_over(state: HoldStateView) -> nat {
    match state {
        HoldStateView::Start => 4,
        HoldStateView::AwaitingPackage(_) => 3,
        HoldStateView::AwaitingValidation(_) => 2,
        HoldStateView::AwaitingStore => 1,
        HoldStateView::Finished => 0,
    }
}

/// Every answer brings a workflow that is not over closer to its end, and a
/// workflow that is over stays so: after four answers, whatever they are, a
/// workflow is over.
pub proof fn lemma_hold_comes_to_an_end<P>(
    workflow: HoldWorkflow,
    held: EntryWithHeaderView,
    state: HoldStateView,
    events: Seq<HoldEventView<P>>,
)
    requires
        events.len() >= answers_until_over(state),
    ensures
        hold_state_after(workflow, held, state, events) is Finished,
    decreases events.len(),
{
    if events.len() > 0 {
        let next = hold_step(workflow, held, state, events[0]).0;
        lemma_hold_comes_to_an_end(workflow, held, next, events.drop_first());
    }
}

/// The commands that follow from an aspect: those of the workflow that the
/// dispatcher names for it, driven from its start with `events`; none for an
/// aspect that the dispatcher turns away.
pub open spec fn commands_for_aspect<P>(
    decoded: Option<EntryAspectView>,
    events: Seq<HoldEventView<P>>,
) -> Seq<HoldCommandView<P>> {
    match store_decision(decoded) {
        Ok(request) => hold_run(
            request.workflow,
            request.entry_with_header,
            HoldStateView::Start,
            events,
        ),
        Err(_) => Seq::empty(),
    }
}

/// No link is registered whose header does not account for it: whatever
/// aspect arrives and however its workflow is driven, a command to register
/// a link stems from a link addition of which the address implied by the
/// link data is the entry address that the header records, and comes only
/// after the link addition was validated.
pub proof fn lemma_stored_links_are_accounted_for<P>(
    decoded: Option<EntryAspectView>,
    events: Seq<HoldEventView<P>>,
    i: int,
)
    requires
        0 <= i < commands_for_aspect(decoded, events).len(),
        commands_for_aspect(decoded, events)[i] matches HoldCommandView::Store(
            StoreActionView::AddLink(_),
        ),
    ensures
        decoded matches Some(EntryAspectView::LinkAdd(link, header)) && {
            &&& entry_address(EntryView::LinkAdd(link)) == header.entry_address
            &&& commands_for_aspect(decoded, events)[i] == HoldCommandView::<P>::Store(
                StoreActionView::AddLink(link),
            )
            &&& i == 2
            &&& brings_package(events[1])
            &&& accepts(events[2])
        },
{
    let request = store_decision(decoded)->Ok_0;
    lemma_run_length(
        request.workflow,
        request.entry_with_header,
        HoldStateView::Start,
        events,
    );
    lemma_hold_validates_before_it_stores(request.workflow, request.entry_with_header, events, i);
}

} // verus!
