//! Calls on bottles: what is asked of the core library, and what is answered.

use vstd::prelude::*;
use crate::bottle::convert::{
    bottle_state_to_proto, convert_progress, failure_code, gamescope_from_proto,
    mangohud_from_proto, program_from_proto, progress_message, slot_from_proto, slot_message,
    snapshot_message, snapshot_to_proto, storage_from_proto, storage_message, to_status,
};
use crate::bottle::message;
use crate::bottle::model;
use crate::ids::{denotes, parse_id};
use crate::machine::{is_run, Machine};
use crate::status::{Code, CoreError, Status};

verus! {

/// A text stands for an identifier.
pub open spec fn is_id(text: Seq<char>) -> bool {
    exists|id: u128| denotes(text, id)
}

/// Reads an identifier, and refuses with a message a text that stands for none.
fn require_id(text: &str, message: &str) -> (r: Result<u128, Status>)
    ensures
        match r {
            Ok(id) => denotes(text@, id),
            Err(status) => !is_id(text@) && status.says(Code::InvalidArgument, message@),
        },
{
    match parse_id(text) {
        Some(id) => Ok(id),
        None => Err(Status::with(Code::InvalidArgument, message)),
    }
}

/// A change of a bottle, as the core library takes it.
#[derive(Debug)]
pub enum Edit {
    Rename(String),
    SetEnv(String, String),
    UnsetEnv(String),
    AddProgram(model::Program),
    RemoveProgram(u128),
    SetGamescope(model::GamescopeConfig),
    SetMangohud(model::MangoHudConfig),
}

impl message::Change {
    /// This change is taken as `edit`.
    pub open spec fn taken_as(self, edit: Edit) -> bool {
        match (self, edit) {
            (message::Change::Rename(name), Edit::Rename(taken)) => taken == name,
            (message::Change::SetEnv(var), Edit::SetEnv(key, value)) => key == var.key && value
                == var.value,
            (message::Change::UnsetEnv(key), Edit::UnsetEnv(taken)) => taken == key,
            (message::Change::AddProgram(program), Edit::AddProgram(taken)) => program.stands_for(
                taken,
            ),
            (message::Change::RemoveProgramId(text), Edit::RemoveProgram(id)) => denotes(
                text@,
                id,
            ),
            (message::Change::SetGamescope(config), Edit::SetGamescope(taken)) => config.gives(
                taken,
            ),
            (message::Change::SetMangohud(config), Edit::SetMangohud(taken)) => taken.enabled
                == config.enabled,
            _ => false,
        }
    }

    /// This change removes a program and gives no identifier of one.
    pub open spec fn is_flawed(self) -> bool {
        self matches message::Change::RemoveProgramId(text) && !is_id(text@)
    }
}

/// The edits are the changes of the operations, in order. An operation without a change
/// is left out.
pub open spec fn taken_in_order(operations: Seq<message::EditOperation>, edits: Seq<Edit>) -> bool
    decreases operations.len(),
{
    if operations.len() == 0 {
        edits.len() == 0
    } else {
        match operations.last().change {
            Some(change) => edits.len() > 0 && change.taken_as(edits.last()) && taken_in_order(
                operations.drop_last(),
                edits.drop_last(),
            ),
            None => taken_in_order(operations.drop_last(), edits),
        }
    }
}

/// One of the operations holds a change that is flawed.
pub open spec fn is_flawed(operations: Seq<message::EditOperation>) -> bool {
    exists|i: int|
        0 <= i < operations.len() && ((#[trigger] operations[i]).change matches Some(change)
            && change.is_flawed())
}

/// Takes a change, or refuses it.
fn take_change(change: message::Change) -> (r: Result<Edit, Status>)
    ensures
        match r {
            Ok(edit) => change.taken_as(edit) && !change.is_flawed(),
            Err(status) => change.is_flawed() && status.says(
                Code::InvalidArgument,
                "invalid remove_program_id"@,
            ),
        },
{
    match change {
        message::Change::Rename(name) => Ok(Edit::Rename(name)),
        message::Change::SetEnv(var) => Ok(Edit::SetEnv(var.key, var.value)),
        message::Change::UnsetEnv(key) => Ok(Edit::UnsetEnv(key)),
        message::Change::AddProgram(program) => Ok(Edit::AddProgram(program_from_proto(program))),
        message::Change::RemoveProgramId(text) => match require_id(
            text.as_str(),
            "invalid remove_program_id",
        ) {
            Ok(id) => Ok(Edit::RemoveProgram(id)),
            Err(status) => Err(status),
        },
        message::Change::SetGamescope(config) => Ok(
            Edit::SetGamescope(gamescope_from_proto(config)),
        ),
        message::Change::SetMangohud(config) => Ok(Edit::SetMangohud(mangohud_from_proto(config))),
    }
}

/// Takes the changes of some operations, or refuses them all for one that is flawed.
pub fn take_changes(operations: Vec<message::EditOperation>) -> (r: Result<Vec<Edit>, Status>)
    ensures
        match r {
            Ok(edits) => !is_flawed(operations@) && taken_in_order(operations@, edits@),
            Err(status) => is_flawed(operations@) && status.says(
                Code::InvalidArgument,
                "invalid remove_program_id"@,
            ),
        },
{
    let mut edits: Vec<Edit> = Vec::new();
    for operation in it: operations
        invariant
            it.seq() == operations@,
            taken_in_order(operations@.take(it.index() as int), edits@),
            !is_flawed(operations@.take(it.index() as int)),
    {
        let ghost done = operations@.take(it.index() as int);
        let ghost more = operations@.take(it.index() + 1);
        assert(more.drop_last() =~= done);
        assert(more.last() == operation);
        let ghost before = edits@;
        match operation.change {
            Some(change) => match take_change(change) {
                Ok(edit) => {
                    edits.push(edit);
                    assert(edits@.drop_last() =~= before);
                },
                Err(status) => {
                    assert(operations@[it.index() as int] == operation);
                    return Err(status);
                },
            },
            None => {},
        }
        assert(!is_flawed(more)) by {
            assert forall|i: int| 0 <= i < more.len() implies !((#[trigger] more[i]).change matches
            Some(change) && change.is_flawed()) by {
                if i < done.len() {
                    assert(more[i] == done[i]);
                }
            }
        }
    }
    assert(operations@.take(operations@.len() as int) =~= operations@);
    Ok(edits)
}

/// What can be asked of a bottle.
#[derive(Debug)]
pub enum Action {
    Get,
    Watch,
    Edit { operations: Vec<message::EditOperation> },
    SetComponent { component_id: String },
    RemoveComponent { slot: message::Slot },
    InstallDependency { dependency_id: String },
    RunProgram { program_id: String },
    ListProcesses,
    KillProcess { program_id: String },
    Stop,
    ListDllOverrides,
    SetDllOverride { dll: String, mode: message::DllOverrideMode },
    UnsetDllOverride { dll: String },
    CreateSnapshot { message: String },
    ListSnapshots,
    Rollback { state_id_or_prefix: String },
}

/// What the core library is asked to do with an open bottle.
#[derive(Debug)]
pub enum Command {
    ReadState,
    Watch,
    Commit(Vec<Edit>),
    SetComponent(u128),
    RemoveComponent(model::Slot),
    Install(u128),
    Run(u128),
    ListProcesses,
    Kill(u128),
    Stop,
    ListDllOverrides,
    SetDllOverride(String, i32),
    UnsetDllOverride(String),
    CreateSnapshot(String),
    ListSnapshots,
    Rollback(String),
}

impl Action {
    /// The message that this action is refused with, where its arguments are flawed.
    pub open spec fn flaw(self) -> Option<Seq<char>> {
        match self {
            Action::Edit { operations } => if is_flawed(operations@) {
                Some("invalid remove_program_id"@)
            } else {
                None
            },
            Action::SetComponent { component_id } => if is_id(component_id@) {
                None
            } else {
                Some("invalid component_id"@)
            },
            Action::RemoveComponent { slot } => if slot == message::Slot::Unspecified
                || slot is Unrecognized {
                Some("slot is required"@)
            } else {
                None
            },
            Action::InstallDependency { dependency_id } => if is_id(dependency_id@) {
                None
            } else {
                Some("invalid dependency_id"@)
            },
            Action::RunProgram { program_id } | Action::KillProcess { program_id } => if is_id(
                program_id@,
            ) {
                None
            } else {
                Some("invalid program_id"@)
            },
            Action::SetDllOverride { dll, mode } => if mode.recognized {
                None
            } else {
                Some("invalid dll override mode"@)
            },
            _ => None,
        }
    }

    /// This action asks the core library for `command`.
    pub open spec fn asks(self, command: Command) -> bool {
        match (self, command) {
            (Action::Get, Command::ReadState) => true,
            (Action::Watch, Command::Watch) => true,
            (Action::Edit { operations }, Command::Commit(edits)) => taken_in_order(
                operations@,
                edits@,
            ),
            (Action::SetComponent { component_id }, Command::SetComponent(id)) => denotes(
                component_id@,
                id,
            ),
            (Action::RemoveComponent { slot }, Command::RemoveComponent(known)) => slot
                == slot_message(known),
            (Action::InstallDependency { dependency_id }, Command::Install(id)) => denotes(
                dependency_id@,
                id,
            ),
            (Action::RunProgram { program_id }, Command::Run(id)) => denotes(program_id@, id),
            (Action::ListProcesses, Command::ListProcesses) => true,
            (Action::KillProcess { program_id }, Command::Kill(id)) => denotes(program_id@, id),
            (Action::Stop, Command::Stop) => true,
            (Action::ListDllOverrides, Command::ListDllOverrides) => true,
            (Action::SetDllOverride { dll, mode }, Command::SetDllOverride(name, number)) => name
                == dll && number == mode.number,
            (Action::UnsetDllOverride { dll }, Command::UnsetDllOverride(name)) => name == dll,
            (Action::CreateSnapshot { message }, Command::CreateSnapshot(text)) => text == message,
            (Action::ListSnapshots, Command::ListSnapshots) => true,
            (Action::Rollback { state_id_or_prefix }, Command::Rollback(text)) => text
                == state_id_or_prefix,
            _ => false,
        }
    }

    /// What the core library is to be asked for, or why the action is refused.
    pub fn command(self) -> (r: Result<Command, Status>)
        ensures
            match r {
                Ok(command) => self.flaw() is None && self.asks(command),
                Err(status) => self.flaw() matches Some(message) && status.says(
                    Code::InvalidArgument,
                    message,
                ),
            },
    {
        match self {
            Action::Get => Ok(Command::ReadState),
            Action::Watch => Ok(Command::Watch),
            Action::Edit { operations } => match take_changes(operations) {
                Ok(edits) => Ok(Command::Commit(edits)),
                Err(status) => Err(status),
            },
            Action::SetComponent { component_id } => match require_id(
                component_id.as_str(),
                "invalid component_id",
            ) {
                Ok(id) => Ok(Command::SetComponent(id)),
                Err(status) => Err(status),
            },
            Action::RemoveComponent { slot } => match slot_from_proto(slot) {
                Ok(known) => Ok(Command::RemoveComponent(known)),
                Err(status) => Err(status),
            },
            Action::InstallDependency { dependency_id } => match require_id(
                dependency_id.as_str(),
                "invalid dependency_id",
            ) {
                Ok(id) => Ok(Command::Install(id)),
                Err(status) => Err(status),
            },
            Action::RunProgram { program_id } => match require_id(
                program_id.as_str(),
                "invalid program_id",
            ) {
                Ok(id) => Ok(Command::Run(id)),
                Err(status) => Err(status),
            },
            Action::ListProcesses => Ok(Command::ListProcesses),
            Action::KillProcess { program_id } => match require_id(
                program_id.as_str(),
                "invalid program_id",
            ) {
                Ok(id) => Ok(Command::Kill(id)),
                Err(status) => Err(status),
            },
            Action::Stop => Ok(Command::Stop),
            Action::ListDllOverrides => Ok(Command::ListDllOverrides),
            Action::SetDllOverride { dll, mode } => if mode.recognized {
                Ok(Command::SetDllOverride(dll, mode.number))
            } else {
                Err(Status::with(Code::InvalidArgument, "invalid dll override mode"))
            },
            Action::UnsetDllOverride { dll } => Ok(Command::UnsetDllOverride(dll)),
            Action::CreateSnapshot { message } => Ok(Command::CreateSnapshot(message)),
            Action::ListSnapshots => Ok(Command::ListSnapshots),
            Action::Rollback { state_id_or_prefix } => Ok(Command::Rollback(state_id_or_prefix)),
        }
    }
}

/// A call on a bottle, by what is to be done next.
#[derive(Debug)]
pub enum BottleCall {
    /// Open the bottle with this identifier.
    Open(u128, Action),
    /// Commit edits to the open bottle.
    Commit(Vec<Edit>),
    /// Read the state of the open bottle.
    ReadState,
    /// Answer with the state of the bottle.
    Show(message::BottleState),
    /// Have the core library do this with the open bottle, and give the result through
    /// `answer` or as the events of an operation.
    Perform(Command),
    /// Answer with a failure.
    Refuse(Status),
}

/// What a call on a bottle waits for.
#[derive(Debug)]
pub enum BottleEvent {
    Opened(Result<(), CoreError>),
    Committed(Result<(), CoreError>),
    State(Result<model::BottleState, CoreError>),
}

impl BottleCall {
    /// Begins with the bottle, by its identifier.
    pub fn begin(bottle_id: &str, action: Action) -> (r: BottleCall)
        ensures
            match r {
                BottleCall::Open(id, kept) => denotes(bottle_id@, id) && kept == action,
                BottleCall::Refuse(status) => !is_id(bottle_id@) && status.says(
                    Code::InvalidArgument,
                    "invalid bottle_id"@,
                ),
                _ => false,
            },
    {
        match require_id(bottle_id, "invalid bottle_id") {
            Ok(id) => BottleCall::Open(id, action),
            Err(status) => BottleCall::Refuse(status),
        }
    }

    /// What an action on an open bottle leads to.
    pub open spec fn after_opening(action: Action, next: BottleCall) -> bool {
        match next {
            BottleCall::Commit(edits) => action.flaw() is None && action.asks(
                Command::Commit(edits),
            ),
            BottleCall::ReadState => action == Action::Get,
            BottleCall::Perform(command) => action.flaw() is None && action.asks(command)
                && !(command is Commit) && !(command is ReadState),
            BottleCall::Refuse(status) => action.flaw() matches Some(message) && status.says(
                Code::InvalidArgument,
                message,
            ),
            _ => false,
        }
    }
}

impl Machine for BottleCall {
    type Event = BottleEvent;

    open spec fn awaits(self, event: BottleEvent) -> bool {
        match self {
            BottleCall::Open(_, _) => event is Opened,
            BottleCall::Commit(_) => event is Committed,
            BottleCall::ReadState => event is State,
            _ => false,
        }
    }

    open spec fn stepped(self, event: BottleEvent, next: Self) -> bool {
        match (self, event) {
            (BottleCall::Open(_, action), BottleEvent::Opened(Ok(_))) => BottleCall::after_opening(
                action,
                next,
            ),
            (BottleCall::Open(_, _), BottleEvent::Opened(Err(err))) => next matches
                BottleCall::Refuse(status) && err.answered(failure_code(err.kind), status),
            (BottleCall::Commit(_), BottleEvent::Committed(Ok(_))) => next
                == BottleCall::ReadState,
            (BottleCall::Commit(_), BottleEvent::Committed(Err(err))) => next matches
                BottleCall::Refuse(status) && err.answered(failure_code(err.kind), status),
            (BottleCall::ReadState, BottleEvent::State(Ok(state))) => next matches
                BottleCall::Show(shown) && shown.shows(state),
            (BottleCall::ReadState, BottleEvent::State(Err(err))) => next matches
                BottleCall::Refuse(status) && err.answered(failure_code(err.kind), status),
            _ => next == self,
        }
    }

    fn step(self, event: BottleEvent) -> (next: Self) {
        match (self, event) {
            (BottleCall::Open(_, action), BottleEvent::Opened(Ok(_))) => match action.command() {
                Ok(Command::Commit(edits)) => BottleCall::Commit(edits),
                Ok(Command::ReadState) => BottleCall::ReadState,
                Ok(command) => BottleCall::Perform(command),
                Err(status) => BottleCall::Refuse(status),
            },
            (BottleCall::Open(_, _), BottleEvent::Opened(Err(err))) => BottleCall::Refuse(
                to_status(err),
            ),
            (BottleCall::Commit(_), BottleEvent::Committed(Ok(_))) => BottleCall::ReadState,
            (BottleCall::Commit(_), BottleEvent::Committed(Err(err))) => BottleCall::Refuse(
                to_status(err),
            ),
            (BottleCall::ReadState, BottleEvent::State(Ok(state))) => BottleCall::Show(
                bottle_state_to_proto(&state),
            ),
            (BottleCall::ReadState, BottleEvent::State(Err(err))) => BottleCall::Refuse(
                to_status(err),
            ),
            (state, _) => state,
        }
    }
}

/// What the core library is asked to create.
#[derive(Debug)]
pub struct NewBottle {
    pub name: String,
    pub storage: model::Storage,
    pub runner: u128,
}

/// Checks a request to create a bottle: its storage first, then its runner.
pub fn create_bottle(
    name: String,
    storage: message::Storage,
    runner_component_id: &str,
) -> (r: Result<NewBottle, Status>)
    ensures
        match r {
            Ok(new) => new.name == name && storage == storage_message(new.storage) && denotes(
                runner_component_id@,
                new.runner,
            ),
            Err(status) => if storage == message::Storage::Unspecified || storage is Unrecognized {
                status.says(Code::InvalidArgument, "storage is required"@)
            } else {
                !is_id(runner_component_id@) && status.says(
                    Code::InvalidArgument,
                    "invalid runner_component_id"@,
                )
            },
        },
{
    match storage_from_proto(storage) {
        Ok(storage) => match require_id(runner_component_id, "invalid runner_component_id") {
            Ok(runner) => Ok(NewBottle { name, storage, runner }),
            Err(status) => Err(status),
        },
        Err(status) => Err(status),
    }
}

/// Checks a request to delete a bottle.
pub fn delete_bottle(bottle_id: &str) -> (r: Result<u128, Status>)
    ensures
        match r {
            Ok(id) => denotes(bottle_id@, id),
            Err(status) => !is_id(bottle_id@) && status.says(
                Code::InvalidArgument,
                "invalid bottle_id"@,
            ),
        },
{
    require_id(bottle_id, "invalid bottle_id")
}

/// Answers with what the core library gave, or with the status of its failure.
pub fn answer<T>(result: Result<T, CoreError>) -> (r: Result<T, Status>)
    ensures
        match result {
            Ok(value) => r == Ok::<T, Status>(value),
            Err(err) => r matches Err(status) && err.answered(failure_code(err.kind), status),
        },
{
    match result {
        Ok(value) => Ok(value),
        Err(err) => Err(to_status(err)),
    }
}

/// The event that tells how far an operation has come.
pub fn progress_event<T>(progress: model::Progress) -> (r: message::OperationEvent<T>)
    ensures
        r.event == Some(message::OperationUpdate::<T>::Progress(progress_message(progress))),
{
    message::OperationEvent {
        event: Some(message::OperationUpdate::Progress(convert_progress(progress))),
    }
}

/// The last event of an operation: what it gave, or the status of its failure.
pub fn done_event<T>(result: Result<T, CoreError>) -> (r: Result<
    message::OperationEvent<T>,
    Status,
>)
    ensures
        match result {
            Ok(value) => r matches Ok(event) && event.event == Some(
                message::OperationUpdate::Done(value),
            ),
            Err(err) => r matches Err(status) && err.answered(failure_code(err.kind), status),
        },
{
    match answer(result) {
        Ok(value) => Ok(
            message::OperationEvent { event: Some(message::OperationUpdate::Done(value)) },
        ),
        Err(status) => Err(status),
    }
}

/// The last event of the creation of a bottle. It carries nothing where the state of
/// the new bottle cannot be read.
pub fn created_event(result: Result<Option<model::BottleState>, CoreError>) -> (r: Result<
    message::OperationEvent<message::BottleState>,
    Status,
>)
    ensures
        match result {
            Ok(Some(state)) => r matches Ok(event) && (event.event matches Some(
                message::OperationUpdate::Done(shown),
            ) && shown.shows(state)),
            Ok(None) => r matches Ok(event) && event.event is None,
            Err(err) => r matches Err(status) && err.answered(failure_code(err.kind), status),
        },
{
    match result {
        Ok(Some(state)) => Ok(
            message::OperationEvent {
                event: Some(message::OperationUpdate::Done(bottle_state_to_proto(&state))),
            },
        ),
        Ok(None) => Ok(message::OperationEvent { event: None }),
        Err(err) => Err(to_status(err)),
    }
}

/// The last event of the taking of a snapshot.
pub fn snapshot_event(result: Result<model::Snapshot, CoreError>) -> (r: Result<
    message::OperationEvent<message::Snapshot>,
    Status,
>)
    ensures
        match result {
            Ok(snapshot) => r matches Ok(event) && event.event == Some(
                message::OperationUpdate::Done(snapshot_message(snapshot)),
            ),
            Err(err) => r matches Err(status) && err.answered(failure_code(err.kind), status),
        },
{
    match result {
        Ok(snapshot) => done_event(Ok(snapshot_to_proto(snapshot))),
        Err(err) => done_event(Err(err)),
    }
}

/// A bottle that cannot be opened is answered as such, whatever was asked of it: its
/// arguments are not looked at, and nothing is done.
pub proof fn unopened_bottle_is_answered_first(
    id: u128,
    action: Action,
    err: CoreError,
    states: Seq<BottleCall>,
    events: Seq<BottleEvent>,
)
    requires
        is_run(states, events),
        states[0] == BottleCall::Open(id, action),
        events.len() > 0,
        events[0] == BottleEvent::Opened(Err(err)),
    ensures
        states.len() == 2,
        states[1] matches BottleCall::Refuse(status) && err.answered(
            failure_code(err.kind),
            status,
        ),
{
    assert(states[0].awaits(events[0]));
    assert(events.len() > 1 ==> states[1].awaits(events[1]));
}

/// An action whose arguments are flawed is refused as soon as its bottle is open:
/// nothing is committed to the bottle, and nothing else is done with it.
pub proof fn flawed_action_does_nothing(
    id: u128,
    action: Action,
    states: Seq<BottleCall>,
    events: Seq<BottleEvent>,
)
    requires
        is_run(states, events),
        states[0] == BottleCall::Open(id, action),
        action.flaw() is Some,
    ensures
        forall|i: int| 0 < i < states.len() ==> (#[trigger] states[i]) is Refuse,
{
    if events.len() > 0 {
        assert(states[0].awaits(events[0]));
        assert(!(action.asks(Command::ReadState)) || action == Action::Get);
        assert(states[1] is Refuse);
        assert(events.len() > 1 ==> states[1].awaits(events[1]));
    }
}

/// A bottle is answered as it is after its edits, and only once they were committed:
/// the edits of every change, in the order of the request.
pub proof fn edited_bottle_is_shown_after_its_commit(
    id: u128,
    operations: Vec<message::EditOperation>,
    shown: message::BottleState,
    states: Seq<BottleCall>,
    events: Seq<BottleEvent>,
)
    requires
        is_run(states, events),
        states[0] == BottleCall::Open(id, Action::Edit { operations }),
        states.last() == BottleCall::Show(shown),
    ensures
        events.len() == 3,
        states[1] matches BottleCall::Commit(edits) && taken_in_order(operations@, edits@),
        events[1] matches BottleEvent::Committed(Ok(_)),
        events[2] matches BottleEvent::State(Ok(state)) && shown.shows(state),
{
    assert(events.len() > 0);
    assert(states[0].awaits(events[0]));
    assert(events.len() > 1 ==> states[1].awaits(events[1]));
    assert(events.len() > 1);
    assert(events.len() > 2 ==> states[2].awaits(events[2]));
    assert(events.len() > 2);
    assert(events.len() > 3 ==> states[3].awaits(events[3]));
}

/// An operation without a change can be left out of an edit.
pub proof fn empty_operation_changes_nothing(
    before: Seq<message::EditOperation>,
    empty: message::EditOperation,
    behind: Seq<message::EditOperation>,
    edits: Seq<Edit>,
)
    requires
        empty.change is None,
    ensures
        taken_in_order(before.push(empty) + behind, edits) == taken_in_order(
            before + behind,
            edits,
        ),
    decreases behind.len(),
{
    let with = before.push(empty) + behind;
    let without = before + behind;
    if behind.len() == 0 {
        assert(with =~= before.push(empty));
        assert(without =~= before);
        assert(before.push(empty).drop_last() =~= before);
    } else {
        assert(with.drop_last() =~= before.push(empty) + behind.drop_last());
        assert(without.drop_last() =~= before + behind.drop_last());
        assert(with.last() == behind.last() && without.last() == behind.last());
        empty_operation_changes_nothing(before, empty, behind.drop_last(), edits);
        empty_operation_changes_nothing(before, empty, behind.drop_last(), edits.drop_last());
    }
}

/// A change is taken as the change of the same kind, with the same values: a variable
/// under its key, a program as its message stands for it, the removal of the program
/// whose identifier is given, and the settings that a message gives.
pub proof fn change_is_taken_as_it_is(change: message::Change, edit: Edit)
    requires
        change.taken_as(edit),
    ensures
        match change {
            message::Change::Rename(name) => edit == Edit::Rename(name),
            message::Change::SetEnv(var) => edit == Edit::SetEnv(var.key, var.value),
            message::Change::UnsetEnv(key) => edit == Edit::UnsetEnv(key),
            message::Change::AddProgram(shown) => edit matches Edit::AddProgram(program)
                && program.name == shown.name && program.executable == shown.executable
                && program.args@ == shown.args@ && program.working_directory
                == shown.working_directory && program.new_console == shown.new_console && (forall|
                id: u128,
            |
                denotes(shown.id@, id) ==> program.id == id),
            message::Change::RemoveProgramId(text) => edit matches Edit::RemoveProgram(id)
                && denotes(text@, id),
            message::Change::SetGamescope(shown) => edit matches Edit::SetGamescope(config)
                && shown.gives(config),
            message::Change::SetMangohud(shown) => edit matches Edit::SetMangohud(config)
                && config.enabled == shown.enabled,
        },
{
    if let message::Change::AddProgram(shown) = change {
        if let Edit::AddProgram(program) = edit {
            assert forall|id: u128| denotes(shown.id@, id) implies program.id == id by {
                crate::bottle::convert::program_reading_keeps_each_field(shown, program, id);
            }
        }
    }
}

/// Each operation that holds a change leads to one edit, which is of that change, and the
/// edits are in the order of the operations; there is no other edit.
pub proof fn each_change_is_taken_in_its_place(
    operations: Seq<message::EditOperation>,
    edits: Seq<Edit>,
)
    requires
        taken_in_order(operations, edits),
    ensures
        ({
            let full = operations.filter(
                |operation: message::EditOperation| operation.change is Some,
            );
            &&& edits.len() == full.len()
            &&& forall|k: int|
                0 <= k < edits.len() ==> full[k].change->0.taken_as(#[trigger] edits[k])
        }),
    decreases operations.len(),
{
    reveal(Seq::filter);
    let holds_one = |operation: message::EditOperation| operation.change is Some;
    if operations.len() > 0 {
        let before = operations.drop_last();
        match operations.last().change {
            Some(change) => {
                each_change_is_taken_in_its_place(before, edits.drop_last());
                let full = operations.filter(holds_one);
                assert forall|k: int| 0 <= k < edits.len() implies full[k].change->0.taken_as(
                    #[trigger] edits[k],
                ) by {
                    if k < edits.len() - 1 {
                        assert(edits.drop_last()[k] == edits[k]);
                        assert(before.filter(holds_one)[k] == full[k]);
                    }
                }
            },
            None => {
                each_change_is_taken_in_its_place(before, edits);
            },
        }
    }
}

/// An edit is flawed exactly where it removes a program by a text that is no identifier.
pub proof fn edit_is_flawed_by_an_unreadable_identifier(operations: Seq<message::EditOperation>)
    ensures
        is_flawed(operations) <==> exists|i: int|
            0 <= i < operations.len() && ((#[trigger] operations[i]).change matches Some(
                message::Change::RemoveProgramId(text),
            ) && forall|id: u128| !denotes(text@, id)),
{
    if is_flawed(operations) {
        let i = choose|i: int|
            0 <= i < operations.len() && ((#[trigger] operations[i]).change matches Some(change)
                && change.is_flawed());
        assert(operations[i].change is Some);
    }
    if exists|i: int|
        0 <= i < operations.len() && ((#[trigger] operations[i]).change matches Some(
            message::Change::RemoveProgramId(text),
        ) && forall|id: u128| !denotes(text@, id)) {
        let i = choose|i: int|
            0 <= i < operations.len() && ((#[trigger] operations[i]).change matches Some(
                message::Change::RemoveProgramId(text),
            ) && forall|id: u128| !denotes(text@, id));
        assert(operations[i].change->0.is_flawed());
    }
}

/// An action asks for the command of its own kind, with its own arguments: an identifier
/// is the one that its text denotes, a slot the one of the same message, and every other
/// argument is handed on as it is.
pub proof fn action_asks_for_its_own_command(action: Action, command: Command)
    requires
        action.asks(command),
    ensures
        match action {
            Action::Get => command is ReadState,
            Action::Watch => command is Watch,
            Action::Edit { operations } => command matches Command::Commit(edits)
                && taken_in_order(operations@, edits@),
            Action::SetComponent { component_id } => command matches Command::SetComponent(id)
                && denotes(component_id@, id),
            Action::RemoveComponent { slot } => command matches Command::RemoveComponent(known)
                && slot_message(known) == slot,
            Action::InstallDependency { dependency_id } => command matches Command::Install(id)
                && denotes(dependency_id@, id),
            Action::RunProgram { program_id } => command matches Command::Run(id) && denotes(
                program_id@,
                id,
            ),
            Action::ListProcesses => command is ListProcesses,
            Action::KillProcess { program_id } => command matches Command::Kill(id) && denotes(
                program_id@,
                id,
            ),
            Action::Stop => command is Stop,
            Action::ListDllOverrides => command is ListDllOverrides,
            Action::SetDllOverride { dll, mode } => command == Command::SetDllOverride(
                dll,
                mode.number,
            ),
            Action::UnsetDllOverride { dll } => command == Command::UnsetDllOverride(dll),
            Action::CreateSnapshot { message } => command == Command::CreateSnapshot(message),
            Action::ListSnapshots => command is ListSnapshots,
            Action::Rollback { state_id_or_prefix } => command == Command::Rollback(
                state_id_or_prefix,
            ),
        },
{
}

/// An action is flawed exactly where an identifier of it cannot be read, its slot is
/// unspecified or not recognized, its mode is not recognized, or one of its changes is
/// flawed. It is refused with the words for that argument.
pub proof fn action_is_flawed_by_its_arguments(action: Action)
    ensures
        match action {
            Action::Edit { operations } => if is_flawed(operations@) {
                action.flaw() == Some("invalid remove_program_id"@)
            } else {
                action.flaw() is None
            },
            Action::SetComponent { component_id } => if exists|id: u128| denotes(component_id@, id) {
                action.flaw() is None
            } else {
                action.flaw() == Some("invalid component_id"@)
            },
            Action::InstallDependency { dependency_id } => if exists|id: u128|
                denotes(dependency_id@, id) {
                action.flaw() is None
            } else {
                action.flaw() == Some("invalid dependency_id"@)
            },
            Action::RunProgram { program_id } => if exists|id: u128| denotes(program_id@, id) {
                action.flaw() is None
            } else {
                action.flaw() == Some("invalid program_id"@)
            },
            Action::KillProcess { program_id } => if exists|id: u128| denotes(program_id@, id) {
                action.flaw() is None
            } else {
                action.flaw() == Some("invalid program_id"@)
            },
            Action::RemoveComponent { slot } => if exists|known: model::Slot|
                #[trigger] slot_message(known) == slot {
                action.flaw() is None
            } else {
                action.flaw() == Some("slot is required"@)
            },
            Action::SetDllOverride { mode, .. } => if mode.recognized {
                action.flaw() is None
            } else {
                action.flaw() == Some("invalid dll override mode"@)
            },
            _ => action.flaw() is None,
        },
{
    if let Action::RemoveComponent { slot } = action {
        assert(slot_message(model::Slot::WineBridge) == message::Slot::Winebridge);
        assert(slot_message(model::Slot::Runner) == message::Slot::Runner);
        assert(slot_message(model::Slot::Umu) == message::Slot::Umu);
        assert(slot_message(model::Slot::Dxvk) == message::Slot::Dxvk);
        assert(slot_message(model::Slot::Vkd3d) == message::Slot::Vkd3d);
        assert(slot_message(model::Slot::Nvapi) == message::Slot::Nvapi);
        assert(slot_message(model::Slot::LatencyFlex) == message::Slot::LatencyFlex);
        if exists|known: model::Slot| #[trigger] slot_message(known) == slot {
            let known = choose|known: model::Slot| #[trigger] slot_message(known) == slot;
            crate::bottle::convert::slot_reads_back(known, known);
        }
    }
}

/// What a call on a bottle leads to, from what came of each step: an action without a
/// flaw is done with the open bottle, an edit by its commit and any other but a reading by
/// its command; a flawed one is refused in its words; a committed edit is followed by a
/// reading; a reading shows the bottle as it was read; and a failure of the core library
/// is answered as such and ends the call.
pub proof fn call_follows_the_core_library(
    id: u128,
    action: Action,
    states: Seq<BottleCall>,
    events: Seq<BottleEvent>,
)
    requires
        is_run(states, events),
        states[0] == BottleCall::Open(id, action),
        events.len() > 0,
    ensures
        events[0] matches BottleEvent::Opened(opened) && match opened {
            Err(err) => events.len() == 1 && (states[1] matches BottleCall::Refuse(status)
                && err.answered(failure_code(err.kind), status)),
            Ok(_) => match action.flaw() {
                Some(words) => events.len() == 1 && (states[1] matches BottleCall::Refuse(status)
                    && status.says(Code::InvalidArgument, words)),
                None => match action {
                    Action::Get => states[1] is ReadState,
                    Action::Edit { operations } => states[1] matches BottleCall::Commit(edits)
                        && taken_in_order(operations@, edits@),
                    _ => events.len() == 1 && (states[1] matches BottleCall::Perform(command)
                        && action.asks(command)),
                },
            },
        },
        forall|i: int|
            0 < i < events.len() ==> match #[trigger] events[i] {
                BottleEvent::Opened(_) => false,
                BottleEvent::Committed(Ok(_)) => states[i] is Commit && states[i + 1] is ReadState,
                BottleEvent::Committed(Err(err)) => states[i] is Commit && (states[i + 1] matches
                    BottleCall::Refuse(status) && err.answered(failure_code(err.kind), status)),
                BottleEvent::State(Ok(state)) => states[i] is ReadState && (states[i + 1] matches
                    BottleCall::Show(shown) && shown.shows(state)),
                BottleEvent::State(Err(err)) => states[i] is ReadState && (states[i + 1] matches
                    BottleCall::Refuse(status) && err.answered(failure_code(err.kind), status)),
            },
{
    assert(states[0].awaits(events[0]));
    assert(events.len() > 1 ==> states[1].awaits(events[1]));
    assert(events.len() > 2 ==> states[2].awaits(events[2]));
    assert(events.len() > 3 ==> states[3].awaits(events[3]));
}

/// A call on a bottle begins with the bottle that its text denotes and with the action as
/// it is, and is refused where the text denotes none.
pub proof fn call_begins_with_its_bottle(
    bottle_id: &str,
    action: Action,
    id: u128,
    call: BottleCall,
)
    requires
        call_ensures(BottleCall::begin, (bottle_id, action), call),
    ensures
        denotes(bottle_id@, id) ==> call == BottleCall::Open(id, action),
        (forall|other: u128| !denotes(bottle_id@, other)) ==> (call matches BottleCall::Refuse(
            status,
        ) && status.code == Code::InvalidArgument && status.message@ == "invalid bottle_id"@),
{
    if denotes(bottle_id@, id) {
        assert(is_id(bottle_id@));
        if let BottleCall::Open(own, _) = call {
            crate::ids::text_denotes_one_id(bottle_id@, id, own);
        }
    }
}

/// A bottle is created under its own name, with the storage of the same message and the
/// runner that its text denotes. It is refused for its storage first, and else for its
/// runner.
pub proof fn new_bottle_is_as_requested(
    name: String,
    storage: message::Storage,
    runner: &str,
    id: u128,
    r: Result<NewBottle, Status>,
)
    requires
        call_ensures(create_bottle, (name, storage, runner), r),
    ensures
        r matches Ok(new) ==> new.name == name && (storage == message::Storage::Standard
            <==> new.storage == model::Storage::Standard) && (storage == message::Storage::Virgo
            <==> new.storage == model::Storage::Virgo) && (denotes(runner@, id) ==> new.runner
            == id),
        r is Ok <==> (storage == message::Storage::Standard || storage == message::Storage::Virgo)
            && exists|own: u128| denotes(runner@, own),
        r matches Err(status) ==> status.code == Code::InvalidArgument && status.message@ == if (
        storage == message::Storage::Standard || storage == message::Storage::Virgo) {
            "invalid runner_component_id"@
        } else {
            "storage is required"@
        },
{
    if let Ok(new) = r {
        assert(denotes(runner@, new.runner));
        if denotes(runner@, id) {
            crate::ids::text_denotes_one_id(runner@, id, new.runner);
        }
    }
}

/// The bottle that is deleted is the one that the text denotes.
pub proof fn deleted_bottle_is_the_denoted_one(bottle_id: &str, id: u128, r: Result<u128, Status>)
    requires
        call_ensures(delete_bottle, (bottle_id,), r),
    ensures
        denotes(bottle_id@, id) ==> r == Ok::<u128, Status>(id),
        (forall|other: u128| !denotes(bottle_id@, other)) ==> (r matches Err(status) && status.code
            == Code::InvalidArgument && status.message@ == "invalid bottle_id"@),
{
    if denotes(bottle_id@, id) {
        assert(is_id(bottle_id@));
        if let Ok(own) = r {
            crate::ids::text_denotes_one_id(bottle_id@, id, own);
        }
    }
}

/// What the core library gives is answered as it is, its failure by its status; the last
/// event of an operation carries what the operation gave, or its failure.
pub proof fn results_are_answered_as_they_are<T>(
    result: Result<T, CoreError>,
    r: Result<T, Status>,
    last: Result<message::OperationEvent<T>, Status>,
)
    requires
        call_ensures(answer::<T>, (result,), r),
        call_ensures(done_event::<T>, (result,), last),
    ensures
        result matches Ok(value) ==> r == Ok::<T, Status>(value) && (last matches Ok(event)
            && event.event == Some(message::OperationUpdate::Done(value))),
        result matches Err(err) ==> (r matches Err(status) && err.answered(
            failure_code(err.kind),
            status,
        )) && (last matches Err(status) && err.answered(failure_code(err.kind), status)),
{
}

/// The events of an operation carry its progress as its message, the new bottle as its
/// message where its state can be read and nothing otherwise, and the snapshot as its
/// message.
pub proof fn events_carry_what_they_tell<T>(
    progress: model::Progress,
    told: message::OperationEvent<T>,
    created: Option<model::BottleState>,
    bottle: Result<message::OperationEvent<message::BottleState>, Status>,
    snapshot: model::Snapshot,
    taken: Result<message::OperationEvent<message::Snapshot>, Status>,
)
    requires
        call_ensures(progress_event::<T>, (progress,), told),
        call_ensures(created_event, (Ok(created),), bottle),
        call_ensures(snapshot_event, (Ok(snapshot),), taken),
    ensures
        told.event == Some(message::OperationUpdate::<T>::Progress(progress_message(progress))),
        created is None ==> (bottle matches Ok(event) && event.event is None),
        created matches Some(state) ==> (bottle matches Ok(event) && (event.event matches Some(
            message::OperationUpdate::Done(shown),
        ) && shown.shows(state))),
        taken matches Ok(event) && event.event == Some(
            message::OperationUpdate::Done(snapshot_message(snapshot)),
        ),
{
}

/// The failure to create a bottle or to take a snapshot is answered by its status.
pub proof fn failed_operations_end_with_their_failure(
    err: CoreError,
    bottle: Result<message::OperationEvent<message::BottleState>, Status>,
    taken: Result<message::OperationEvent<message::Snapshot>, Status>,
)
    requires
        call_ensures(created_event, (Err(err),), bottle),
        call_ensures(snapshot_event, (Err(err),), taken),
    ensures
        bottle matches Err(status) && err.answered(failure_code(err.kind), status),
        taken matches Err(status) && err.answered(failure_code(err.kind), status),
{
}

/// The changes of an edit are all taken, or none of them where one is flawed.
pub proof fn changes_are_taken_or_refused_together(
    operations: Vec<message::EditOperation>,
    r: Result<Vec<Edit>, Status>,
)
    requires
        call_ensures(take_changes, (operations,), r),
    ensures
        r is Err <==> exists|i: int|
            0 <= i < operations@.len() && ((#[trigger] operations@[i]).change matches Some(
                message::Change::RemoveProgramId(text),
            ) && forall|id: u128| !denotes(text@, id)),
        r matches Err(status) ==> status.code == Code::InvalidArgument && status.message@
            == "invalid remove_program_id"@,
        r matches Ok(edits) ==> ({
            let full = operations@.filter(
                |operation: message::EditOperation| operation.change is Some,
            );
            &&& edits@.len() == full.len()
            &&& forall|k: int|
                0 <= k < edits@.len() ==> full[k].change->0.taken_as(#[trigger] edits@[k])
        }),
{
    edit_is_flawed_by_an_unreadable_identifier(operations@);
    if let Ok(edits) = r {
        each_change_is_taken_in_its_place(operations@, edits@);
    }
}

/// An action gives its own command where it has no flaw, and is refused in the words of
/// its flaw otherwise.
pub proof fn command_is_the_actions_own(action: Action, r: Result<Command, Status>)
    requires
        call_ensures(Action::command, (action,), r),
    ensures
        r is Ok <==> action.flaw() is None,
        r matches Ok(command) ==> action.asks(command),
        r matches Err(status) ==> status.code == Code::InvalidArgument && action.flaw() == Some(
            status.message@,
        ),
{
}

/// Whatever comes of a step of a call on a bottle is awaited there, and nothing is awaited
/// at the end.
pub proof fn bottle_call_awaits_every_outcome(
    call: BottleCall,
    done: Result<(), CoreError>,
    state: Result<model::BottleState, CoreError>,
    event: BottleEvent,
)
    ensures
        call is Open <==> call.awaits(BottleEvent::Opened(done)),
        call is Commit <==> call.awaits(BottleEvent::Committed(done)),
        call is ReadState <==> call.awaits(BottleEvent::State(state)),
        call is Show || call is Perform || call is Refuse ==> !call.awaits(event),
{
}

/// An event that a call on a bottle does not wait for changes nothing.
pub proof fn stray_events_do_not_touch_a_bottle_call(state: BottleCall, event: BottleEvent, next: BottleCall)
    requires
        !state.awaits(event),
        state.stepped(event, next),
    ensures
        next == state,
{
}

} // verus!
