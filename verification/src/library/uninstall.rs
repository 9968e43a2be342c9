//! Removing an installed game.

use vstd::prelude::*;
use crate::ids::{denotes, parse_id};
use crate::library::install::InstallGameRequest;
use crate::machine::{is_run, Machine};
use crate::registry::{parse_storefront, Storefront};
use crate::status::{Code, Status};

verus! {

/// Removing a game, by what is to be done next.
#[derive(Debug)]
pub enum UninstallGame {
    /// Look up the record of the installation of the profile's game.
    Lookup(InstallGameRequest, Storefront),
    /// Open the bottle that the game was installed in.
    OpenBottle(InstallGameRequest, Storefront, u128),
    /// Remove the files of the installation, and its program from the bottle where one
    /// is open.
    Remove(InstallGameRequest, Storefront, bool),
    /// Answer the call.
    Done(Result<(), Status>),
}

/// What removing a game waits for.
#[derive(Debug)]
pub enum UninstallEvent {
    /// The bottle's identifier in the record, where there is a record.
    Found(Option<String>),
    /// Whether the bottle could be opened.
    Opened(bool),
    Removed(Result<(), Status>),
}

impl UninstallGame {
    /// Begins with the record. The bottle of the request plays no part.
    pub fn begin(request: InstallGameRequest) -> (r: Self)
        ensures
            match r {
                UninstallGame::Lookup(kept, storefront) => kept == request
                    && request.storefront.is_known_as(storefront),
                UninstallGame::Done(Err(status)) => request.storefront.name is None && status.says(
                    Code::InvalidArgument,
                    "invalid storefront"@,
                ),
                _ => false,
            },
    {
        match parse_storefront(&request.storefront) {
            Ok(storefront) => UninstallGame::Lookup(request, storefront),
            Err(status) => UninstallGame::Done(Err(status)),
        }
    }
}

impl Machine for UninstallGame {
    type Event = UninstallEvent;

    open spec fn awaits(self, event: UninstallEvent) -> bool {
        match self {
            UninstallGame::Lookup(_, _) => event is Found,
            UninstallGame::OpenBottle(_, _, _) => event is Opened,
            UninstallGame::Remove(_, _, _) => event is Removed,
            UninstallGame::Done(_) => false,
        }
    }

    open spec fn stepped(self, event: UninstallEvent, next: Self) -> bool {
        match (self, event) {
            (UninstallGame::Lookup(request, storefront), UninstallEvent::Found(found)) => {
                match next {
                    UninstallGame::OpenBottle(kept, known, id) => kept == request && known
                        == storefront && (found matches Some(bottle_id) && denotes(
                        bottle_id@,
                        id,
                    )),
                    UninstallGame::Remove(kept, known, open) => kept == request && known
                        == storefront && !open && (found matches Some(bottle_id) ==> forall|
                        id: u128,
                    |
                        !denotes(bottle_id@, id)),
                    _ => false,
                }
            },
            (
                UninstallGame::OpenBottle(request, storefront, _),
                UninstallEvent::Opened(open),
            ) => next == UninstallGame::Remove(request, storefront, open),
            (UninstallGame::Remove(_, _, _), UninstallEvent::Removed(result)) => next
                == UninstallGame::Done(result),
            _ => next == self,
        }
    }

    fn step(self, event: UninstallEvent) -> (next: Self) {
        match (self, event) {
            (UninstallGame::Lookup(request, storefront), UninstallEvent::Found(found)) => {
                match found {
                    Some(bottle_id) => match parse_id(bottle_id.as_str()) {
                        Some(id) => UninstallGame::OpenBottle(request, storefront, id),
                        None => UninstallGame::Remove(request, storefront, false),
                    },
                    None => UninstallGame::Remove(request, storefront, false),
                }
            },
            (
                UninstallGame::OpenBottle(request, storefront, _),
                UninstallEvent::Opened(open),
            ) => UninstallGame::Remove(request, storefront, open),
            (UninstallGame::Remove(_, _, _), UninstallEvent::Removed(result)) => {
                UninstallGame::Done(result)
            },
            (state, _) => state,
        }
    }
}

/// Whatever becomes of the record and the bottle, the files are removed, and the call
/// is answered by how that went. The bottle takes part exactly where it could be opened.
pub proof fn uninstalling_always_removes(
    request: InstallGameRequest,
    storefront: Storefront,
    result: Result<(), Status>,
    states: Seq<UninstallGame>,
    events: Seq<UninstallEvent>,
)
    requires
        is_run(states, events),
        states[0] == UninstallGame::Lookup(request, storefront),
        states.last() == UninstallGame::Done(result),
    ensures
        2 <= events.len() <= 3,
        events.last() == UninstallEvent::Removed(result),
        states[events.len() - 1] == UninstallGame::Remove(
            request,
            storefront,
            events[events.len() - 2] == UninstallEvent::Opened(true),
        ),
{
    assert(events.len() > 0);
    assert(states[0].awaits(events[0]));
    assert(events.len() > 1 ==> states[1].awaits(events[1]));
    assert(events.len() > 1);
    assert(events.len() > 2 ==> states[2].awaits(events[2]));
    assert(events.len() > 3 ==> states[3].awaits(events[3]));
}

/// The bottle that is opened is the one that the record names, and none is opened where
/// there is no record or it names none. What is removed is of the request and the
/// storefront that the call began with.
pub proof fn recorded_bottle_is_opened(
    request: InstallGameRequest,
    storefront: Storefront,
    found: Option<String>,
    id: u128,
    states: Seq<UninstallGame>,
    events: Seq<UninstallEvent>,
)
    requires
        is_run(states, events),
        states[0] == UninstallGame::Lookup(request, storefront),
        events.len() > 0,
        events[0] == UninstallEvent::Found(found),
    ensures
        found matches Some(text) && denotes(text@, id) ==> states[1] == UninstallGame::OpenBottle(
            request,
            storefront,
            id,
        ),
        found is None ==> states[1] == UninstallGame::Remove(request, storefront, false),
        found matches Some(text) && (forall|other: u128| !denotes(text@, other)) ==> states[1]
            == UninstallGame::Remove(request, storefront, false),
{
    assert(states[0].awaits(events[0]));
    if let Some(text) = found {
        if denotes(text@, id) {
            if let UninstallGame::OpenBottle(_, _, own) = states[1] {
                crate::ids::text_denotes_one_id(text@, id, own);
            }
        }
    }
}

/// Removing a game begins with the record of the request, for its storefront by number and
/// name, and is refused where the storefront has no name. The bottle of the request plays
/// no part.
pub proof fn uninstalling_begins_with_the_record(
    request: InstallGameRequest,
    call: UninstallGame,
)
    requires
        call_ensures(UninstallGame::begin, (request,), call),
    ensures
        request.storefront.name is None ==> (call matches UninstallGame::Done(Err(status))
            && status.code == Code::InvalidArgument && status.message@ == "invalid storefront"@),
        request.storefront.name is Some ==> (call matches UninstallGame::Lookup(kept, storefront)
            && kept == request && storefront.number == request.storefront.number && Some(
            storefront.name,
        ) == request.storefront.name),
{
}

/// Whatever comes of a step of removing a game is awaited there, and nothing is awaited once
/// the call is answered.
pub proof fn uninstalling_awaits_every_outcome(
    call: UninstallGame,
    found: Option<String>,
    open: bool,
    removed: Result<(), Status>,
    event: UninstallEvent,
)
    ensures
        call is Lookup <==> call.awaits(UninstallEvent::Found(found)),
        call is OpenBottle <==> call.awaits(UninstallEvent::Opened(open)),
        call is Remove <==> call.awaits(UninstallEvent::Removed(removed)),
        call is Done ==> !call.awaits(event),
{
}

/// An event that the removal of a game does not wait for changes nothing.
pub proof fn stray_events_do_not_touch_a_removal(state: UninstallGame, event: UninstallEvent, next: UninstallGame)
    requires
        !state.awaits(event),
        state.stepped(event, next),
    ensures
        next == state,
{
}

} // verus!
