//! Linking a local Steam account to a profile, and telling of Steam's sessions.

use vstd::prelude::*;
use crate::machine::{is_run, Machine};
use crate::profile::{failure_code, to_status};
use crate::status::{CoreError, Status};

verus! {

/// A Steam account that is linked to a profile.
#[derive(Debug)]
pub struct SteamLink {
    pub steam_id64: String,
    pub account_name: String,
}

/// A user of the local Steam install.
#[derive(Debug)]
pub struct SteamUser {
    pub steam_id64: String,
    pub account_name: String,
    pub is_active: bool,
}

/// The event that tells of a Steam user.
#[derive(Debug)]
pub struct SteamSessionEvent {
    pub steam_id64: String,
    pub account_name: String,
    pub is_active: bool,
}

/// The event that tells of a Steam user.
pub fn to_event(user: SteamUser) -> (r: SteamSessionEvent)
    ensures
        r.steam_id64 == user.steam_id64,
        r.account_name == user.account_name,
        r.is_active == user.is_active,
{
    SteamSessionEvent {
        steam_id64: user.steam_id64,
        account_name: user.account_name,
        is_active: user.is_active,
    }
}

/// A request to link a Steam account. `auto_activate` is accepted from older callers and
/// changes nothing: a profile is activated by a call of its own.
#[derive(Debug)]
pub struct LinkSteamAccountRequest {
    pub profile_id: String,
    pub steam_id64: String,
    pub auto_activate: bool,
}

/// Linking a Steam account, by what is to be done next.
#[derive(Debug)]
pub enum LinkSteamAccount {
    /// Look up the display name of the account in the local Steam install.
    LookupName(LinkSteamAccountRequest),
    /// Link the account to the profile.
    Link(String, SteamLink),
    /// Answer the call.
    Done(Result<SteamLink, Status>),
}

/// What linking a Steam account waits for.
#[derive(Debug)]
pub enum LinkSteamEvent {
    /// The name, where it was found.
    Name(Option<String>),
    Linked(Result<(), CoreError>),
}

impl LinkSteamAccount {
    /// Begins with the name.
    pub fn begin(request: LinkSteamAccountRequest) -> (r: Self)
        ensures
            r == LinkSteamAccount::LookupName(request),
    {
        LinkSteamAccount::LookupName(request)
    }
}

impl SteamLink {
    /// This link is to the account of a request, under the name that was found, or
    /// under an empty one.
    pub open spec fn links(self, request: LinkSteamAccountRequest, name: Option<String>) -> bool {
        &&& self.steam_id64 == request.steam_id64
        &&& self.account_name@ == match name {
            Some(found) => found@,
            None => seq![],
        }
    }
}

impl Machine for LinkSteamAccount {
    type Event = LinkSteamEvent;

    open spec fn awaits(self, event: LinkSteamEvent) -> bool {
        match self {
            LinkSteamAccount::LookupName(_) => event is Name,
            LinkSteamAccount::Link(_, _) => event is Linked,
            LinkSteamAccount::Done(_) => false,
        }
    }

    open spec fn stepped(self, event: LinkSteamEvent, next: Self) -> bool {
        match (self, event) {
            (LinkSteamAccount::LookupName(request), LinkSteamEvent::Name(name)) => next matches
                LinkSteamAccount::Link(profile_id, link) && profile_id == request.profile_id
                && link.links(request, name),
            (LinkSteamAccount::Link(_, link), LinkSteamEvent::Linked(Ok(_))) => next
                == LinkSteamAccount::Done(Ok(link)),
            (LinkSteamAccount::Link(_, _), LinkSteamEvent::Linked(Err(err))) => next matches
                LinkSteamAccount::Done(Err(status)) && err.answered(
                failure_code(err.kind),
                status,
            ),
            _ => next == self,
        }
    }

    fn step(self, event: LinkSteamEvent) -> (next: Self) {
        match (self, event) {
            (LinkSteamAccount::LookupName(request), LinkSteamEvent::Name(name)) => {
                let account_name: String = match name {
                    Some(found) => found,
                    None => String::new(),
                };
                LinkSteamAccount::Link(
                    request.profile_id,
                    SteamLink { steam_id64: request.steam_id64, account_name },
                )
            },
            (LinkSteamAccount::Link(_, link), LinkSteamEvent::Linked(Ok(_))) => {
                LinkSteamAccount::Done(Ok(link))
            },
            (LinkSteamAccount::Link(_, _), LinkSteamEvent::Linked(Err(err))) => {
                LinkSteamAccount::Done(Err(to_status(err)))
            },
            (state, _) => state,
        }
    }
}

/// A missing name keeps no account from being linked: the link is to the account of the
/// request in any case, and what is answered is the link that was stored.
pub proof fn answered_link_was_stored(
    request: LinkSteamAccountRequest,
    link: SteamLink,
    states: Seq<LinkSteamAccount>,
    events: Seq<LinkSteamEvent>,
)
    requires
        is_run(states, events),
        states[0] == LinkSteamAccount::LookupName(request),
        states.last() == LinkSteamAccount::Done(Ok(link)),
    ensures
        events.len() == 2,
        events[0] matches LinkSteamEvent::Name(name) && link.links(request, name),
        states[1] == LinkSteamAccount::Link(request.profile_id, link),
        events[1] matches LinkSteamEvent::Linked(Ok(_)),
{
    assert(events.len() > 0);
    assert(states[0].awaits(events[0]));
    assert(events.len() > 1 ==> states[1].awaits(events[1]));
    assert(events.len() > 1);
    assert(events.len() > 2 ==> states[2].awaits(events[2]));
}

/// A link is to the account of the request, under the name that was found, character by
/// character, and under no characters at all where none was.
pub proof fn link_is_to_the_requested_account(
    link: SteamLink,
    request: LinkSteamAccountRequest,
    name: Option<String>,
)
    requires
        link.links(request, name),
    ensures
        link.steam_id64 == request.steam_id64,
        name matches Some(found) ==> link.account_name@ == found@,
        name is None ==> link.account_name@.len() == 0,
{
}

/// What linking a Steam account asks for and is answered with: the account is to be linked
/// to the profile of the request whatever came of its name; a failure to link is answered
/// as such, and a success with the link.
pub proof fn linking_steam_is_answered_by_the_store(
    request: LinkSteamAccountRequest,
    answer: Result<SteamLink, Status>,
    states: Seq<LinkSteamAccount>,
    events: Seq<LinkSteamEvent>,
)
    requires
        is_run(states, events),
        states[0] == LinkSteamAccount::LookupName(request),
        states.last() == LinkSteamAccount::Done(answer),
    ensures
        events.len() == 2,
        states[1] matches LinkSteamAccount::Link(profile_id, link) && profile_id
            == request.profile_id && (events[0] matches LinkSteamEvent::Name(name) && link.links(
            request,
            name,
        )) && (events[1] matches LinkSteamEvent::Linked(linked) && match linked {
            Ok(_) => answer == Ok::<SteamLink, Status>(link),
            Err(err) => answer matches Err(status) && err.answered(failure_code(err.kind), status),
        }),
{
    assert(events.len() > 0);
    assert(states[0].awaits(events[0]));
    assert(events.len() > 1 ==> states[1].awaits(events[1]));
    assert(events.len() > 1);
    assert(events.len() > 2 ==> states[2].awaits(events[2]));
}

/// The event that tells of a user says of each thing what is so of that user.
pub proof fn event_tells_of_the_user(user: SteamUser, event: SteamSessionEvent)
    requires
        call_ensures(to_event, (user,), event),
    ensures
        event.steam_id64 == user.steam_id64,
        event.account_name == user.account_name,
        event.is_active == user.is_active,
{
}

/// Linking a Steam account begins with the request as it is.
pub proof fn linking_steam_begins_with_the_request(
    request: LinkSteamAccountRequest,
    call: LinkSteamAccount,
)
    requires
        call_ensures(LinkSteamAccount::begin, (request,), call),
    ensures
        call == LinkSteamAccount::LookupName(request),
{
}

/// Whatever comes of a step of linking a Steam account is awaited there, and nothing is
/// awaited once the call is answered.
pub proof fn linking_steam_awaits_every_outcome(
    call: LinkSteamAccount,
    name: Option<String>,
    linked: Result<(), CoreError>,
    event: LinkSteamEvent,
)
    ensures
        call is LookupName <==> call.awaits(LinkSteamEvent::Name(name)),
        call is Link <==> call.awaits(LinkSteamEvent::Linked(linked)),
        call is Done ==> !call.awaits(event),
{
}

/// An event that linking a Steam account does not wait for changes nothing.
pub proof fn stray_events_do_not_touch_linking_steam(state: LinkSteamAccount, event: LinkSteamEvent, next: LinkSteamAccount)
    requires
        !state.awaits(event),
        state.stepped(event, next),
    ensures
        next == state,
{
}

} // verus!
