//! Calls that are passed on to the plugin of the storefront that they name.

use vstd::prelude::*;
use crate::machine::{is_run, Machine};
use crate::registry::{parse_storefront, refused, require, Reach, Storefront, StorefrontRef};
use crate::status::{Code, Status};

verus! {

/// A call that is passed on, by what is to be done next. `Q` is its request, `A` its
/// answer.
#[derive(Debug)]
pub enum ProxyCall<Q, A> {
    /// Reach the storefront's plugin.
    Reach(Q, Storefront),
    /// Pass the request on.
    Forward(Q),
    /// Answer the call.
    Done(Result<A, Status>),
}

/// What a call that is passed on waits for.
#[derive(Debug)]
pub enum ProxyEvent<A> {
    Reached(Reach),
    Answered(Result<A, Status>),
}

impl<Q, A> ProxyCall<Q, A> {
    /// Begins with the storefront that the request names.
    pub fn begin(request: Q, storefront: &StorefrontRef) -> (r: Self)
        ensures
            match r {
                ProxyCall::Reach(kept, known) => kept == request && storefront.is_known_as(known),
                ProxyCall::Done(Err(status)) => storefront.name is None && status.says(
                    Code::InvalidArgument,
                    "invalid storefront"@,
                ),
                _ => false,
            },
    {
        match parse_storefront(storefront) {
            Ok(known) => ProxyCall::Reach(request, known),
            Err(status) => ProxyCall::Done(Err(status)),
        }
    }
}

impl<Q, A> Machine for ProxyCall<Q, A> {
    type Event = ProxyEvent<A>;

    open spec fn awaits(self, event: ProxyEvent<A>) -> bool {
        match self {
            ProxyCall::Reach(_, _) => event is Reached,
            ProxyCall::Forward(_) => event is Answered,
            ProxyCall::Done(_) => false,
        }
    }

    open spec fn stepped(self, event: ProxyEvent<A>, next: Self) -> bool {
        match (self, event) {
            (ProxyCall::Reach(request, storefront), ProxyEvent::Reached(reach)) => match reach {
                Reach::Connected => next == ProxyCall::<Q, A>::Forward(request),
                _ => next matches ProxyCall::Done(Err(status)) && refused(
                    storefront,
                    reach,
                    status,
                ),
            },
            (ProxyCall::Forward(_), ProxyEvent::Answered(answer)) => next
                == ProxyCall::<Q, A>::Done(answer),
            _ => next == self,
        }
    }

    fn step(self, event: ProxyEvent<A>) -> (next: Self) {
        match (self, event) {
            (ProxyCall::Reach(request, storefront), ProxyEvent::Reached(reach)) => {
                match require(&storefront, reach) {
                    Ok(_) => ProxyCall::Forward(request),
                    Err(status) => ProxyCall::Done(Err(status)),
                }
            },
            (ProxyCall::Forward(_), ProxyEvent::Answered(answer)) => ProxyCall::Done(answer),
            (state, _) => state,
        }
    }
}

/// The calls that name no storefront, and so cannot be passed on.
#[derive(Clone, Copy, Debug, PartialEq, Eq, Structural)]
pub enum Unrouted {
    ListGames,
    WatchGames,
    GetInstallManifest,
}

/// Refuses a call that names no storefront, with the call that serves instead.
pub fn unrouted(call: Unrouted) -> (r: Status)
    ensures
        r.says(
            Code::Unimplemented,
            match call {
                Unrouted::ListGames => {
                    "call Library.ListGames for an aggregate view across storefronts"@
                },
                Unrouted::WatchGames => {
                    "call Library.WatchGames for an aggregate view across storefronts"@
                },
                Unrouted::GetInstallManifest => {
                    "call Library.InstallGame, which resolves the owning plugin itself"@
                },
            },
        ),
{
    match call {
        Unrouted::ListGames => Status::with(
            Code::Unimplemented,
            "call Library.ListGames for an aggregate view across storefronts",
        ),
        Unrouted::WatchGames => Status::with(
            Code::Unimplemented,
            "call Library.WatchGames for an aggregate view across storefronts",
        ),
        Unrouted::GetInstallManifest => Status::with(
            Code::Unimplemented,
            "call Library.InstallGame, which resolves the owning plugin itself",
        ),
    }
}

/// A call is passed on as it came, and the plugin's answer, a failure too, is the
/// answer to the call. Where the plugin is not reached, it is asked for nothing.
pub proof fn answer_is_the_plugins<Q, A>(
    request: Q,
    storefront: Storefront,
    answer: Result<A, Status>,
    states: Seq<ProxyCall<Q, A>>,
    events: Seq<ProxyEvent<A>>,
)
    requires
        is_run(states, events),
        states[0] == ProxyCall::<Q, A>::Reach(request, storefront),
        states.last() == ProxyCall::<Q, A>::Done(answer),
    ensures
        events[0] matches ProxyEvent::Reached(reach) && match reach {
            Reach::Connected => {
                &&& events.len() == 2
                &&& states[1] == ProxyCall::<Q, A>::Forward(request)
                &&& events[1] == ProxyEvent::Answered(answer)
            },
            _ => {
                &&& events.len() == 1
                &&& answer matches Err(status) && refused(storefront, reach, status)
            },
        },
{
    assert(events.len() > 0);
    assert(states[0].awaits(events[0]));
    assert(events.len() > 1 ==> states[1].awaits(events[1]));
    assert(events.len() > 2 ==> states[2].awaits(events[2]));
}

/// A call that is passed on begins with its request and the storefront that it names, and
/// is refused where the storefront has no name.
pub proof fn passing_on_begins_with_the_storefront<Q, A>(
    request: Q,
    storefront: StorefrontRef,
    call: ProxyCall<Q, A>,
)
    requires
        call_ensures(ProxyCall::<Q, A>::begin, (request, &storefront), call),
    ensures
        storefront.name matches Some(name) ==> (call matches ProxyCall::Reach(kept, known) && kept
            == request && known.name == name && known.number == storefront.number),
        storefront.name is None ==> (call matches ProxyCall::Done(Err(status)) && status.code
            == Code::InvalidArgument && status.message@ == "invalid storefront"@),
{
}

/// A call that names no storefront is not implemented, and names the call of the library
/// that serves instead.
pub proof fn unrouted_calls_name_another(call: Unrouted, status: Status)
    requires
        call_ensures(unrouted, (call,), status),
    ensures
        status.code == Code::Unimplemented,
        call == Unrouted::ListGames ==> status.message@
            == "call Library.ListGames for an aggregate view across storefronts"@,
        call == Unrouted::WatchGames ==> status.message@
            == "call Library.WatchGames for an aggregate view across storefronts"@,
        call == Unrouted::GetInstallManifest ==> status.message@
            == "call Library.InstallGame, which resolves the owning plugin itself"@,
{
}

/// Whatever comes of a step of passing a call on is awaited there, and nothing is awaited
/// once the call is answered.
pub proof fn passing_on_awaits_every_outcome<Q, A>(
    call: ProxyCall<Q, A>,
    reach: Reach,
    answer: Result<A, Status>,
    event: ProxyEvent<A>,
)
    ensures
        call is Reach <==> call.awaits(ProxyEvent::Reached(reach)),
        call is Forward <==> call.awaits(ProxyEvent::Answered(answer)),
        call is Done ==> !call.awaits(event),
{
}

/// An event that a call that is passed on does not wait for changes nothing.
pub proof fn stray_events_do_not_touch_a_passed_call<Q, A>(state: ProxyCall<Q, A>, event: ProxyEvent<A>, next: ProxyCall<Q, A>)
    requires
        !state.awaits(event),
        state.stepped(event, next),
    ensures
        next == state,
{
}

} // verus!
