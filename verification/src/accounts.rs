//! Linking a storefront account to a profile, and unlinking it.

use vstd::prelude::*;
use crate::machine::{is_run, Machine};
use crate::registry::{parse_storefront, refused, require, Reach, Storefront, StorefrontRef};
use crate::status::{Code, CoreError, ErrorKind, ProfileError, Status};

verus! {

/// The code that a failure of the profile store is answered with.
pub open spec fn failure_code(kind: ErrorKind) -> Code {
    match kind {
        ErrorKind::Profile(ProfileError::NotFound) => Code::NotFound,
        _ => Code::Internal,
    }
}

/// Answers a failure of the profile store.
pub fn to_status(err: CoreError) -> (r: Status)
    ensures
        err.answered(failure_code(err.kind), r),
{
    let code: Code = match &err.kind {
        ErrorKind::Profile(ProfileError::NotFound) => Code::NotFound,
        _ => Code::Internal,
    };
    err.answer(code)
}

/// A request to complete a login and link its account.
#[derive(Debug)]
pub struct LinkAccountRequest {
    pub profile_id: String,
    pub storefront: StorefrontRef,
    pub challenge_id: String,
    pub user_input: String,
}

/// What a plugin is asked to complete a login with.
#[derive(Debug)]
pub struct CompleteLoginRequest {
    pub challenge_id: String,
    pub profile_id: String,
    pub storefront: i32,
    pub user_input: String,
}

/// Linking an account, by what is to be done next. `A` is the account that a plugin
/// gives.
pub enum LinkAccount<A> {
    /// Make sure that the profile exists.
    EnsureProfile(LinkAccountRequest),
    /// Reach the storefront's plugin.
    Reach(LinkAccountRequest, Storefront),
    /// Have the plugin complete the login.
    CompleteLogin(CompleteLoginRequest),
    /// Attach the account to the profile.
    Attach(String, A),
    /// Answer the call.
    Done(Result<A, Status>),
}

/// What linking an account waits for.
pub enum LinkEvent<A> {
    Profile(Result<(), CoreError>),
    Reached(Reach),
    Login(Result<A, Status>),
    Attached(Result<(), CoreError>),
}

impl<A> LinkAccount<A> {
    /// Begins with the profile: a login challenge can be answered once, and is not
    /// spent on a profile that does not exist.
    pub fn begin(request: LinkAccountRequest) -> (r: Self)
        ensures
            r == LinkAccount::<A>::EnsureProfile(request),
    {
        LinkAccount::EnsureProfile(request)
    }
}

impl<A> Machine for LinkAccount<A> {
    type Event = LinkEvent<A>;

    open spec fn awaits(self, event: LinkEvent<A>) -> bool {
        match self {
            LinkAccount::EnsureProfile(_) => event is Profile,
            LinkAccount::Reach(_, _) => event is Reached,
            LinkAccount::CompleteLogin(_) => event is Login,
            LinkAccount::Attach(_, _) => event is Attached,
            LinkAccount::Done(_) => false,
        }
    }

    open spec fn stepped(self, event: LinkEvent<A>, next: Self) -> bool {
        match (self, event) {
            (LinkAccount::EnsureProfile(request), LinkEvent::Profile(Ok(()))) => match next {
                LinkAccount::Reach(kept, storefront) => kept == request
                    && request.storefront.is_known_as(storefront),
                LinkAccount::Done(Err(status)) => request.storefront.name is None && status.says(
                    Code::InvalidArgument,
                    "invalid storefront"@,
                ),
                _ => false,
            },
            (LinkAccount::EnsureProfile(_), LinkEvent::Profile(Err(err))) => next matches
                LinkAccount::Done(Err(status)) && err.answered(failure_code(err.kind), status),
            (LinkAccount::Reach(request, storefront), LinkEvent::Reached(reach)) => match reach {
                Reach::Connected => next matches LinkAccount::CompleteLogin(login)
                    && login.challenge_id == request.challenge_id && login.profile_id
                    == request.profile_id && login.storefront == request.storefront.number
                    && login.user_input == request.user_input,
                _ => next matches LinkAccount::Done(Err(status)) && refused(
                    storefront,
                    reach,
                    status,
                ),
            },
            (LinkAccount::CompleteLogin(login), LinkEvent::Login(Ok(account))) => next
                == LinkAccount::Attach(login.profile_id, account),
            (LinkAccount::CompleteLogin(_), LinkEvent::Login(Err(status))) => next
                == LinkAccount::<A>::Done(Err(status)),
            (LinkAccount::Attach(_, account), LinkEvent::Attached(Ok(()))) => next
                == LinkAccount::Done(Ok(account)),
            (LinkAccount::Attach(_, _), LinkEvent::Attached(Err(err))) => next matches
                LinkAccount::Done(Err(status)) && err.answered(failure_code(err.kind), status),
            _ => next == self,
        }
    }

    fn step(self, event: LinkEvent<A>) -> (next: Self) {
        match (self, event) {
            (LinkAccount::EnsureProfile(request), LinkEvent::Profile(Ok(()))) => {
                match parse_storefront(&request.storefront) {
                    Ok(storefront) => LinkAccount::Reach(request, storefront),
                    Err(status) => LinkAccount::Done(Err(status)),
                }
            },
            (LinkAccount::EnsureProfile(_), LinkEvent::Profile(Err(err))) => LinkAccount::Done(
                Err(to_status(err)),
            ),
            (LinkAccount::Reach(request, storefront), LinkEvent::Reached(reach)) => {
                match require(&storefront, reach) {
                    Ok(()) => LinkAccount::CompleteLogin(
                        CompleteLoginRequest {
                            challenge_id: request.challenge_id,
                            profile_id: request.profile_id,
                            storefront: request.storefront.number,
                            user_input: request.user_input,
                        },
                    ),
                    Err(status) => LinkAccount::Done(Err(status)),
                }
            },
            (LinkAccount::CompleteLogin(login), LinkEvent::Login(Ok(account))) => {
                LinkAccount::Attach(login.profile_id, account)
            },
            (LinkAccount::CompleteLogin(_), LinkEvent::Login(Err(status))) => LinkAccount::Done(
                Err(status),
            ),
            (LinkAccount::Attach(_, account), LinkEvent::Attached(Ok(()))) => LinkAccount::Done(
                Ok(account),
            ),
            (LinkAccount::Attach(_, _), LinkEvent::Attached(Err(err))) => LinkAccount::Done(
                Err(to_status(err)),
            ),
            (state, _) => state,
        }
    }
}

/// An account is linked only after its profile was found, its plugin was reached and
/// its login was completed, in this order, and the account that is answered is the
/// one that the plugin gave.
pub proof fn linked_account_passed_every_step<A>(
    request: LinkAccountRequest,
    states: Seq<LinkAccount<A>>,
    events: Seq<LinkEvent<A>>,
    account: A,
)
    requires
        is_run(states, events),
        states[0] == LinkAccount::<A>::EnsureProfile(request),
        states.last() == LinkAccount::Done(Ok(account)),
    ensures
        events.len() == 4,
        events[0] matches LinkEvent::Profile(Ok(_)),
        events[1] == LinkEvent::<A>::Reached(Reach::Connected),
        events[2] == LinkEvent::Login(Ok(account)),
        events[3] matches LinkEvent::Attached(Ok(_)),
        states[3] == LinkAccount::Attach(request.profile_id, account),
{
    assert(events.len() > 0);
    assert(states[0].awaits(events[0]));
    assert(events.len() > 1 ==> states[1].awaits(events[1]));
    assert(events.len() > 1);
    assert(events.len() > 2 ==> states[2].awaits(events[2]));
    assert(events.len() > 2);
    assert(events.len() > 3 ==> states[3].awaits(events[3]));
    assert(events.len() > 3);
    assert(events.len() > 4 ==> states[4].awaits(events[4]));
    assert(events.len() == 4);
}

/// No login is asked of a plugin unless the profile was found first.
pub proof fn login_waits_for_the_profile<A>(
    request: LinkAccountRequest,
    states: Seq<LinkAccount<A>>,
    events: Seq<LinkEvent<A>>,
)
    requires
        is_run(states, events),
        states[0] == LinkAccount::<A>::EnsureProfile(request),
        states.last() is CompleteLogin,
    ensures
        events.len() == 2,
        events[0] matches LinkEvent::Profile(Ok(_)),
        states.last()->CompleteLogin_0.profile_id == request.profile_id,
        states.last()->CompleteLogin_0.challenge_id == request.challenge_id,
{
    assert(events.len() > 0);
    assert(states[0].awaits(events[0]));
    assert(events.len() > 1 ==> states[1].awaits(events[1]));
    assert(events.len() > 1);
    assert(events.len() > 2 ==> states[2].awaits(events[2]));
    assert(events.len() > 3 ==> states[3].awaits(events[3]));
    assert(events.len() > 4 ==> states[4].awaits(events[4]));
}

/// A request to unlink a storefront's account.
#[derive(Debug)]
pub struct UnlinkAccountRequest {
    pub profile_id: String,
    pub storefront: StorefrontRef,
}

/// Unlinking an account, by what is to be done next.
pub enum UnlinkAccount {
    /// Reach the storefront's plugin.
    Reach(UnlinkAccountRequest, Storefront),
    /// Have the plugin revoke the session of the profile and storefront.
    Revoke(UnlinkAccountRequest),
    /// Remove the account from the profile, by the number of its storefront.
    Detach(UnlinkAccountRequest),
    /// Answer the call.
    Done(Result<(), Status>),
}

/// What unlinking an account waits for.
pub enum UnlinkEvent {
    Reached(Reach),
    Revoked(Result<(), Status>),
    Detached(Result<(), CoreError>),
}

impl UnlinkAccount {
    /// Begins with the plugin, where the storefront is known, so that it can revoke
    /// the session.
    pub fn begin(request: UnlinkAccountRequest) -> (r: Self)
        ensures
            match r {
                UnlinkAccount::Reach(kept, storefront) => kept == request
                    && request.storefront.is_known_as(storefront),
                UnlinkAccount::Detach(kept) => kept == request && request.storefront.name is None,
                _ => false,
            },
    {
        match request.storefront.known() {
            Some(storefront) => UnlinkAccount::Reach(request, storefront),
            None => UnlinkAccount::Detach(request),
        }
    }

    /// The request that is being answered.
    pub open spec fn request(self) -> Option<UnlinkAccountRequest> {
        match self {
            UnlinkAccount::Reach(request, _) => Some(request),
            UnlinkAccount::Revoke(request) => Some(request),
            UnlinkAccount::Detach(request) => Some(request),
            UnlinkAccount::Done(_) => None,
        }
    }
}

impl Machine for UnlinkAccount {
    type Event = UnlinkEvent;

    open spec fn awaits(self, event: UnlinkEvent) -> bool {
        match self {
            UnlinkAccount::Reach(_, _) => event is Reached,
            UnlinkAccount::Revoke(_) => event is Revoked,
            UnlinkAccount::Detach(_) => event is Detached,
            UnlinkAccount::Done(_) => false,
        }
    }

    open spec fn stepped(self, event: UnlinkEvent, next: Self) -> bool {
        match (self, event) {
            (UnlinkAccount::Reach(request, _), UnlinkEvent::Reached(Reach::Connected)) => next
                == UnlinkAccount::Revoke(request),
            (UnlinkAccount::Reach(request, _), UnlinkEvent::Reached(_)) => next
                == UnlinkAccount::Detach(request),
            (UnlinkAccount::Revoke(request), UnlinkEvent::Revoked(_)) => next
                == UnlinkAccount::Detach(request),
            (UnlinkAccount::Detach(_), UnlinkEvent::Detached(Ok(()))) => next
                == UnlinkAccount::Done(Ok(())),
            (UnlinkAccount::Detach(_), UnlinkEvent::Detached(Err(err))) => next matches
                UnlinkAccount::Done(Err(status)) && err.answered(failure_code(err.kind), status),
            _ => next == self,
        }
    }

    fn step(self, event: UnlinkEvent) -> (next: Self) {
        match (self, event) {
            (UnlinkAccount::Reach(request, _), UnlinkEvent::Reached(reach)) => match reach {
                Reach::Connected => UnlinkAccount::Revoke(request),
                _ => UnlinkAccount::Detach(request),
            },
            (UnlinkAccount::Revoke(request), UnlinkEvent::Revoked(_)) => UnlinkAccount::Detach(
                request,
            ),
            (UnlinkAccount::Detach(_), UnlinkEvent::Detached(result)) => match result {
                Ok(()) => UnlinkAccount::Done(Ok(())),
                Err(err) => UnlinkAccount::Done(Err(to_status(err))),
            },
            (state, _) => state,
        }
    }
}

/// Nothing that happens on the plugin's side keeps an account linked: a finished call
/// has asked for the account of the request to be removed, and is answered by how
/// that went.
pub proof fn unlinking_always_detaches(
    request: UnlinkAccountRequest,
    states: Seq<UnlinkAccount>,
    events: Seq<UnlinkEvent>,
)
    requires
        is_run(states, events),
        states[0].request() == Some(request),
        states.last() is Done,
    ensures
        events.len() >= 1,
        states[events.len() - 1] == UnlinkAccount::Detach(request),
        events.last() matches UnlinkEvent::Detached(result) && (states.last()->Done_0 is Ok
            <==> result is Ok),
    decreases events.len(),
{
    assert(events.len() > 0);
    let n = events.len() - 1;
    assert(states[n].awaits(events[n]));
    lemma_unlink_request(request, states, events, n);
}

proof fn lemma_unlink_request(
    request: UnlinkAccountRequest,
    states: Seq<UnlinkAccount>,
    events: Seq<UnlinkEvent>,
    n: int,
)
    requires
        is_run(states, events),
        states[0].request() == Some(request),
        0 <= n <= events.len(),
    ensures
        states[n] is Done || states[n].request() == Some(request),
    decreases n,
{
    if n > 0 {
        lemma_unlink_request(request, states, events, n - 1);
        assert(states[n - 1].awaits(events[n - 1]));
    }
}

/// Unlinking takes three steps at most.
pub proof fn unlinking_ends(states: Seq<UnlinkAccount>, events: Seq<UnlinkEvent>)
    requires
        is_run(states, events),
    ensures
        events.len() <= 3,
{
    assert(events.len() > 0 ==> states[0].awaits(events[0]));
    assert(events.len() > 1 ==> states[1].awaits(events[1]));
    assert(events.len() > 2 ==> states[2].awaits(events[2]));
    assert(events.len() > 3 ==> states[3].awaits(events[3]));
}

/// A failure of the profile store is one that was not found exactly where the store says
/// that the profile was not found, and internal otherwise.
pub proof fn missing_profile_is_not_found(kind: ErrorKind)
    ensures
        failure_code(kind) == Code::NotFound <==> kind == ErrorKind::Profile(ProfileError::NotFound),
        failure_code(kind) == Code::NotFound || failure_code(kind) == Code::Internal,
{
}

/// What linking an account is answered with, from what came of each step: the first step
/// that fails is answered with its failure, and nothing is asked for after it; the plugin
/// is given the challenge, the profile, the storefront's number and the input of the
/// request; and what is attached to the profile, and answered, is the plugin's account.
pub proof fn linking_is_answered_by_its_steps<A>(
    request: LinkAccountRequest,
    answer: Result<A, Status>,
    states: Seq<LinkAccount<A>>,
    events: Seq<LinkEvent<A>>,
)
    requires
        is_run(states, events),
        states[0] == LinkAccount::<A>::EnsureProfile(request),
        states.last() == LinkAccount::Done(answer),
    ensures
        events.len() > 0,
        events[0] matches LinkEvent::Profile(found) && match found {
            Err(err) => events.len() == 1 && (answer matches Err(status) && err.answered(
                failure_code(err.kind),
                status,
            )),
            Ok(_) => if request.storefront.name is None {
                events.len() == 1 && (answer matches Err(status) && status.says(
                    Code::InvalidArgument,
                    "invalid storefront"@,
                ))
            } else {
                &&& events.len() >= 2
                &&& states[1] matches LinkAccount::Reach(kept, storefront) && kept == request
                    && storefront.number == request.storefront.number && request.storefront.name
                    == Some(storefront.name)
                &&& events[1] matches LinkEvent::Reached(reach) && match reach {
                    Reach::Absent => events.len() == 2 && (answer matches Err(status)
                        && status.says(
                        Code::Unavailable,
                        "no plugin registered for "@ + request.storefront.name->0@,
                    )),
                    Reach::Failed(cause) => events.len() == 2 && answer == Err::<A, Status>(cause),
                    Reach::Connected => {
                        &&& events.len() >= 3
                        &&& states[2] matches LinkAccount::CompleteLogin(login)
                            && login.challenge_id == request.challenge_id && login.profile_id
                            == request.profile_id && login.storefront == request.storefront.number
                            && login.user_input == request.user_input
                        &&& events[2] matches LinkEvent::Login(login) && match login {
                            Err(status) => events.len() == 3 && answer == Err::<A, Status>(status),
                            Ok(account) => {
                                &&& events.len() == 4
                                &&& states[3] == LinkAccount::Attach(request.profile_id, account)
                                &&& events[3] matches LinkEvent::Attached(attached)
                                    && match attached {
                                    Ok(_) => answer == Ok::<A, Status>(account),
                                    Err(err) => answer matches Err(status) && err.answered(
                                        failure_code(err.kind),
                                        status,
                                    ),
                                }
                            },
                        }
                    },
                }
            },
        },
{
    assert(events.len() > 0);
    assert(states[0].awaits(events[0]));
    assert(events.len() > 1 ==> states[1].awaits(events[1]));
    assert(events.len() > 2 ==> states[2].awaits(events[2]));
    assert(events.len() > 3 ==> states[3].awaits(events[3]));
    assert(events.len() > 4 ==> states[4].awaits(events[4]));
}

/// What unlinking an account asks for, from what came of each step: the plugin of a known
/// storefront revokes the session where it is connected, and only there; whatever came of
/// that, the account of the same request is removed, and how that went is the answer.
pub proof fn unlinking_is_answered_by_its_removal(
    request: UnlinkAccountRequest,
    storefront: Storefront,
    answer: Result<(), Status>,
    states: Seq<UnlinkAccount>,
    events: Seq<UnlinkEvent>,
)
    requires
        is_run(states, events),
        states[0] == UnlinkAccount::Reach(request, storefront) || states[0]
            == UnlinkAccount::Detach(request),
        states.last() == UnlinkAccount::Done(answer),
    ensures
        events.len() > 0,
        states[0] is Detach ==> events.len() == 1,
        states[0] is Reach ==> (events[0] matches UnlinkEvent::Reached(reach) && if reach
            is Connected {
            events.len() == 3 && states[1] == UnlinkAccount::Revoke(request) && events[1] is Revoked
        } else {
            events.len() == 2
        }),
        states[events.len() - 1] == UnlinkAccount::Detach(request),
        events.last() matches UnlinkEvent::Detached(result) && match result {
            Ok(_) => answer is Ok,
            Err(err) => answer matches Err(status) && err.answered(failure_code(err.kind), status),
        },
{
    assert(events.len() > 0);
    assert(states[0].awaits(events[0]));
    assert(events.len() > 1 ==> states[1].awaits(events[1]));
    assert(events.len() > 2 ==> states[2].awaits(events[2]));
    assert(events.len() > 3 ==> states[3].awaits(events[3]));
}

/// Linking begins with the profile of the request. Unlinking begins with the plugin where
/// the storefront has a name, under its number and name, and with the removal otherwise.
pub proof fn linking_and_unlinking_begin<A>(
    link: LinkAccountRequest,
    linking: LinkAccount<A>,
    unlink: UnlinkAccountRequest,
    unlinking: UnlinkAccount,
)
    requires
        call_ensures(LinkAccount::<A>::begin, (link,), linking),
        call_ensures(UnlinkAccount::begin, (unlink,), unlinking),
    ensures
        linking == LinkAccount::<A>::EnsureProfile(link),
        unlink.storefront.name is None ==> unlinking == UnlinkAccount::Detach(unlink),
        unlink.storefront.name matches Some(name) ==> (unlinking matches UnlinkAccount::Reach(
            kept,
            storefront,
        ) && kept == unlink && storefront.name == name && storefront.number
            == unlink.storefront.number),
{
}

/// A failure of the profile store is answered as not found where a profile is missing,
/// with the status of another service where it is one, and as internal otherwise.
pub proof fn account_failures_are_answered(err: CoreError, status: Status)
    requires
        call_ensures(to_status, (err,), status),
    ensures
        err.kind matches ErrorKind::Status(own) ==> status == own,
        !(err.kind is Status) ==> status.message@ == err.message@ && status.code == (if err.kind
            == ErrorKind::Profile(ProfileError::NotFound) {
            Code::NotFound
        } else {
            Code::Internal
        }),
{
}

/// Whatever comes of a step of linking or unlinking is awaited there, and nothing is
/// awaited once the call is answered.
pub proof fn accounts_await_every_outcome<A>(
    link: LinkAccount<A>,
    unlink: UnlinkAccount,
    stored: Result<(), CoreError>,
    reach: Reach,
    login: Result<A, Status>,
    revoked: Result<(), Status>,
    linking: LinkEvent<A>,
    unlinking: UnlinkEvent,
)
    ensures
        link is EnsureProfile <==> link.awaits(LinkEvent::Profile(stored)),
        link is Reach <==> link.awaits(LinkEvent::Reached(reach)),
        link is CompleteLogin <==> link.awaits(LinkEvent::Login(login)),
        link is Attach <==> link.awaits(LinkEvent::Attached(stored)),
        link is Done ==> !link.awaits(linking),
        unlink is Reach <==> unlink.awaits(UnlinkEvent::Reached(reach)),
        unlink is Revoke <==> unlink.awaits(UnlinkEvent::Revoked(revoked)),
        unlink is Detach <==> unlink.awaits(UnlinkEvent::Detached(stored)),
        unlink is Done ==> !unlink.awaits(unlinking),
{
}

/// An event that linking an account does not wait for changes nothing.
pub proof fn stray_events_do_not_touch_linking<A>(state: LinkAccount<A>, event: LinkEvent<A>, next: LinkAccount<A>)
    requires
        !state.awaits(event),
        state.stepped(event, next),
    ensures
        next == state,
{
}

/// An event that unlinking an account does not wait for changes nothing.
pub proof fn stray_events_do_not_touch_unlinking(state: UnlinkAccount, event: UnlinkEvent, next: UnlinkAccount)
    requires
        !state.awaits(event),
        state.stepped(event, next),
    ensures
        next == state,
{
}

} // verus!
