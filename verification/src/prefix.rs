//! Layered prefixes: preparing one, launching in one, capturing one as a layer, and
//! holding those that are in use until they are released.

use std::collections::HashMap;

use vstd::prelude::*;
use crate::machine::{is_run, Machine};
use crate::status::{Code, CoreError, Status};
use crate::text::join2;

verus! {

broadcast use vstd::std_specs::hash::group_hash_axioms;

/// The endpoint of WineBridge, where the environment does not name another: the address
/// that its agent binds to by default.
pub const DEFAULT_WINEBRIDGE_ADDR: &'static str = "http://127.0.0.1:50051";

/// The endpoint of WineBridge, from what the environment says.
pub fn winebridge_addr(configured: Option<String>) -> (r: String)
    ensures
        r@ == match configured {
            Some(addr) => addr@,
            None => DEFAULT_WINEBRIDGE_ADDR@,
        },
{
    match configured {
        Some(addr) => addr,
        None => DEFAULT_WINEBRIDGE_ADDR.to_owned(),
    }
}

/// A path that a variable of the environment must give.
pub fn env_path(var: &str, value: Option<String>) -> (r: Result<String, Status>)
    ensures
        match value {
            Some(path) => r == Ok::<String, Status>(path),
            None => r matches Err(status) && status.says(
                Code::FailedPrecondition,
                var@ + " not set"@,
            ),
        },
{
    match value {
        Some(path) => Ok(path),
        None => Err(Status::new(Code::FailedPrecondition, join2(var, " not set"))),
    }
}

/// Answers a failure to mount or capture layers, by its message.
pub fn layers_status(message: String) -> (r: Status)
    ensures
        r.says(Code::Internal, message@),
{
    Status::new(Code::Internal, message)
}

/// Answers a failure of the core library, whatever its kind.
pub fn core_status(err: CoreError) -> (r: Status)
    ensures
        r.says(Code::Internal, err.message@),
{
    Status::new(Code::Internal, err.message)
}

/// A layer of a request: a repository, and a state of it where one is named.
#[derive(Debug)]
pub struct Layer {
    pub repo: String,
    pub state: Option<String>,
}

/// What is mounted as a layer.
#[derive(Debug)]
pub struct LayerRef {
    pub repo: String,
    pub state: Option<String>,
}

/// The layers of a request, from the lowest on.
pub open spec fn refers_to(layers: Seq<Layer>, refs: Seq<LayerRef>) -> bool {
    refs.len() == layers.len() && forall|i: int|
        0 <= i < layers.len() ==> (#[trigger] refs[i]).repo == layers[i].repo && refs[i].state
            == layers[i].state
}

/// The layers of a request, from the lowest on.
pub fn to_layers(layers: &[Layer]) -> (r: Vec<LayerRef>)
    ensures
        refers_to(layers@, r@),
{
    let mut refs: Vec<LayerRef> = Vec::new();
    let mut i: usize = 0;
    while i < layers.len()
        invariant
            i <= layers@.len(),
            refers_to(layers@.take(i as int), refs@),
        decreases layers@.len() - i,
    {
        let state: Option<String> = match &layers[i].state {
            Some(state) => Some(state.clone()),
            None => None,
        };
        refs.push(LayerRef { repo: layers[i].repo.clone(), state });
        i += 1;
    }
    assert(layers@.take(i as int) =~= layers@);
    refs
}

/// The prefixes that are in use, each under the number of its session.
pub struct Sessions<T> {
    held: HashMap<u64, T>,
    next: u64,
}

/// What is in use, and the number of the next session.
#[verifier::ext_equal]
pub struct SessionsView<T> {
    pub held: Map<u64, T>,
    pub next: u64,
}

impl<T> View for Sessions<T> {
    type V = SessionsView<T>;

    closed spec fn view(&self) -> SessionsView<T> {
        SessionsView { held: self.held@, next: self.next }
    }
}

/// The number behind a session's; the numbers start again behind the largest.
pub open spec fn following(id: u64) -> u64 {
    if id == u64::MAX {
        0
    } else {
        (id + 1) as u64
    }
}

impl<T> SessionsView<T> {
    /// The sessions with one more.
    pub open spec fn with(self, active: T) -> Self {
        SessionsView { held: self.held.insert(self.next, active), next: following(self.next) }
    }

    /// The sessions without one.
    pub open spec fn without(self, id: u64) -> Self {
        SessionsView { held: self.held.remove(id), ..self }
    }

    /// The numbers have not started again: every session that is in use was given a
    /// smaller number than the next one.
    pub open spec fn is_counting(self) -> bool {
        forall|id: u64| #[trigger] self.held.contains_key(id) ==> id < self.next
    }
}

impl<T> Sessions<T> {
    /// No session, and the number 0 next.
    pub fn new() -> (r: Self)
        ensures
            r@.held == Map::<u64, T>::empty(),
            r@.next == 0,
    {
        Sessions { held: HashMap::new(), next: 0 }
    }

    /// Holds a prefix under the next number.
    pub fn insert(&mut self, active: T) -> (id: u64)
        ensures
            id == old(self)@.next,
            final(self)@ == old(self)@.with(active),
    {
        let id: u64 = self.next;
        self.next = id.wrapping_add(1);
        self.held.insert(id, active);
        id
    }

    /// Releases the prefix of a session; says whether there was one.
    pub fn release(&mut self, id: u64) -> (ok: bool)
        ensures
            ok == old(self)@.held.contains_key(id),
            final(self)@ == old(self)@.without(id),
    {
        let found = self.held.remove(&id);
        found.is_some()
    }
}

/// A prepared prefix.
#[derive(Debug)]
pub struct PrefixSession {
    pub session_id: u64,
    pub mountpoint: String,
}

/// A prefix with a program launched in it.
#[derive(Debug)]
pub struct LaunchResult {
    pub session_id: u64,
    pub mountpoint: String,
    pub pid: u32,
}

/// Answers the preparation of a prefix: one that was mounted is held, with the path that
/// it was mounted at.
pub fn prepare_prefix<T>(
    sessions: &mut Sessions<T>,
    mounted: Result<(T, String), String>,
) -> (r: Result<PrefixSession, Status>)
    ensures
        match mounted {
            Ok((mount, mountpoint)) => {
                &&& final(sessions)@ == old(sessions)@.with(mount)
                &&& r matches Ok(session) && session.session_id == old(sessions)@.next
                    && session.mountpoint == mountpoint
            },
            Err(message) => {
                &&& final(sessions)@ == old(sessions)@
                &&& r matches Err(status) && status.says(Code::Internal, message@)
            },
        },
{
    match mounted {
        Ok((mount, mountpoint)) => {
            let session_id: u64 = sessions.insert(mount);
            Ok(PrefixSession { session_id, mountpoint })
        },
        Err(message) => Err(layers_status(message)),
    }
}

/// A request to launch a program in a prefix.
#[derive(Debug)]
pub struct LaunchInPrefixRequest {
    pub lowers: Vec<Layer>,
    pub upper: String,
    pub mountpoint: String,
    pub executable: String,
    pub args: Vec<String>,
    pub terminal: bool,
    pub work_dir: Option<String>,
}

/// What is to be mounted, and what is to be launched there by WineBridge.
#[derive(Debug)]
pub struct LaunchPlan {
    pub winebridge: String,
    pub lowers: Vec<LayerRef>,
    pub upper: String,
    pub mountpoint: String,
    pub executable: String,
    pub args: Vec<String>,
    pub terminal: bool,
    pub work_dir: Option<String>,
}

impl LaunchPlan {
    /// This plan serves a request.
    pub open spec fn serves(self, request: LaunchInPrefixRequest) -> bool {
        &&& refers_to(request.lowers@, self.lowers@)
        &&& self.upper == request.upper
        &&& self.mountpoint == request.mountpoint
        &&& self.executable == request.executable
        &&& self.args == request.args
        &&& self.terminal == request.terminal
        &&& self.work_dir == request.work_dir
    }
}

/// Launching a program in a prefix, by what is to be done next.
#[derive(Debug)]
pub enum LaunchInPrefix {
    /// Read `WINE_BIN` from the environment.
    FindWine(LaunchInPrefixRequest),
    /// Use the Wine at this path.
    OpenWine(LaunchInPrefixRequest, String),
    /// Read `WINEBRIDGE_BIN` from the environment.
    FindWinebridge(LaunchInPrefixRequest),
    /// Mount the layers and launch the program, and answer by `launched`.
    Launch(LaunchPlan),
    /// Answer with a failure.
    Refuse(Status),
}

/// What launching a program in a prefix waits for.
#[derive(Debug)]
pub enum LaunchEvent {
    Env(Option<String>),
    Wine(Result<(), CoreError>),
}

impl LaunchInPrefix {
    /// Begins with Wine.
    pub fn begin(request: LaunchInPrefixRequest) -> (r: Self)
        ensures
            r == LaunchInPrefix::FindWine(request),
    {
        LaunchInPrefix::FindWine(request)
    }
}

impl Machine for LaunchInPrefix {
    type Event = LaunchEvent;

    open spec fn awaits(self, event: LaunchEvent) -> bool {
        match self {
            LaunchInPrefix::FindWine(_) => event is Env,
            LaunchInPrefix::OpenWine(_, _) => event is Wine,
            LaunchInPrefix::FindWinebridge(_) => event is Env,
            _ => false,
        }
    }

    open spec fn stepped(self, event: LaunchEvent, next: Self) -> bool {
        match (self, event) {
            (LaunchInPrefix::FindWine(request), LaunchEvent::Env(Some(path))) => next
                == LaunchInPrefix::OpenWine(request, path),
            (LaunchInPrefix::FindWine(_), LaunchEvent::Env(None)) => next matches
                LaunchInPrefix::Refuse(status) && status.says(
                Code::FailedPrecondition,
                "WINE_BIN"@ + " not set"@,
            ),
            (LaunchInPrefix::OpenWine(request, _), LaunchEvent::Wine(Ok(_))) => next
                == LaunchInPrefix::FindWinebridge(request),
            (LaunchInPrefix::OpenWine(_, _), LaunchEvent::Wine(Err(err))) => next matches
                LaunchInPrefix::Refuse(status) && status.says(Code::Internal, err.message@),
            (LaunchInPrefix::FindWinebridge(request), LaunchEvent::Env(Some(path))) => next matches
                LaunchInPrefix::Launch(plan) && plan.winebridge == path && plan.serves(request),
            (LaunchInPrefix::FindWinebridge(_), LaunchEvent::Env(None)) => next matches
                LaunchInPrefix::Refuse(status) && status.says(
                Code::FailedPrecondition,
                "WINEBRIDGE_BIN"@ + " not set"@,
            ),
            _ => next == self,
        }
    }

    fn step(self, event: LaunchEvent) -> (next: Self) {
        match (self, event) {
            (LaunchInPrefix::FindWine(request), LaunchEvent::Env(value)) => {
                match env_path("WINE_BIN", value) {
                    Ok(path) => LaunchInPrefix::OpenWine(request, path),
                    Err(status) => LaunchInPrefix::Refuse(status),
                }
            },
            (LaunchInPrefix::OpenWine(request, _), LaunchEvent::Wine(Ok(_))) => {
                LaunchInPrefix::FindWinebridge(request)
            },
            (LaunchInPrefix::OpenWine(_, _), LaunchEvent::Wine(Err(err))) => {
                LaunchInPrefix::Refuse(core_status(err))
            },
            (LaunchInPrefix::FindWinebridge(request), LaunchEvent::Env(value)) => {
                match env_path("WINEBRIDGE_BIN", value) {
                    Ok(winebridge) => LaunchInPrefix::Launch(
                        LaunchPlan {
                            winebridge,
                            lowers: to_layers(request.lowers.as_slice()),
                            upper: request.upper,
                            mountpoint: request.mountpoint,
                            executable: request.executable,
                            args: request.args,
                            terminal: request.terminal,
                            work_dir: request.work_dir,
                        },
                    ),
                    Err(status) => LaunchInPrefix::Refuse(status),
                }
            },
            (state, _) => state,
        }
    }
}

/// Answers a launch: one that succeeded is held, with the path that its prefix was
/// mounted at and the number of its process.
pub fn launched<T>(
    sessions: &mut Sessions<T>,
    started: Result<(T, String, u32), CoreError>,
) -> (r: Result<LaunchResult, Status>)
    ensures
        match started {
            Ok((active, mountpoint, pid)) => {
                &&& final(sessions)@ == old(sessions)@.with(active)
                &&& r matches Ok(result) && result.session_id == old(sessions)@.next
                    && result.mountpoint == mountpoint && result.pid == pid
            },
            Err(err) => {
                &&& final(sessions)@ == old(sessions)@
                &&& r matches Err(status) && status.says(Code::Internal, err.message@)
            },
        },
{
    match started {
        Ok((active, mountpoint, pid)) => {
            let session_id: u64 = sessions.insert(active);
            Ok(LaunchResult { session_id, mountpoint, pid })
        },
        Err(err) => Err(core_status(err)),
    }
}

/// Answers the capture of a layer: a yes, or the status of its failure.
pub fn capture_layer(captured: Result<(), String>) -> (r: Result<bool, Status>)
    ensures
        match captured {
            Ok(_) => r == Ok::<bool, Status>(true),
            Err(message) => r matches Err(status) && status.says(Code::Internal, message@),
        },
{
    match captured {
        Ok(_) => Ok(true),
        Err(message) => Err(layers_status(message)),
    }
}

/// Passing a message on to WineBridge, by what is to be done next.
#[derive(Debug)]
pub enum Notify {
    /// Connect to WineBridge at this endpoint.
    Connect(String, String),
    /// Send the message.
    Send(String),
    /// Answer whether WineBridge took the message, or with a failure.
    Done(Result<bool, Status>),
}

/// What passing a message on waits for.
#[derive(Debug)]
pub enum NotifyEvent {
    Connected(Result<(), Status>),
    Sent(Result<bool, Status>),
}

impl Notify {
    /// Begins with the endpoint, from what the environment says of it.
    pub fn begin(configured: Option<String>, message: String) -> (r: Self)
        ensures
            r matches Notify::Connect(addr, kept) && kept == message && addr@ == match configured {
                Some(addr) => addr@,
                None => DEFAULT_WINEBRIDGE_ADDR@,
            },
    {
        Notify::Connect(winebridge_addr(configured), message)
    }
}

impl Machine for Notify {
    type Event = NotifyEvent;

    open spec fn awaits(self, event: NotifyEvent) -> bool {
        match self {
            Notify::Connect(_, _) => event is Connected,
            Notify::Send(_) => event is Sent,
            Notify::Done(_) => false,
        }
    }

    open spec fn stepped(self, event: NotifyEvent, next: Self) -> bool {
        match (self, event) {
            (Notify::Connect(_, message), NotifyEvent::Connected(Ok(_))) => next == Notify::Send(
                message,
            ),
            (Notify::Connect(_, _), NotifyEvent::Connected(Err(status))) => next == Notify::Done(
                Err(status),
            ),
            (Notify::Send(_), NotifyEvent::Sent(result)) => next == Notify::Done(result),
            _ => next == self,
        }
    }

    fn step(self, event: NotifyEvent) -> (next: Self) {
        match (self, event) {
            (Notify::Connect(_, message), NotifyEvent::Connected(Ok(_))) => Notify::Send(message),
            (Notify::Connect(_, _), NotifyEvent::Connected(Err(status))) => Notify::Done(
                Err(status),
            ),
            (Notify::Send(_), NotifyEvent::Sent(result)) => Notify::Done(result),
            (state, _) => state,
        }
    }
}

/// Each new session gets a number that no session in use has, and leaves the others as
/// they are, until the numbers start again.
pub proof fn new_session_replaces_none<T>(sessions: SessionsView<T>, active: T)
    requires
        sessions.is_counting(),
    ensures
        !sessions.held.contains_key(sessions.next),
        forall|id: u64| #[trigger]
            sessions.held.contains_key(id) ==> sessions.with(active).held.contains_key(id)
                && sessions.with(active).held[id] == sessions.held[id],
        sessions.next < u64::MAX ==> sessions.with(active).is_counting(),
{
}

/// Releasing keeps the numbers counting.
pub proof fn releasing_keeps_counting<T>(sessions: SessionsView<T>, id: u64)
    requires
        sessions.is_counting(),
    ensures
        sessions.without(id).is_counting(),
{
}

/// A session that was just made can be released, which leaves what was in use before.
/// It cannot be released again.
pub proof fn releasing_undoes_preparing<T>(sessions: SessionsView<T>, active: T)
    requires
        sessions.is_counting(),
    ensures
        sessions.with(active).held.contains_key(sessions.next),
        sessions.with(active).without(sessions.next).held == sessions.held,
        !sessions.with(active).without(sessions.next).held.contains_key(sessions.next),
{
    assert(sessions.held.insert(sessions.next, active).remove(sessions.next) =~= sessions.held);
}

/// Nothing is launched unless both Wine and WineBridge were found, Wine first.
pub proof fn launch_needs_wine_and_winebridge(
    request: LaunchInPrefixRequest,
    plan: LaunchPlan,
    states: Seq<LaunchInPrefix>,
    events: Seq<LaunchEvent>,
)
    requires
        is_run(states, events),
        states[0] == LaunchInPrefix::FindWine(request),
        states.last() == LaunchInPrefix::Launch(plan),
    ensures
        events.len() == 3,
        events[0] matches LaunchEvent::Env(Some(path)) && states[1] == LaunchInPrefix::OpenWine(
            request,
            path,
        ),
        events[1] matches LaunchEvent::Wine(Ok(_)),
        events[2] == LaunchEvent::Env(Some(plan.winebridge)),
        plan.serves(request),
{
    assert(events.len() > 0);
    assert(states[0].awaits(events[0]));
    assert(events.len() > 1 ==> states[1].awaits(events[1]));
    assert(events.len() > 1);
    assert(events.len() > 2 ==> states[2].awaits(events[2]));
    assert(events.len() > 2);
    assert(events.len() > 3 ==> states[3].awaits(events[3]));
}

/// A new session is held under the next number with what is handed in, and every other
/// number holds what it held; the number behind it is next.
pub proof fn new_session_is_held_under_its_number<T>(
    sessions: SessionsView<T>,
    active: T,
    other: u64,
)
    ensures
        sessions.with(active).held.contains_key(sessions.next),
        sessions.with(active).held[sessions.next] == active,
        other != sessions.next ==> sessions.with(active).held.contains_key(other)
            == sessions.held.contains_key(other),
        other != sessions.next && sessions.held.contains_key(other) ==> sessions.with(
            active,
        ).held[other] == sessions.held[other],
        sessions.next < u64::MAX ==> sessions.with(active).next == sessions.next + 1,
        sessions.next == u64::MAX ==> sessions.with(active).next == 0,
{
}

/// A session that is released is not held any more; every other one is, and no number is
/// given out again on that account.
pub proof fn releasing_touches_one_session<T>(sessions: SessionsView<T>, id: u64, other: u64)
    ensures
        !sessions.without(id).held.contains_key(id),
        other != id ==> sessions.without(id).held.contains_key(other)
            == sessions.held.contains_key(other),
        other != id && sessions.held.contains_key(other) ==> sessions.without(id).held[other]
            == sessions.held[other],
        sessions.without(id).next == sessions.next,
{
}

/// The layers that are mounted are those of the request, in its order, each with its
/// repository and with a state exactly where the request names one.
pub proof fn layers_stay_in_order(layers: Seq<Layer>, refs: Seq<LayerRef>)
    requires
        refers_to(layers, refs),
    ensures
        refs.len() == layers.len(),
        forall|i: int| 0 <= i < layers.len() ==> #[trigger] refs[i].repo == layers[i].repo,
        forall|i: int| 0 <= i < layers.len() ==> #[trigger] refs[i].state == layers[i].state,
{
    assert forall|i: int| 0 <= i < layers.len() implies #[trigger] refs[i].state
        == layers[i].state by {
        assert(refs[i].repo == layers[i].repo);
    }
}

/// A plan has each part of the request under its own name.
pub proof fn plan_keeps_each_part(plan: LaunchPlan, request: LaunchInPrefixRequest)
    requires
        plan.serves(request),
    ensures
        refers_to(request.lowers@, plan.lowers@),
        plan.upper == request.upper,
        plan.mountpoint == request.mountpoint,
        plan.executable == request.executable,
        plan.args == request.args,
        plan.terminal == request.terminal,
        plan.work_dir == request.work_dir,
{
}

/// What a launch asks for and is refused with: Wine at the path that the environment
/// gives, then WineBridge; each that the environment does not give is named, and a Wine
/// that cannot be used is an internal failure in its own words.
pub proof fn launch_is_refused_by_what_is_missing(
    request: LaunchInPrefixRequest,
    states: Seq<LaunchInPrefix>,
    events: Seq<LaunchEvent>,
)
    requires
        is_run(states, events),
        states[0] == LaunchInPrefix::FindWine(request),
    ensures
        events.len() > 0 ==> (events[0] matches LaunchEvent::Env(value) && match value {
            Some(path) => states[1] == LaunchInPrefix::OpenWine(request, path),
            None => events.len() == 1 && (states[1] matches LaunchInPrefix::Refuse(status)
                && status.code == Code::FailedPrecondition && status.message@ == "WINE_BIN"@
                + " not set"@),
        }),
        events.len() > 1 ==> (events[1] matches LaunchEvent::Wine(opened) && match opened {
            Ok(_) => states[2] == LaunchInPrefix::FindWinebridge(request),
            Err(err) => events.len() == 2 && (states[2] matches LaunchInPrefix::Refuse(status)
                && status.code == Code::Internal && status.message@ == err.message@),
        }),
        events.len() > 2 ==> (events[2] matches LaunchEvent::Env(value) && match value {
            Some(path) => states[3] matches LaunchInPrefix::Launch(plan) && plan.winebridge == path
                && plan.serves(request),
            None => states[3] matches LaunchInPrefix::Refuse(status) && status.code
                == Code::FailedPrecondition && status.message@ == "WINEBRIDGE_BIN"@ + " not set"@,
        }),
        events.len() <= 3,
{
    assert(events.len() > 0 ==> states[0].awaits(events[0]));
    assert(events.len() > 1 ==> states[1].awaits(events[1]));
    assert(events.len() > 2 ==> states[2].awaits(events[2]));
    assert(events.len() > 3 ==> states[3].awaits(events[3]));
}

/// A message is passed on as it is once WineBridge is connected, and what WineBridge says
/// to it is the answer; a failure to connect, or to send, is answered as it is.
pub proof fn notifying_is_answered_by_winebridge(
    addr: String,
    message: String,
    answer: Result<bool, Status>,
    states: Seq<Notify>,
    events: Seq<NotifyEvent>,
)
    requires
        is_run(states, events),
        states[0] == Notify::Connect(addr, message),
        states.last() == Notify::Done(answer),
    ensures
        events.len() > 0,
        events[0] matches NotifyEvent::Connected(connected) && match connected {
            Err(status) => events.len() == 1 && answer == Err::<bool, Status>(status),
            Ok(_) => events.len() == 2 && states[1] == Notify::Send(message) && events[1]
                == NotifyEvent::Sent(answer),
        },
{
    assert(events.len() > 0);
    assert(states[0].awaits(events[0]));
    assert(events.len() > 1 ==> states[1].awaits(events[1]));
    assert(events.len() > 2 ==> states[2].awaits(events[2]));
}

/// WineBridge is where the environment says, or else at the default endpoint; a message to
/// it begins there and is kept as it is.
pub proof fn winebridge_is_where_the_environment_says(
    configured: Option<String>,
    addr: String,
    message: String,
    call: Notify,
)
    requires
        call_ensures(winebridge_addr, (configured,), addr),
        call_ensures(Notify::begin, (configured, message), call),
    ensures
        configured matches Some(own) ==> addr@ == own@,
        configured is None ==> addr@ == "http://127.0.0.1:50051"@,
        call matches Notify::Connect(at, kept) && at@ == addr@ && kept == message,
{
}

/// A variable of the environment is used as it is, and one that is missing is named.
pub proof fn missing_variable_is_named(
    var: &str,
    value: Option<String>,
    r: Result<String, Status>,
)
    requires
        call_ensures(env_path, (var, value), r),
    ensures
        value matches Some(path) ==> r == Ok::<String, Status>(path),
        value is None ==> (r matches Err(status) && status.code == Code::FailedPrecondition
            && status.message@ == var@ + " not set"@),
{
}

/// Failures below a prefix are internal, in their own words; a captured layer is answered
/// with a yes.
pub proof fn prefix_failures_are_internal(
    message: String,
    err: CoreError,
    layers: Status,
    core: Status,
    captured: Result<(), String>,
    r: Result<bool, Status>,
)
    requires
        call_ensures(layers_status, (message,), layers),
        call_ensures(core_status, (err,), core),
        call_ensures(capture_layer, (captured,), r),
    ensures
        layers.code == Code::Internal && layers.message@ == message@,
        core.code == Code::Internal && core.message@ == err.message@,
        captured is Ok ==> r == Ok::<bool, Status>(true),
        captured matches Err(words) ==> (r matches Err(status) && status.code == Code::Internal
            && status.message@ == words@),
{
}

/// The layers that are mounted are those that the request names, in its order.
pub proof fn mounted_layers_are_the_requests(layers: &[Layer], refs: Vec<LayerRef>, i: int)
    requires
        call_ensures(to_layers, (layers,), refs),
        0 <= i < layers@.len(),
    ensures
        refs@.len() == layers@.len(),
        refs@[i].repo == layers@[i].repo,
        refs@[i].state == layers@[i].state,
{
}

/// A launch begins with the request as it is, and no session is held in the beginning.
pub proof fn launch_begins_with_the_request<T>(
    request: LaunchInPrefixRequest,
    call: LaunchInPrefix,
    sessions: Sessions<T>,
)
    requires
        call_ensures(LaunchInPrefix::begin, (request,), call),
        call_ensures(Sessions::<T>::new, (), sessions),
    ensures
        call == LaunchInPrefix::FindWine(request),
        forall|id: u64| !sessions@.held.contains_key(id),
        sessions@.next == 0,
{
}

/// A mounted prefix is held under the number that is answered, at the path that it was
/// mounted at; where nothing was mounted, nothing changes, and the failure is answered.
pub proof fn prepared_prefix_is_held<T>(
    sessions: &mut Sessions<T>,
    mounted: Result<(T, String), String>,
    r: Result<PrefixSession, Status>,
)
    requires
        call_ensures(prepare_prefix::<T>, (sessions, mounted), r),
    ensures
        mounted matches Ok((mount, mountpoint)) ==> (r matches Ok(session) && session.session_id
            == old(sessions)@.next && session.mountpoint == mountpoint
            && final(sessions)@.held.contains_key(session.session_id)
            && final(sessions)@.held[session.session_id] == mount),
        mounted matches Err(message) ==> final(sessions)@ == old(sessions)@ && (r matches Err(
            status,
        ) && status.code == Code::Internal && status.message@ == message@),
{
}

/// A launched prefix is held under the number that is answered, with the path that it was
/// mounted at and the number of its process; where nothing was launched, nothing changes,
/// and the failure is answered.
pub proof fn launched_prefix_is_held<T>(
    sessions: &mut Sessions<T>,
    started: Result<(T, String, u32), CoreError>,
    r: Result<LaunchResult, Status>,
)
    requires
        call_ensures(launched::<T>, (sessions, started), r),
    ensures
        started matches Ok((active, mountpoint, pid)) ==> (r matches Ok(result) && result.session_id
            == old(sessions)@.next && result.mountpoint == mountpoint && result.pid == pid
            && final(sessions)@.held.contains_key(result.session_id)
            && final(sessions)@.held[result.session_id] == active),
        started matches Err(err) ==> final(sessions)@ == old(sessions)@ && (r matches Err(status)
            && status.code == Code::Internal && status.message@ == err.message@),
{
}

/// A session can be released exactly while it is held, and releasing it leaves the others
/// held.
pub proof fn release_says_whether_it_was_held<T>(
    sessions: &mut Sessions<T>,
    id: u64,
    other: u64,
    ok: bool,
)
    requires
        call_ensures(Sessions::<T>::release, (sessions, id), ok),
    ensures
        ok <==> old(sessions)@.held.contains_key(id),
        !final(sessions)@.held.contains_key(id),
        other != id ==> final(sessions)@.held.contains_key(other)
            == old(sessions)@.held.contains_key(other),
        final(sessions)@.next == old(sessions)@.next,
{
}

/// Holding a prefix gives it the next number.
pub proof fn held_prefix_gets_the_next_number<T>(sessions: &mut Sessions<T>, active: T, id: u64)
    requires
        call_ensures(Sessions::<T>::insert, (sessions, active), id),
    ensures
        id == old(sessions)@.next,
        final(sessions)@.held.contains_key(id) && final(sessions)@.held[id] == active,
{
}

/// Whatever comes of a step of a launch, or of passing a message on, is awaited there, and
/// nothing is awaited at the end.
pub proof fn prefix_calls_await_every_outcome(
    launch: LaunchInPrefix,
    value: Option<String>,
    wine: Result<(), CoreError>,
    launching: LaunchEvent,
    notify: Notify,
    connected: Result<(), Status>,
    sent: Result<bool, Status>,
    notifying: NotifyEvent,
)
    ensures
        (launch is FindWine || launch is FindWinebridge) <==> launch.awaits(
            LaunchEvent::Env(value),
        ),
        launch is OpenWine <==> launch.awaits(LaunchEvent::Wine(wine)),
        launch is Launch || launch is Refuse ==> !launch.awaits(launching),
        notify is Connect <==> notify.awaits(NotifyEvent::Connected(connected)),
        notify is Send <==> notify.awaits(NotifyEvent::Sent(sent)),
        notify is Done ==> !notify.awaits(notifying),
{
}

/// An event that a launch does not wait for changes nothing.
pub proof fn stray_events_do_not_touch_a_launch(state: LaunchInPrefix, event: LaunchEvent, next: LaunchInPrefix)
    requires
        !state.awaits(event),
        state.stepped(event, next),
    ensures
        next == state,
{
}

/// An event that a message on its way does not wait for changes nothing.
pub proof fn stray_events_do_not_touch_a_message(state: Notify, event: NotifyEvent, next: Notify)
    requires
        !state.awaits(event),
        state.stepped(event, next),
    ensures
        next == state,
{
}

} // verus!
