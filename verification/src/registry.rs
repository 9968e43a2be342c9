//! Storefronts, and reaching the plugin that owns one.
//!
//! The registry is asked for the endpoint of a storefront's plugin, and the endpoint
//! is then dialled. No plugin at all is not a failure of its own: callers decide.

use vstd::prelude::*;
use crate::machine::{is_run, Machine};
use crate::status::{Code, Status};

verus! {

/// A storefront that the protocol knows: its number and its name.
#[derive(Debug)]
pub struct Storefront {
    pub number: i32,
    pub name: String,
}

/// A storefront as a request gives it: a number, with the name where the protocol
/// knows the number.
#[derive(Debug)]
pub struct StorefrontRef {
    pub number: i32,
    pub name: Option<String>,
}

impl StorefrontRef {
    /// The protocol knows this storefront as `known`.
    pub open spec fn is_known_as(self, known: Storefront) -> bool {
        self.number == known.number && self.name == Some(known.name)
    }

    /// The storefront, where the protocol knows it.
    pub fn known(&self) -> (r: Option<Storefront>)
        ensures
            match r {
                Some(known) => self.is_known_as(known),
                None => self.name is None,
            },
    {
        match &self.name {
            Some(name) => Some(Storefront { number: self.number, name: name.clone() }),
            None => None,
        }
    }
}

/// Reads a request's storefront; an unknown number is an invalid argument.
pub fn parse_storefront(raw: &StorefrontRef) -> (r: Result<Storefront, Status>)
    ensures
        match r {
            Ok(known) => raw.is_known_as(known),
            Err(status) => raw.name is None && status.says(
                Code::InvalidArgument,
                "invalid storefront"@,
            ),
        },
{
    match raw.known() {
        Some(known) => Ok(known),
        None => Err(Status::with(Code::InvalidArgument, "invalid storefront")),
    }
}

/// How an attempt to reach a storefront's plugin ended.
#[derive(Debug)]
pub enum Reach {
    /// The plugin is connected.
    Connected,
    /// No plugin owns the storefront.
    Absent,
    /// The registry or the plugin could not be reached.
    Failed(Status),
}

/// The message of a dial that failed.
pub open spec fn dial_message(name: Seq<char>, endpoint: Seq<char>, cause: Seq<char>) -> Seq<char> {
    "failed to dial "@ + name + " plugin at "@ + endpoint + ": "@ + cause
}

/// The message where no plugin owns a storefront.
pub open spec fn no_plugin_message(name: Seq<char>) -> Seq<char> {
    "no plugin registered for "@ + name
}

/// Decides on a dial: connected, or failed with the cause that the transport gave.
pub fn dialled(storefront: &Storefront, endpoint: &str, failure: Option<String>) -> (r: Reach)
    ensures
        match failure {
            None => r == Reach::Connected,
            Some(cause) => r matches Reach::Failed(status) && status.says(
                Code::Unavailable,
                dial_message(storefront.name@, endpoint@, cause@),
            ),
        },
{
    match failure {
        None => Reach::Connected,
        Some(cause) => {
            let mut message = "failed to dial ".to_owned();
            message.append(storefront.name.as_str());
            message.append(" plugin at ");
            message.append(endpoint);
            message.append(": ");
            message.append(cause.as_str());
            Reach::Failed(Status::new(Code::Unavailable, message))
        },
    }
}

/// The text where no plugin owns a storefront.
pub fn no_plugin_text(storefront: &Storefront) -> (r: String)
    ensures
        r@ == no_plugin_message(storefront.name@),
{
    crate::text::join2("no plugin registered for ", storefront.name.as_str())
}

/// A call that needs the plugin fails with `status` on how reaching it ended.
pub open spec fn refused(storefront: Storefront, reach: Reach, status: Status) -> bool {
    match reach {
        Reach::Connected => false,
        Reach::Absent => status.says(Code::Unavailable, no_plugin_message(storefront.name@)),
        Reach::Failed(cause) => status == cause,
    }
}

/// Decides whether a call that needs the plugin can go on.
pub fn require(storefront: &Storefront, reach: Reach) -> (r: Result<(), Status>)
    ensures
        match r {
            Ok(()) => reach == Reach::Connected,
            Err(status) => refused(*storefront, reach, status),
        },
{
    match reach {
        Reach::Connected => Ok(()),
        Reach::Absent => Err(Status::new(Code::Unavailable, no_plugin_text(storefront))),
        Reach::Failed(status) => Err(status),
    }
}

/// Reaching a storefront's plugin, by what is to be done next.
#[derive(Debug)]
pub enum Dial {
    /// Ask the registry for the endpoint of the storefront, by its number.
    Resolve(Storefront),
    /// Connect to the storefront's plugin at this endpoint.
    Connect(Storefront, String),
    /// It is over.
    Done(Reach),
}

/// What reaching a plugin waits for.
#[derive(Debug)]
pub enum DialEvent {
    /// The endpoint, where a plugin owns the storefront.
    Resolved(Result<Option<String>, Status>),
    /// What went wrong with the connection, in words.
    Connected(Option<String>),
}

impl Dial {
    /// Begins with the registry.
    pub fn begin(storefront: Storefront) -> (r: Self)
        ensures
            r == Dial::Resolve(storefront),
    {
        Dial::Resolve(storefront)
    }
}

impl Machine for Dial {
    type Event = DialEvent;

    open spec fn awaits(self, event: DialEvent) -> bool {
        match self {
            Dial::Resolve(_) => event is Resolved,
            Dial::Connect(_, _) => event is Connected,
            Dial::Done(_) => false,
        }
    }

    open spec fn stepped(self, event: DialEvent, next: Self) -> bool {
        match (self, event) {
            (Dial::Resolve(storefront), DialEvent::Resolved(Ok(Some(endpoint)))) => next
                == Dial::Connect(storefront, endpoint),
            (Dial::Resolve(_), DialEvent::Resolved(Ok(None))) => next == Dial::Done(Reach::Absent),
            (Dial::Resolve(_), DialEvent::Resolved(Err(status))) => next == Dial::Done(
                Reach::Failed(status),
            ),
            (Dial::Connect(_, _), DialEvent::Connected(None)) => next == Dial::Done(
                Reach::Connected,
            ),
            (Dial::Connect(storefront, endpoint), DialEvent::Connected(Some(cause))) => next matches
                Dial::Done(Reach::Failed(status)) && status.says(
                Code::Unavailable,
                dial_message(storefront.name@, endpoint@, cause@),
            ),
            _ => next == self,
        }
    }

    fn step(self, event: DialEvent) -> (next: Self) {
        match (self, event) {
            (Dial::Resolve(storefront), DialEvent::Resolved(Ok(Some(endpoint)))) => Dial::Connect(
                storefront,
                endpoint,
            ),
            (Dial::Resolve(_), DialEvent::Resolved(Ok(None))) => Dial::Done(Reach::Absent),
            (Dial::Resolve(_), DialEvent::Resolved(Err(status))) => Dial::Done(
                Reach::Failed(status),
            ),
            (Dial::Connect(storefront, endpoint), DialEvent::Connected(failure)) => Dial::Done(
                dialled(&storefront, endpoint.as_str(), failure),
            ),
            (state, _) => state,
        }
    }
}

/// A plugin is connected only at the endpoint that the registry gave, and a storefront
/// counts as having no plugin only where the registry says so.
pub proof fn registry_decides_the_plugin(
    storefront: Storefront,
    reach: Reach,
    states: Seq<Dial>,
    events: Seq<DialEvent>,
)
    requires
        is_run(states, events),
        states[0] == Dial::Resolve(storefront),
        states.last() == Dial::Done(reach),
    ensures
        1 <= events.len() <= 2,
        reach == Reach::Connected ==> (events[0] matches DialEvent::Resolved(Ok(Some(endpoint)))
            && states[1] == Dial::Connect(storefront, endpoint)),
        reach == Reach::Absent <==> (events[0] matches DialEvent::Resolved(Ok(None))),
{
    assert(events.len() > 0);
    assert(states[0].awaits(events[0]));
    assert(events.len() > 1 ==> states[1].awaits(events[1]));
    assert(events.len() > 2 ==> states[2].awaits(events[2]));
}

/// A storefront is known under its own number and its own name, and one without a name
/// is not known.
pub proof fn known_storefront_is_the_same(raw: StorefrontRef, known: Storefront)
    ensures
        raw.is_known_as(known) <==> (raw.name matches Some(name) && name == known.name
            && raw.number == known.number),
{
}

/// The message of a failed dial names the plugin, the endpoint and the cause, in this
/// order and with fixed words between them.
pub proof fn failed_dial_names_everything(
    name: Seq<char>,
    endpoint: Seq<char>,
    cause: Seq<char>,
)
    ensures
        dial_message(name, endpoint, cause) == "failed to dial "@ + (name + (" plugin at "@ + (
        endpoint + (": "@ + cause)))),
        no_plugin_message(name) == "no plugin registered for "@ + name,
{
    assert(dial_message(name, endpoint, cause) =~= "failed to dial "@ + (name + (" plugin at "@ + (
    endpoint + (": "@ + cause)))));
}

/// A plugin that is connected refuses no call. One that is missing refuses with the
/// storefront's name, and one that could not be reached with the failure itself.
pub proof fn refusal_says_why(storefront: Storefront, reach: Reach, status: Status)
    requires
        refused(storefront, reach, status),
    ensures
        !(reach is Connected),
        reach is Absent ==> status.code == Code::Unavailable && status.message@
            == "no plugin registered for "@ + storefront.name@,
        reach matches Reach::Failed(cause) ==> status == cause,
{
}

/// How reaching a plugin ends, from what the registry and the dial gave: an endpoint is
/// dialled for the storefront that was asked for, and a failure is the registry's own or
/// names the storefront, the endpoint and the cause.
pub proof fn reach_follows_the_registry_and_the_dial(
    storefront: Storefront,
    reach: Reach,
    states: Seq<Dial>,
    events: Seq<DialEvent>,
)
    requires
        is_run(states, events),
        states[0] == Dial::Resolve(storefront),
        states.last() == Dial::Done(reach),
    ensures
        events.len() > 0,
        events[0] matches DialEvent::Resolved(answer) && match answer {
            Err(status) => events.len() == 1 && reach == Reach::Failed(status),
            Ok(None) => events.len() == 1 && reach is Absent,
            Ok(Some(endpoint)) => {
                &&& events.len() == 2
                &&& states[1] == Dial::Connect(storefront, endpoint)
                &&& events[1] matches DialEvent::Connected(failure) && match failure {
                    None => reach is Connected,
                    Some(cause) => reach matches Reach::Failed(status) && status.code
                        == Code::Unavailable && status.message@ == "failed to dial "@
                        + storefront.name@ + " plugin at "@ + endpoint@ + ": "@ + cause@,
                }
            },
        },
{
    assert(events.len() > 0);
    assert(states[0].awaits(events[0]));
    assert(events.len() > 1 ==> states[1].awaits(events[1]));
    assert(events.len() > 2 ==> states[2].awaits(events[2]));
}

/// A request's storefront is read exactly where it has a name, and then keeps its number
/// and its name; one without a name is an invalid argument.
pub proof fn storefront_is_read_by_its_name(raw: StorefrontRef, r: Result<Storefront, Status>)
    requires
        call_ensures(parse_storefront, (&raw,), r),
    ensures
        r is Ok <==> raw.name is Some,
        r matches Ok(known) ==> known.number == raw.number && Some(known.name) == raw.name,
        r matches Err(status) ==> status.code == Code::InvalidArgument && status.message@
            == "invalid storefront"@,
{
}

/// A call that needs a plugin goes on exactly where the plugin is connected, and is
/// otherwise refused for the storefront by name, or with the failure to reach it.
pub proof fn needed_plugin_must_be_connected(
    storefront: Storefront,
    reach: Reach,
    r: Result<(), Status>,
)
    requires
        call_ensures(require, (&storefront, reach), r),
    ensures
        r is Ok <==> reach is Connected,
        reach is Absent ==> (r matches Err(status) && status.code == Code::Unavailable
            && status.message@ == "no plugin registered for "@ + storefront.name@),
        reach matches Reach::Failed(cause) ==> r == Err::<(), Status>(cause),
{
}

/// A dial is connected exactly where nothing went wrong with it, and otherwise failed in
/// words that name the storefront, the endpoint and the cause.
pub proof fn dial_fails_with_its_cause(
    storefront: Storefront,
    endpoint: &str,
    failure: Option<String>,
    r: Reach,
)
    requires
        call_ensures(dialled, (&storefront, endpoint, failure), r),
    ensures
        r is Connected <==> failure is None,
        !(r is Absent),
        failure matches Some(cause) ==> (r matches Reach::Failed(status) && status.code
            == Code::Unavailable && status.message@ == "failed to dial "@ + storefront.name@
            + " plugin at "@ + endpoint@ + ": "@ + cause@),
{
}

/// Reaching a plugin begins with the storefront as it is.
pub proof fn dial_begins_with_the_storefront(storefront: Storefront, dial: Dial)
    requires
        call_ensures(Dial::begin, (storefront,), dial),
    ensures
        dial == Dial::Resolve(storefront),
{
}

/// Whatever comes of a step of reaching a plugin is awaited there, and nothing is awaited
/// once it is over.
pub proof fn dial_awaits_every_outcome(
    dial: Dial,
    answer: Result<Option<String>, Status>,
    failure: Option<String>,
    event: DialEvent,
)
    ensures
        dial is Resolve <==> dial.awaits(DialEvent::Resolved(answer)),
        dial is Connect <==> dial.awaits(DialEvent::Connected(failure)),
        dial is Done ==> !dial.awaits(event),
{
}

/// An event that a dial does not wait for changes nothing.
pub proof fn stray_events_do_not_touch_a_dial(state: Dial, event: DialEvent, next: Dial)
    requires
        !state.awaits(event),
        state.stepped(event, next),
    ensures
        next == state,
{
}

} // verus!
