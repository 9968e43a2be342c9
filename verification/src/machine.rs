//! Calls that wait on other services, as machines.
//!
//! A machine's value says what is to be done next. The result of doing it is an event,
//! and `step` takes the machine to what is to be done then. An event that does not
//! answer what is to be done changes nothing.

use vstd::prelude::*;

verus! {

/// A call in progress.
pub trait Machine: Sized {
    /// The result of what a machine asks for.
    type Event;

    /// The event is a result of what this machine asks for.
    spec fn awaits(self, event: Self::Event) -> bool;

    /// The event takes this machine to `next`.
    spec fn stepped(self, event: Self::Event, next: Self) -> bool;

    /// Takes the machine on by one event.
    fn step(self, event: Self::Event) -> (next: Self)
        ensures
            self.stepped(event, next),
    ;
}

/// A run: each machine is taken to the next one by the event between them, and each
/// event is a result of what was asked for.
pub open spec fn is_run<M: Machine>(states: Seq<M>, events: Seq<M::Event>) -> bool {
    &&& states.len() == events.len() + 1
    &&& forall|i: int|
        0 <= i < events.len() ==> states[i].awaits(#[trigger] events[i]) && states[i].stepped(
            events[i],
            states[i + 1],
        )
}

/// The part of a run up to some machine is a run.
pub proof fn run_prefix<M: Machine>(states: Seq<M>, events: Seq<M::Event>, n: int)
    requires
        is_run(states, events),
        0 <= n <= events.len(),
    ensures
        is_run(states.take(n + 1), events.take(n)),
{
    let s = states.take(n + 1);
    let e = events.take(n);
    assert forall|i: int| 0 <= i < e.len() implies s[i].awaits(#[trigger] e[i]) && s[i].stepped(
        e[i],
        s[i + 1],
    ) by {
        assert(e[i] == events[i]);
    }
}

} // verus!
